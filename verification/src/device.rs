//! The stream state of a device and the rules that guard it.
//!
//! The device itself is driven by the caller. This module decides what may
//! be asked of it in which state, and what its answers do to the state.

use vstd::prelude::*;

verus! {

/// Errors that can occur related to the device.
#[derive(Debug, Clone, Copy, PartialEq, Eq, Structural)]
pub enum Error {
    /// Streams are running, and the operation needs them stopped.
    StreamsRunning,
    /// Streams are not running, and the operation needs them running.
    NotRunning,
    /// The device library reported a failure, without saying more.
    Library,
}

/// The text that describes an error.
pub open spec fn spec_message(error: Error) -> Seq<char> {
    match error {
        Error::StreamsRunning => "streams are already running; cannot update configuration or start again"@,
        Error::NotRunning => "streams are not running; nothing to stop"@,
        Error::Library => "libfreenect2 library error"@,
    }
}

impl Error {
    /// The text that describes this error.
    pub fn message(&self) -> (text: &'static str)
        ensures
            text@ == spec_message(*self),
    {
        match self {
            Error::StreamsRunning => "streams are already running; cannot update configuration or start again",
            Error::NotRunning => "streams are not running; nothing to stop",
            Error::Library => "libfreenect2 library error",
        }
    }
}

/// What a start request gives, from the state before it and the library's
/// answer: the result and the state after.
pub open spec fn spec_start(started: bool, library_ok: bool) -> (Result<(), Error>, bool) {
    if started {
        (Err(Error::StreamsRunning), true)
    } else if library_ok {
        (Ok(()), true)
    } else {
        (Err(Error::Library), false)
    }
}

/// What a stop request gives, from the state before it and the library's
/// answer: the result and the state after.
pub open spec fn spec_stop(started: bool, library_ok: bool) -> (Result<(), Error>, bool) {
    if !started {
        (Err(Error::NotRunning), false)
    } else if library_ok {
        (Ok(()), false)
    } else {
        (Err(Error::Library), true)
    }
}

/// The stream state of one device.
#[derive(Debug)]
pub struct Device {
    started: bool,
}

impl Device {
    /// Whether streams have started.
    pub closed spec fn spec_started(&self) -> bool {
        self.started
    }

    /// The state of a device whose streams are running or not, as given.
    pub fn new(started: bool) -> (device: Device)
        ensures
            device.spec_started() == started,
    {
        Device { started }
    }

    /// Whether streams have started.
    #[verifier::when_used_as_spec(spec_started)]
    pub fn started(&self) -> (out: bool)
        ensures
            out == self.spec_started(),
    {
        self.started
    }

    /// Whether the device may be started or reconfigured now: not while
    /// streams are running.
    pub fn check_idle(&self) -> (result: Result<(), Error>)
        ensures
            result == if self.spec_started() {
                Err::<(), Error>(Error::StreamsRunning)
            } else {
                Ok::<(), Error>(())
            },
    {
        if self.started {
            Err(Error::StreamsRunning)
        } else {
            Ok(())
        }
    }

    /// Whether the device may be stopped now: only while streams are
    /// running.
    pub fn check_running(&self) -> (result: Result<(), Error>)
        ensures
            result == if self.spec_started() {
                Ok::<(), Error>(())
            } else {
                Err::<(), Error>(Error::NotRunning)
            },
    {
        if self.started {
            Ok(())
        } else {
            Err(Error::NotRunning)
        }
    }

    /// Takes the library's answer to a start request. While streams are
    /// running the request is refused and the answer is not read.
    pub fn start(&mut self, library_ok: bool) -> (result: Result<(), Error>)
        ensures
            result == spec_start(old(self).spec_started(), library_ok).0,
            final(self).spec_started() == spec_start(old(self).spec_started(), library_ok).1,
    {
        if self.started {
            Err(Error::StreamsRunning)
        } else if library_ok {
            self.started = true;
            Ok(())
        } else {
            Err(Error::Library)
        }
    }

    /// Takes the library's answer to a stop request. While streams are not
    /// running the request is refused and the answer is not read.
    pub fn stop(&mut self, library_ok: bool) -> (result: Result<(), Error>)
        ensures
            result == spec_stop(old(self).spec_started(), library_ok).0,
            final(self).spec_started() == spec_stop(old(self).spec_started(), library_ok).1,
    {
        if !self.started {
            Err(Error::NotRunning)
        } else if library_ok {
            self.started = false;
            Ok(())
        } else {
            Err(Error::Library)
        }
    }
}

/// A start that succeeds is undone by a stop that succeeds, and the other
/// way round; a request that fails leaves the state as it was.
pub proof fn lemma_start_stop(started: bool, library_ok: bool)
    ensures
        spec_start(started, library_ok).0 is Err ==> spec_start(started, library_ok).1 == started,
        spec_stop(started, library_ok).0 is Err ==> spec_stop(started, library_ok).1 == started,
        spec_start(started, library_ok).0 is Ok ==> spec_stop(
            spec_start(started, library_ok).1,
            true,
        ) == (Ok::<(), Error>(()), started),
        spec_stop(started, library_ok).0 is Ok ==> spec_start(
            spec_stop(started, library_ok).1,
            true,
        ) == (Ok::<(), Error>(()), started),
{
}

} // verus!
