//! What is known of the devices that were found.

use vstd::prelude::*;

verus! {

/// The result of enumerating the devices.
#[derive(Debug)]
pub struct Context {
    num_devices: u32,
}

impl Context {
    /// The number of devices that were discovered during enumeration.
    pub closed spec fn spec_num_devices(&self) -> u32 {
        self.num_devices
    }

    /// Records the count that enumeration gave.
    pub fn new(enumerated: i32) -> (context: Context)
        requires
            enumerated >= 0,
        ensures
            context.spec_num_devices() == enumerated,
    {
        Context { num_devices: enumerated as u32 }
    }

    /// Gets the number of devices that were discovered during enumeration.
    #[verifier::when_used_as_spec(spec_num_devices)]
    pub fn num_devices(&self) -> (out: u32)
        ensures
            out == self.spec_num_devices(),
    {
        self.num_devices
    }

    /// The index to hand to the device library for the device
    /// `device_index`: the same number as a signed integer, if it is one.
    pub fn library_index(device_index: u32) -> (out: Option<i32>)
        ensures
            out == if device_index <= i32::MAX {
                Some(device_index as i32)
            } else {
                None
            },
    {
        if device_index <= 0x7fff_ffff {
            Some(device_index as i32)
        } else {
            None
        }
    }

    /// The serial number in a reply of the device library, which answers
    /// with an empty text where it has no device to name.
    pub fn serial_number(reply: String) -> (out: Option<String>)
        ensures
            out == if reply@.len() == 0 {
                None
            } else {
                Some(reply)
            },
    {
        if reply.as_str().is_empty() {
            None
        } else {
            Some(reply)
        }
    }
}

} // verus!
