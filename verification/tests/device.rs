use depth_registration::device::{Device, Error};

#[test]
fn a_new_device_is_in_the_state_given() {
    assert!(!Device::new(false).started());
    assert!(Device::new(true).started());
}

#[test]
fn start_succeeds_when_idle_and_the_library_agrees() {
    let mut device = Device::new(false);
    assert_eq!(device.start(true), Ok(()));
    assert!(device.started());
}

#[test]
fn start_fails_with_library_when_the_library_refuses() {
    let mut device = Device::new(false);
    assert_eq!(device.start(false), Err(Error::Library));
    assert!(!device.started());
}

#[test]
fn start_fails_with_streams_running_when_started() {
    let mut device = Device::new(true);
    assert_eq!(device.start(true), Err(Error::StreamsRunning));
    assert!(device.started());
    assert_eq!(device.start(false), Err(Error::StreamsRunning));
    assert!(device.started());
}

#[test]
fn stop_succeeds_when_running_and_the_library_agrees() {
    let mut device = Device::new(true);
    assert_eq!(device.stop(true), Ok(()));
    assert!(!device.started());
}

#[test]
fn stop_fails_with_library_when_the_library_refuses() {
    let mut device = Device::new(true);
    assert_eq!(device.stop(false), Err(Error::Library));
    assert!(device.started());
}

#[test]
fn stop_fails_with_not_running_when_idle() {
    let mut device = Device::new(false);
    assert_eq!(device.stop(true), Err(Error::NotRunning));
    assert!(!device.started());
    assert_eq!(device.stop(false), Err(Error::NotRunning));
    assert!(!device.started());
}

#[test]
fn start_then_stop_then_start_again() {
    let mut device = Device::new(false);
    assert_eq!(device.start(true), Ok(()));
    assert_eq!(device.start(true), Err(Error::StreamsRunning));
    assert_eq!(device.stop(true), Ok(()));
    assert_eq!(device.stop(true), Err(Error::NotRunning));
    assert_eq!(device.start(true), Ok(()));
    assert!(device.started());
}

#[test]
fn check_idle_refuses_while_streams_run() {
    assert_eq!(Device::new(false).check_idle(), Ok(()));
    assert_eq!(Device::new(true).check_idle(), Err(Error::StreamsRunning));
}

#[test]
fn check_running_refuses_while_streams_are_stopped() {
    assert_eq!(Device::new(true).check_running(), Ok(()));
    assert_eq!(Device::new(false).check_running(), Err(Error::NotRunning));
}

#[test]
fn error_messages() {
    assert_eq!(
        Error::StreamsRunning.message(),
        "streams are already running; cannot update configuration or start again"
    );
    assert_eq!(Error::NotRunning.message(), "streams are not running; nothing to stop");
    assert_eq!(Error::Library.message(), "libfreenect2 library error");
}
