use usb_ep0::fault::Fault;
use usb_ep0::request::Address;
use usb_ep0::state::{set_device_address, DeviceState};

#[test]
fn assign_address_from_default() {
    let mut state = DeviceState::Default;
    let r = set_device_address(&mut state, Some(Address { value: 7 }));
    assert_eq!(r, Ok(()));
    assert_eq!(state, DeviceState::Addressed(Address { value: 7 }));
}

#[test]
fn reassign_address_from_addressed() {
    let mut state = DeviceState::Addressed(Address { value: 3 });
    let r = set_device_address(&mut state, Some(Address { value: 127 }));
    assert_eq!(r, Ok(()));
    assert_eq!(state, DeviceState::Addressed(Address { value: 127 }));
}

#[test]
fn address_none_returns_default_from_default() {
    let mut state = DeviceState::Default;
    let r = set_device_address(&mut state, None);
    assert_eq!(r, Ok(()));
    assert_eq!(state, DeviceState::Default);
}

#[test]
fn address_none_returns_default_from_addressed() {
    let mut state = DeviceState::Addressed(Address { value: 9 });
    let r = set_device_address(&mut state, None);
    assert_eq!(r, Ok(()));
    assert_eq!(state, DeviceState::Default);
}

#[test]
fn set_address_while_configured_is_fatal() {
    let mut state = DeviceState::Configured;
    let r = set_device_address(&mut state, Some(Address { value: 5 }));
    assert_eq!(r, Err(Fault::IllegalStateTransition));
    // The defined fault, not a silent state change.
    assert_eq!(state, DeviceState::Configured);
}

#[test]
fn set_address_none_while_configured_is_fatal_too() {
    let mut state = DeviceState::Configured;
    let r = set_device_address(&mut state, None);
    assert_eq!(r, Err(Fault::IllegalStateTransition));
    assert_eq!(state, DeviceState::Configured);
}
