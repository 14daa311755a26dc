use usb_ep0::fault::ParseError;
use usb_ep0::request::{Address, DescriptorKind, Request, SetupPacket};

#[test]
fn get_descriptor_device_round_trip() {
    // bmRequestType=0x80, bRequest=6, wValue=(kind<<8) with kind 1 = Device.
    let r = Request::parse(0x80, 6, 0x0100, 0, 18);
    assert_eq!(
        r,
        Ok(Request::GetDescriptor { descriptor: DescriptorKind::Device, length: 18 })
    );
}

#[test]
fn get_descriptor_configuration_round_trip() {
    let r = Request::parse(0x80, 6, 0x0200, 0, 9);
    assert_eq!(
        r,
        Ok(Request::GetDescriptor { descriptor: DescriptorKind::Configuration, length: 9 })
    );
}

#[test]
fn get_descriptor_unknown_kind_is_unrecognized() {
    // Descriptor-type code 3 names no descriptor this engine recognizes.
    let r = Request::parse(0x80, 6, 0x0300, 0, 4);
    assert_eq!(r, Err(ParseError::Unrecognized));
}

#[test]
fn set_address_zero_returns_to_default() {
    let r = Request::parse(0x00, 5, 0, 0, 0);
    assert_eq!(r, Ok(Request::SetAddress { address: None }));
}

#[test]
fn set_address_five_is_address_five() {
    let r = Request::parse(0x00, 5, 5, 0, 0);
    assert_eq!(
        r,
        Ok(Request::SetAddress { address: Some(Address { value: 5 }) })
    );
}

#[test]
fn set_address_two_hundred_is_invalid() {
    let r = Request::parse(0x00, 5, 200, 0, 0);
    assert_eq!(r, Err(ParseError::InvalidAddress));
}

#[test]
fn set_address_bounds() {
    assert_eq!(
        Request::parse(0x00, 5, 1, 0, 0),
        Ok(Request::SetAddress { address: Some(Address { value: 1 }) })
    );
    assert_eq!(
        Request::parse(0x00, 5, 127, 0, 0),
        Ok(Request::SetAddress { address: Some(Address { value: 127 }) })
    );
    assert_eq!(Request::parse(0x00, 5, 128, 0, 0), Err(ParseError::InvalidAddress));
    assert_eq!(Request::parse(0x00, 5, u16::MAX, 0, 0), Err(ParseError::InvalidAddress));
}

#[test]
fn unknown_bit_pattern_is_unrecognized() {
    // A class-level OUT request: no standard enumeration request at all.
    let r = Request::parse(0x21, 9, 0, 0, 0);
    assert_eq!(r, Err(ParseError::Unrecognized));
}

#[test]
fn address_new_accepts_exactly_1_to_127() {
    assert_eq!(Address::new(0), None);
    assert_eq!(Address::new(1), Some(Address { value: 1 }));
    assert_eq!(Address::new(127), Some(Address { value: 127 }));
    assert_eq!(Address::new(128), None);
    assert_eq!(Address::new(255), None);
    assert_eq!(Address::new(42).unwrap().get(), 42);
}

#[test]
fn packet_fields_assemble_from_register_bytes() {
    // Each 16-bit field is high byte * 256 + low byte.
    let p = SetupPacket::from_register_bytes(0x80, 6, 0x34, 0x12, 0xcd, 0xab, 0x01, 0xff);
    assert_eq!(p.bmrequesttype, 0x80);
    assert_eq!(p.brequest, 6);
    assert_eq!(p.wvalue, 0x1234);
    assert_eq!(p.windex, 0xabcd);
    assert_eq!(p.wlength, 0xff01);
}

#[test]
fn packet_from_bytes_parses_like_its_fields() {
    let p = SetupPacket::from_register_bytes(0x00, 5, 7, 0, 0, 0, 0, 0);
    let r = Request::parse(p.bmrequesttype, p.brequest, p.wvalue, p.windex, p.wlength);
    assert_eq!(
        r,
        Ok(Request::SetAddress { address: Some(Address { value: 7 }) })
    );
}
