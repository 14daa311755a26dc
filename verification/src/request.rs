//! The request parser: from a raw 8-byte setup packet to a typed request.

use crate::fault::ParseError;
use vstd::prelude::*;

verus! {

/// A device address assigned by the host through SET_ADDRESS.
///
/// Valid addresses are the integers 1..=127; `wf` is the invariant that
/// every constructor establishes and every contract carries.
#[derive(Clone, Copy, Debug, PartialEq, Eq, Structural)]
pub struct Address {
    pub value: u8,
}

impl Address {
    /// Well-formedness: a USB device address fits in 7 bits and is never 0.
    pub open spec fn wf(self) -> bool {
        1 <= self.value <= 127
    }

    /// Wraps `value` as an address exactly when it lies in 1..=127.
    pub fn new(value: u8) -> (r: Option<Address>)
        ensures
            1 <= value <= 127 <==> r is Some,
            r matches Some(a) ==> a == (Address { value }) && a.wf(),
    {
        if 1 <= value && value <= 127 {
            Some(Address { value })
        } else {
            None
        }
    }

    /// The numeric value of the address.
    pub fn get(&self) -> (r: u8)
        ensures
            r == self.value,
    {
        self.value
    }
}

/// The five fields of a standard USB setup packet (USB 2.0 §9.3).
///
/// The dispatcher owns a packet only for the duration of one setup event;
/// it is never retained across events.
#[derive(Clone, Copy, Debug, PartialEq, Eq, Structural)]
pub struct SetupPacket {
    pub bmrequesttype: u8,
    pub brequest: u8,
    pub wvalue: u16,
    pub windex: u16,
    pub wlength: u16,
}

impl SetupPacket {
    /// Assembles a packet from the raw register bytes: each 16-bit field is
    /// its high byte shifted up by eight bits, joined with its low byte.
    pub fn from_register_bytes(
        bmrequesttype: u8,
        brequest: u8,
        wvaluel: u8,
        wvalueh: u8,
        windexl: u8,
        windexh: u8,
        wlengthl: u8,
        wlengthh: u8,
    ) -> (r: SetupPacket)
        ensures
            r.bmrequesttype == bmrequesttype,
            r.brequest == brequest,
            r.wvalue == wvalueh * 256 + wvaluel,
            r.windex == windexh * 256 + windexl,
            r.wlength == wlengthh * 256 + wlengthl,
    {
        SetupPacket {
            bmrequesttype,
            brequest,
            wvalue: (wvalueh as u16) * 256 + (wvaluel as u16),
            windex: (windexh as u16) * 256 + (windexl as u16),
            wlength: (wlengthh as u16) * 256 + (wlengthl as u16),
        }
    }

    /// The request this packet decodes to, if any.
    pub open spec fn parsed(self) -> Result<Request, ParseError> {
        parsed(self.bmrequesttype, self.brequest, self.wvalue, self.windex, self.wlength)
    }
}

/// The descriptor classes a GET_DESCRIPTOR request can name here.
#[derive(Clone, Copy, Debug, PartialEq, Eq, Structural)]
pub enum DescriptorKind {
    /// The device descriptor (code 1 in the high byte of wValue).
    Device,
    /// A configuration descriptor (code 2 in the high byte of wValue).
    Configuration,
}

impl DescriptorKind {
    /// The descriptor-type code carried in the high byte of wValue
    /// (USB 2.0 §9.4, table 9-5).
    pub open spec fn code(self) -> u16 {
        match self {
            DescriptorKind::Device => 1,
            DescriptorKind::Configuration => 2,
        }
    }
}

/// A standard request recognized by this engine.
///
/// The variant set is closed on purpose: every request the parser can
/// produce must be matched somewhere, so a request silently ignored is a
/// compile-time hole, not a runtime surprise.
#[derive(Clone, Copy, Debug, PartialEq, Eq)]
pub enum Request {
    /// GET_DESCRIPTOR: the host asks for at most `length` bytes of the
    /// named descriptor. Clamping `length` to the descriptor's real size is
    /// the responder's concern, not the parser's.
    GetDescriptor { descriptor: DescriptorKind, length: u16 },
    /// SET_ADDRESS: `None` returns the device to its default state,
    /// `Some(a)` assigns address `a`.
    SetAddress { address: Option<Address> },
}

impl Request {
    /// Every address a parsed request carries is a valid one.
    pub open spec fn wf(self) -> bool {
        match self {
            Request::GetDescriptor { .. } => true,
            Request::SetAddress { address } => match address {
                Some(a) => a.wf(),
                None => true,
            },
        }
    }

    /// Decodes the five raw setup-packet fields into a typed request.
    ///
    /// Pure: the result depends on the fields alone, and equals [`parsed`]
    /// on them. In particular a SET_ADDRESS value of 0 maps to
    /// `address == None`, 1..=127 to `Some`, and anything larger fails with
    /// [`ParseError::InvalidAddress`].
    pub fn parse(
        bmrequesttype: u8,
        brequest: u8,
        wvalue: u16,
        windex: u16,
        wlength: u16,
    ) -> (r: Result<Request, ParseError>)
        ensures
            r == parsed(bmrequesttype, brequest, wvalue, windex, wlength),
            r matches Ok(req) ==> req.wf(),
    {
        if bmrequesttype == 0x80 && brequest == 6 {
            let kind_code: u16 = wvalue / 256;
            if kind_code == 1 {
                Ok(Request::GetDescriptor { descriptor: DescriptorKind::Device, length: wlength })
            } else if kind_code == 2 {
                Ok(
                    Request::GetDescriptor {
                        descriptor: DescriptorKind::Configuration,
                        length: wlength,
                    },
                )
            } else {
                Err(ParseError::Unrecognized)
            }
        } else if bmrequesttype == 0x00 && brequest == 5 {
            if wvalue == 0 {
                Ok(Request::SetAddress { address: None })
            } else if wvalue <= 127 {
                Ok(Request::SetAddress { address: Some(Address { value: wvalue as u8 }) })
            } else {
                Err(ParseError::InvalidAddress)
            }
        } else {
            Err(ParseError::Unrecognized)
        }
    }
}

/// The standard-request table this engine recognizes (USB 2.0 §9.4).
///
/// Classification goes by `bmrequesttype` and `brequest`:
/// - `0x80`/`6` is GET_DESCRIPTOR, with the descriptor kind in the high
///   byte of `wvalue` and the requested length in `wlength`;
/// - `0x00`/`5` is SET_ADDRESS, with the new address in `wvalue` (0 means
///   "return to default", 1..=127 is a proper address, anything larger is
///   invalid);
/// - every other pattern is unrecognized.
pub open spec fn parsed(
    bmrequesttype: u8,
    brequest: u8,
    wvalue: u16,
    windex: u16,
    wlength: u16,
) -> Result<Request, ParseError> {
    if bmrequesttype == 0x80 && brequest == 6 {
        if wvalue / 256 == 1 {
            Ok(Request::GetDescriptor { descriptor: DescriptorKind::Device, length: wlength })
        } else if wvalue / 256 == 2 {
            Ok(
                Request::GetDescriptor {
                    descriptor: DescriptorKind::Configuration,
                    length: wlength,
                },
            )
        } else {
            Err(ParseError::Unrecognized)
        }
    } else if bmrequesttype == 0x00 && brequest == 5 {
        if wvalue == 0 {
            Ok(Request::SetAddress { address: None })
        } else if wvalue <= 127 {
            Ok(Request::SetAddress { address: Some(Address { value: wvalue as u8 }) })
        } else {
            Err(ParseError::InvalidAddress)
        }
    } else {
        Err(ParseError::Unrecognized)
    }
}

/// Round trip for GET_DESCRIPTOR: a packet synthesized from a descriptor
/// kind and a length (`bmrequesttype = 0x80`, `brequest = 6`,
/// `wvalue = code << 8`, `windex = 0`, `wlength = length`) parses back to
/// exactly that kind and length.
pub proof fn lemma_get_descriptor_round_trip(kind: DescriptorKind, length: u16)
    ensures
        parsed(0x80, 6, (kind.code() * 256) as u16, 0, length) == Ok::<Request, ParseError>(
            Request::GetDescriptor { descriptor: kind, length },
        ),
{
}

/// SET_ADDRESS parsing, over every possible wValue of a SET_ADDRESS packet
/// (`bmrequesttype = 0x00`, `brequest = 5`, `windex = 0`, `wlength = 0`):
/// 0 means "return to default", 1..=127 is that address, and anything
/// larger is rejected as invalid.
pub proof fn lemma_set_address_parse(addr: u16)
    ensures
        addr == 0 ==> parsed(0, 5, addr, 0, 0) == Ok::<Request, ParseError>(
            Request::SetAddress { address: None },
        ),
        1 <= addr <= 127 ==> parsed(0, 5, addr, 0, 0) == Ok::<Request, ParseError>(
            Request::SetAddress { address: Some(Address { value: addr as u8 }) },
        ),
        addr > 127 ==> parsed(0, 5, addr, 0, 0) == Err::<Request, ParseError>(
            ParseError::InvalidAddress,
        ),
{
}

} // verus!
