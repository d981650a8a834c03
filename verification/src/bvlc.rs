//! The BACnet/IP virtual link (BVLC) decoder: a fixed marker byte, a function
//! code, a declared total length that must equal the buffer's length, an
//! embedded originating address for forwarded frames, and for the three
//! NPDU-carrying functions the network-layer frame itself.

use crate::npdu::npdu_decode_ok;
use crate::npdu::npdu_value;
use crate::npdu::parse_npdu;
use crate::npdu::NpduValue;
use crate::npdu::NPDU;
use crate::wire::be16_at;
use crate::wire::be32_at;
use crate::wire::read_be16;
use crate::wire::read_be32;
use crate::Error;
use vstd::prelude::*;
use vstd::slice::slice_subrange;

verus! {

/// The BVLC function code, decoded from the byte at offset 1. Unrecognized
/// codes map to `Unknown`; they are expected wire traffic, not an error.
#[derive(Clone, Copy, Debug, PartialEq, Eq, Structural)]
pub enum BVLCFunction {
    BVLCResult,
    WBDT,
    RBDT,
    RBDTAck,
    ForwardedNPDU,
    RegisterForeignDevice,
    UnicastNPDU,
    BroadcastNPDU,
    SecureBVLL,
    Unknown,
}

/// The function named by a function-code byte.
pub open spec fn bvlc_function_of(b: u8) -> BVLCFunction {
    if b == 0x00 {
        BVLCFunction::BVLCResult
    } else if b == 0x01 {
        BVLCFunction::WBDT
    } else if b == 0x02 {
        BVLCFunction::RBDT
    } else if b == 0x03 {
        BVLCFunction::RBDTAck
    } else if b == 0x04 {
        BVLCFunction::ForwardedNPDU
    } else if b == 0x05 {
        BVLCFunction::RegisterForeignDevice
    } else if b == 0x0a {
        BVLCFunction::UnicastNPDU
    } else if b == 0x0b {
        BVLCFunction::BroadcastNPDU
    } else if b == 0x0c {
        BVLCFunction::SecureBVLL
    } else {
        BVLCFunction::Unknown
    }
}

/// Exactly the three function codes that carry an NPDU.
pub open spec fn function_has_npdu(f: BVLCFunction) -> bool {
    f is ForwardedNPDU || f is UnicastNPDU || f is BroadcastNPDU
}

/// Only forwarded frames embed an originating (ip, port) pair.
pub open spec fn function_has_ip_port(f: BVLCFunction) -> bool {
    f is ForwardedNPDU
}

/// Offset at which the carried NPDU starts: past the (ip, port) pair when one
/// is present, else right after the four header bytes.
pub open spec fn bvlc_npdu_start(f: BVLCFunction) -> int {
    if function_has_ip_port(f) {
        10
    } else {
        4
    }
}

/// Whether a BVLC frame decodes from `b`: the marker byte 0x81, the declared
/// total length equal to the buffer's actual length, and for forwarded frames
/// room for the embedded (ip, port) pair and the carried NPDU.
pub open spec fn bvlc_decode_ok(b: Seq<u8>) -> bool {
    &&& b.len() >= 4
    &&& b[0] == 0x81
    &&& be16_at(b, 2) == b.len()
    &&& (bvlc_function_of(b[1]) is ForwardedNPDU ==> b.len() >= 10)
}

/// Mathematical value of a decoded BVLC frame. The embedded address is a
/// `(ip, port)` pair; the NPDU is present only for the functions that carry
/// one and only when it decodes (a failed NPDU decode is tolerated).
pub ghost struct BvlcValue {
    pub function: BVLCFunction,
    pub ip_port: Option<(u32, u16)>,
    pub npdu: Option<NpduValue>,
}

/// The BVLC frame encoded in `b`. Meaningful when `bvlc_decode_ok(b)`.
pub open spec fn bvlc_value(b: Seq<u8>) -> BvlcValue {
    let f = bvlc_function_of(b[1]);
    BvlcValue {
        function: f,
        ip_port: if function_has_ip_port(f) {
            Some((be32_at(b, 4), be16_at(b, 8)))
        } else {
            None
        },
        npdu: if function_has_npdu(f) && npdu_decode_ok(b.skip(bvlc_npdu_start(f))) {
            Some(npdu_value(b.skip(bvlc_npdu_start(f))))
        } else {
            None
        },
    }
}

/// The originating IPv4 address and UDP port embedded in a forwarded frame.
pub struct IpPort {
    pub ip: u32,
    pub port: u16,
}

/// A decoded BVLC frame, borrowing its NPDU from the decoded buffer.
pub struct BVLC<'a> {
    bfn: BVLCFunction,
    ip_port: Option<IpPort>,
    npdu: Option<NPDU<'a>>,
}

impl<'a> View for BVLC<'a> {
    type V = BvlcValue;

    closed spec fn view(&self) -> BvlcValue {
        BvlcValue {
            function: self.bfn,
            ip_port: match self.ip_port {
                Some(p) => Some((p.ip, p.port)),
                None => None,
            },
            npdu: match self.npdu {
                Some(n) => Some(n@),
                None => None,
            },
        }
    }
}

impl<'a> BVLC<'a> {
    /// The decoded function code.
    pub fn bvlc_function(&self) -> (r: BVLCFunction)
        ensures
            r == self@.function,
    {
        self.bfn
    }

    /// The embedded originating (ip, port) pair, present only for forwarded
    /// frames.
    pub fn ip_port(&self) -> (r: &Option<IpPort>)
        ensures
            r matches Some(p) ==> self@.ip_port == Some((p.ip, p.port)),
            r is None <==> self@.ip_port is None,
    {
        &self.ip_port
    }

    /// The carried NPDU, when the function carries one and it decoded.
    pub fn npdu(&self) -> (r: &Option<NPDU<'a>>)
        ensures
            r matches Some(n) ==> self@.npdu == Some(n@),
            r is None <==> self@.npdu is None,
    {
        &self.npdu
    }

    /// True when the decoded function is one of the three that carry an NPDU.
    pub fn has_npdu(&self) -> (r: bool)
        ensures
            r == function_has_npdu(self@.function),
    {
        match self.bfn {
            BVLCFunction::ForwardedNPDU
            | BVLCFunction::UnicastNPDU
            | BVLCFunction::BroadcastNPDU => true,
            _ => false,
        }
    }

    /// True when the decoded function embeds an (ip, port) pair.
    pub fn has_ip_port(&self) -> (r: bool)
        ensures
            r == function_has_ip_port(self@.function),
    {
        match self.bfn {
            BVLCFunction::ForwardedNPDU => true,
            _ => false,
        }
    }
}

impl BVLCFunction {
    /// Decodes a function-code byte; unrecognized codes become `Unknown`.
    pub fn from_byte(b: u8) -> (r: BVLCFunction)
        ensures
            r == bvlc_function_of(b),
    {
        match b {
            0x00 => BVLCFunction::BVLCResult,
            0x01 => BVLCFunction::WBDT,
            0x02 => BVLCFunction::RBDT,
            0x03 => BVLCFunction::RBDTAck,
            0x04 => BVLCFunction::ForwardedNPDU,
            0x05 => BVLCFunction::RegisterForeignDevice,
            0x0a => BVLCFunction::UnicastNPDU,
            0x0b => BVLCFunction::BroadcastNPDU,
            0x0c => BVLCFunction::SecureBVLL,
            _ => BVLCFunction::Unknown,
        }
    }
}

/// Decodes a BVLC frame: checks the 0x81 marker, checks that the declared
/// 16-bit total length equals the buffer's actual length, decodes the
/// function code, reads the embedded (ip, port) pair of forwarded frames, and
/// for the NPDU-carrying functions decodes the carried NPDU. A failure of the
/// inner NPDU decode is tolerated: the frame is returned without one.
pub fn parse_bvlc<'a>(slice: &'a [u8]) -> (r: Result<BVLC<'a>, Error>)
    ensures
        r is Ok <==> bvlc_decode_ok(slice@),
        r matches Ok(v) ==> v@ == bvlc_value(slice@),
        r matches Err(e) ==> if slice@.len() >= 4 && slice@[0] != 0x81 {
            e.is_invalid_value()
        } else {
            e.is_length()
        },
{
    if slice.len() < 4 {
        return Err(Error::Length("insufficient size for bvlc"));
    }
    if slice[0] != 0x81 {
        return Err(Error::InvalidValue("invalid bvlc type"));
    }
    let len = read_be16(slice, 2);
    if len as usize != slice.len() {
        return Err(Error::Length("inconsistent bvlc length"));
    }
    let bfn = BVLCFunction::from_byte(slice[1]);
    let mut ip_port: Option<IpPort> = None;
    let npdu_start: usize;
    if bfn == BVLCFunction::ForwardedNPDU {
        if slice.len() < 10 {
            return Err(Error::Length("insufficient size for bvlc ip/port"));
        }
        ip_port = Some(IpPort { ip: read_be32(slice, 4), port: read_be16(slice, 8) });
        npdu_start = 10;
    } else {
        npdu_start = 4;
    }
    let mut npdu: Option<NPDU<'a>> = None;
    let has_npdu = bfn == BVLCFunction::ForwardedNPDU || bfn == BVLCFunction::UnicastNPDU || bfn
        == BVLCFunction::BroadcastNPDU;
    if has_npdu {
        let tail = slice_subrange(slice, npdu_start, slice.len());
        if let Ok(n) = parse_npdu(tail) {
            npdu = Some(n);
        }
    }
    Ok(BVLC { bfn, ip_port, npdu })
}

/// A well-formed BVLC buffer's declared total length equals its actual
/// length; and a buffer with the right marker whose declared length disagrees
/// with its actual length never decodes (the decoder reports that as a length
/// error).
pub proof fn lemma_bvlc_total_len(b: Seq<u8>)
    ensures
        bvlc_decode_ok(b) ==> be16_at(b, 2) == b.len(),
        b.len() >= 4 && b[0] == 0x81 && be16_at(b, 2) != b.len() ==> !bvlc_decode_ok(b),
{
}

} // verus!
