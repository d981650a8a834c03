//! The network-layer (NPDU) decoder: a protocol-version byte, a control octet
//! whose bits gate an optional destination address with hop count and an
//! optional source address, and the remaining bytes as the payload.

use crate::wire::be16_at;
use crate::wire::read_be16;
use crate::Error;
use vstd::prelude::*;
use vstd::slice::slice_subrange;

verus! {

/// Mathematical value of a decoded network address: a network number and the
/// bytes of the physical address.
pub ghost struct NetAddrValue {
    pub net: u16,
    pub addr: Seq<u8>,
}

/// Mathematical value of a decoded destination with its hop count.
pub ghost struct DstHopCountValue {
    pub dst: NetAddrValue,
    pub hopcount: u8,
}

/// Mathematical value of a decoded NPDU.
pub ghost struct NpduValue {
    pub control: u8,
    pub dst: Option<DstHopCountValue>,
    pub src: Option<NetAddrValue>,
    pub payload: Seq<u8>,
}

/// A network address decodes from the front of `b` when the two-byte network
/// number and the one-byte address length are present and the declared number
/// of address bytes follows.
pub open spec fn netaddr_decode_ok(b: Seq<u8>) -> bool {
    b.len() >= 3 && 3 + b[2] <= b.len()
}

/// The network address encoded at the front of `b`.
pub open spec fn netaddr_value(b: Seq<u8>) -> NetAddrValue
    recommends
        netaddr_decode_ok(b),
{
    NetAddrValue { net: be16_at(b, 0), addr: b.subrange(3, 3 + b[2]) }
}

/// The bytes of `b` that follow the network address encoded at its front.
pub open spec fn netaddr_tail(b: Seq<u8>) -> Seq<u8>
    recommends
        netaddr_decode_ok(b),
{
    b.subrange(3 + b[2], b.len() as int)
}

/// A network number plus a variable-length physical address, borrowed from
/// the buffer it was decoded from.
pub struct NetAddr<'a> {
    net: u16,
    addr: &'a [u8],
}

impl<'a> View for NetAddr<'a> {
    type V = NetAddrValue;

    closed spec fn view(&self) -> NetAddrValue {
        NetAddrValue { net: self.net, addr: self.addr@ }
    }
}

impl<'a> NetAddr<'a> {
    /// Decodes a `(network number, address length, address bytes)` triple from
    /// the front of `b` and returns it together with the unconsumed tail.
    /// Fails with a length error when fewer than three bytes are present or
    /// the declared address length overruns the buffer.
    pub fn parse(b: &'a [u8]) -> (r: Result<(&'a [u8], NetAddr<'a>), Error>)
        ensures
            r is Ok <==> netaddr_decode_ok(b@),
            r matches Ok((rest, na)) ==> na@ == netaddr_value(b@) && rest@ == netaddr_tail(b@),
            r matches Err(e) ==> e.is_length(),
    {
        if b.len() < 3 {
            return Err(Error::Length("insufficient size for netaddr"));
        }
        let net = read_be16(b, 0);
        let addrlen = b[2] as usize;
        if b.len() < 3 + addrlen {
            return Err(Error::Length("insufficient size for netaddr address"));
        }
        let addr = slice_subrange(b, 3, 3 + addrlen);
        let rest = slice_subrange(b, 3 + addrlen, b.len());
        Ok((rest, NetAddr { net, addr }))
    }

    /// The 16-bit network number.
    pub fn net(&self) -> (r: u16)
        ensures
            r == self@.net,
    {
        self.net
    }

    /// The physical address bytes.
    pub fn addr(&self) -> (r: &'a [u8])
        ensures
            r@ == self@.addr,
    {
        self.addr
    }
}

/// A decoded destination network address together with the hop-count byte
/// that the wire format ties to it.
pub struct DstHopCount<'a> {
    dst: NetAddr<'a>,
    hopcount: u8,
}

impl<'a> View for DstHopCount<'a> {
    type V = DstHopCountValue;

    closed spec fn view(&self) -> DstHopCountValue {
        DstHopCountValue { dst: self.dst@, hopcount: self.hopcount }
    }
}

impl<'a> DstHopCount<'a> {
    /// The destination network address.
    pub fn dst(&self) -> (r: &NetAddr<'a>)
        ensures
            r@ == self@.dst,
    {
        &self.dst
    }

    /// The hop-count byte read after the conditional address fields.
    pub fn hopcount(&self) -> (r: u8)
        ensures
            r == self@.hopcount,
    {
        self.hopcount
    }
}

/// Message priority, the low two bits of the control octet.
#[derive(Debug, PartialEq, Eq, Structural)]
pub enum NCPIPriority {
    LifeSafety,
    CriticalEquip,
    Urgent,
    Normal,
}

/// Bit 0x80 of the control octet clear means the payload is an APDU (set
/// means a network-layer message).
pub open spec fn control_is_apdu(c: u8) -> bool {
    c & 0x80 == 0
}

/// Bit 0x20 of the control octet gates the destination address and hop count.
pub open spec fn control_has_dst(c: u8) -> bool {
    c & 0x20 != 0
}

/// Bit 0x08 of the control octet gates the source address.
pub open spec fn control_has_src(c: u8) -> bool {
    c & 0x08 != 0
}

/// Bit 0x04 of the control octet is the expecting-reply flag.
pub open spec fn control_expecting_reply(c: u8) -> bool {
    c & 0x04 != 0
}

/// The priority encoded in the low two bits of the control octet.
pub open spec fn control_priority(c: u8) -> NCPIPriority {
    if c & 3 == 0 {
        NCPIPriority::Normal
    } else if c & 3 == 1 {
        NCPIPriority::Urgent
    } else if c & 3 == 2 {
        NCPIPriority::CriticalEquip
    } else {
        NCPIPriority::LifeSafety
    }
}

/// The bytes left after the attempt to decode a destination address: the tail
/// after the address when it decodes, the whole buffer otherwise (a failed
/// destination is tolerated and treated as if nothing had been consumed).
/// Meaningful when the destination bit of the control octet is set.
pub open spec fn npdu_after_dst(b: Seq<u8>) -> Seq<u8> {
    if netaddr_decode_ok(b.skip(2)) {
        netaddr_tail(b.skip(2))
    } else {
        b
    }
}

/// The bytes in which the hop count and payload are sought: past the source
/// address when the source bit is set, else all of `npdu_after_dst`.
/// Meaningful when the destination bit is set and decoding succeeds.
pub open spec fn npdu_hop_seq(b: Seq<u8>) -> Seq<u8> {
    if control_has_src(b[1]) {
        netaddr_tail(npdu_after_dst(b))
    } else {
        npdu_after_dst(b)
    }
}

/// Whether an NPDU decodes from `b`: the version byte must equal 1, a source
/// address must decode when its bit is set, and when the destination bit is
/// set at least a hop-count byte and one payload byte must remain after the
/// conditional address fields. A destination address that fails to decode is
/// tolerated; a source address that fails is not.
pub open spec fn npdu_decode_ok(b: Seq<u8>) -> bool {
    &&& b.len() >= 3
    &&& b[0] == 1
    &&& {
        let c = b[1];
        if control_has_dst(c) {
            &&& (control_has_src(c) ==> netaddr_decode_ok(npdu_after_dst(b)))
            &&& npdu_hop_seq(b).len() >= 2
        } else if control_has_src(c) {
            netaddr_decode_ok(b.skip(2))
        } else {
            true
        }
    }
}

/// The NPDU encoded in `b`. Meaningful when `npdu_decode_ok(b)`.
pub open spec fn npdu_value(b: Seq<u8>) -> NpduValue {
    let c = b[1];
    if control_has_dst(c) {
        let src = if control_has_src(c) {
            Some(netaddr_value(npdu_after_dst(b)))
        } else {
            None
        };
        let hop_seq = npdu_hop_seq(b);
        if netaddr_decode_ok(b.skip(2)) {
            NpduValue {
                control: c,
                dst: Some(
                    DstHopCountValue { dst: netaddr_value(b.skip(2)), hopcount: hop_seq[0] },
                ),
                src,
                payload: hop_seq.skip(1),
            }
        } else {
            NpduValue { control: c, dst: None, src, payload: hop_seq }
        }
    } else if control_has_src(c) {
        NpduValue {
            control: c,
            dst: None,
            src: Some(netaddr_value(b.skip(2))),
            payload: netaddr_tail(b.skip(2)),
        }
    } else {
        NpduValue { control: c, dst: None, src: None, payload: b.skip(2) }
    }
}

/// A decoded network-layer header and its payload, borrowed from the buffer
/// it was decoded from.
pub struct NPDU<'a> {
    ncpi_control: u8,
    dst: Option<DstHopCount<'a>>,
    src: Option<NetAddr<'a>>,
    payload: &'a [u8],
}

impl<'a> View for NPDU<'a> {
    type V = NpduValue;

    closed spec fn view(&self) -> NpduValue {
        NpduValue {
            control: self.ncpi_control,
            dst: match self.dst {
                Some(d) => Some(d@),
                None => None,
            },
            src: match self.src {
                Some(s) => Some(s@),
                None => None,
            },
            payload: self.payload@,
        }
    }
}

impl<'a> NPDU<'a> {
    /// True when the payload is an APDU (control bit 0x80 clear), false when
    /// it is a network-layer message.
    pub fn is_apdu(&self) -> (r: bool)
        ensures
            r == control_is_apdu(self@.control),
    {
        self.ncpi_control & 0x80 == 0
    }

    /// True when the control octet declares a destination address (bit 0x20).
    pub fn is_dst_spec_present(&self) -> (r: bool)
        ensures
            r == control_has_dst(self@.control),
    {
        self.ncpi_control & 0x20 != 0
    }

    /// True when the control octet declares a source address (bit 0x08).
    pub fn is_src_spec_present(&self) -> (r: bool)
        ensures
            r == control_has_src(self@.control),
    {
        self.ncpi_control & 0x08 != 0
    }

    /// True when the control octet carries the expecting-reply flag (bit
    /// 0x04).
    pub fn is_expecting_reply(&self) -> (r: bool)
        ensures
            r == control_expecting_reply(self@.control),
    {
        self.ncpi_control & 0x04 != 0
    }

    /// The priority encoded in the low two bits of the control octet.
    pub fn prio(&self) -> (r: NCPIPriority)
        ensures
            r == control_priority(self@.control),
    {
        let p = self.ncpi_control & 3;
        proof {
            let c = self.ncpi_control;
            assert(c & 3 < 4) by (bit_vector);
        }
        if p == 0 {
            NCPIPriority::Normal
        } else if p == 1 {
            NCPIPriority::Urgent
        } else if p == 2 {
            NCPIPriority::CriticalEquip
        } else {
            NCPIPriority::LifeSafety
        }
    }

    /// The decoded source address, when one was present.
    pub fn src(&self) -> (r: &Option<NetAddr<'a>>)
        ensures
            r matches Some(s) ==> self@.src matches Some(v) && v == s@,
            r is None <==> self@.src is None,
    {
        &self.src
    }

    /// The decoded destination address and hop count, when present.
    pub fn dst_hopcount(&self) -> (r: &Option<DstHopCount<'a>>)
        ensures
            r matches Some(d) ==> self@.dst matches Some(v) && v == d@,
            r is None <==> self@.dst is None,
    {
        &self.dst
    }

    /// The raw control octet.
    pub fn ncpi_control(&self) -> (r: u8)
        ensures
            r == self@.control,
    {
        self.ncpi_control
    }

    /// The payload bytes that follow the header fields.
    pub fn payload(&self) -> (r: &'a [u8])
        ensures
            r@ == self@.payload,
    {
        self.payload
    }
}

/// Decodes the network-layer header at the front of `bytes`: version byte,
/// control octet, then — as the control bits demand — destination address,
/// source address and hop count, leaving the rest as the payload. A failed
/// destination decode is tolerated (the frame continues as if no destination
/// had been consumed); a failed source decode is an error.
pub fn parse_npdu<'a>(bytes: &'a [u8]) -> (r: Result<NPDU<'a>, Error>)
    ensures
        r is Ok <==> npdu_decode_ok(bytes@),
        r matches Ok(n) ==> n@ == npdu_value(bytes@),
        r matches Err(e) ==> if bytes@.len() >= 3 && bytes@[0] != 1 {
            e.is_invalid_value()
        } else {
            e.is_length()
        },
{
    if bytes.len() < 3 {
        return Err(Error::Length("insufficient size for npdu"));
    }
    if bytes[0] != 0x01 {
        return Err(Error::InvalidValue("unhandled npdu version"));
    }
    let control = bytes[1];
    let mut src: Option<NetAddr<'a>> = None;
    if control & 0x20 != 0 {
        let tail = slice_subrange(bytes, 2, bytes.len());
        let parsed_dst: Option<NetAddr<'a>>;
        let after_dst: &'a [u8];
        match NetAddr::parse(tail) {
            Ok((rest, na)) => {
                parsed_dst = Some(na);
                after_dst = rest;
            },
            Err(_) => {
                parsed_dst = None;
                after_dst = bytes;
            },
        }
        let hop_seq: &'a [u8];
        if control & 0x08 != 0 {
            match NetAddr::parse(after_dst) {
                Ok((rest, na)) => {
                    src = Some(na);
                    hop_seq = rest;
                },
                Err(e) => {
                    return Err(e);
                },
            }
        } else {
            hop_seq = after_dst;
        }
        if hop_seq.len() < 2 {
            return Err(Error::Length("insufficient size for hopcount and payload"));
        }
        match parsed_dst {
            Some(na) => {
                let dst = Some(DstHopCount { dst: na, hopcount: hop_seq[0] });
                let payload = slice_subrange(hop_seq, 1, hop_seq.len());
                let n = NPDU { ncpi_control: control, dst, src, payload };
                proof {
                    assert(n@.payload =~= npdu_value(bytes@).payload);
                }
                Ok(n)
            },
            None => {
                Ok(NPDU { ncpi_control: control, dst: None, src, payload: hop_seq })
            },
        }
    } else if control & 0x08 != 0 {
        let tail = slice_subrange(bytes, 2, bytes.len());
        match NetAddr::parse(tail) {
            Ok((rest, na)) => Ok(
                NPDU { ncpi_control: control, dst: None, src: Some(na), payload: rest },
            ),
            Err(e) => Err(e),
        }
    } else {
        let payload = slice_subrange(bytes, 2, bytes.len());
        let n = NPDU { ncpi_control: control, dst: None, src: None, payload };
        proof {
            assert(n@.payload =~= npdu_value(bytes@).payload);
        }
        Ok(n)
    }
}

} // verus!
