//! The unconfirmed-request service decoder: the service-choice byte after
//! the PDU-type byte, and for Who-Is the optional pair of device-instance
//! limits encoded as two (tag, unsigned) pairs.

use crate::nsdu::apdu::APDU;
use crate::nsdu::parse_unsigned;
use crate::nsdu::tag::tag_decode_ok;
use crate::nsdu::tag::tag_number_of;
use crate::nsdu::tag::tag_tail;
use crate::nsdu::tag::tag_value_of;
use crate::nsdu::tag::Tag;
use crate::nsdu::unsigned_decode_ok;
use crate::nsdu::unsigned_tail;
use crate::nsdu::unsigned_value;
use crate::Error;
use vstd::prelude::*;
use vstd::slice::slice_subrange;

verus! {

/// Which unconfirmed service an APDU carries; for Who-Is, the optional
/// decoded limits ride along.
#[derive(Clone, Copy, Debug, PartialEq, Eq, Structural)]
pub enum UnconfirmedServiceChoice {
    IAm,
    IHave,
    WhoHas,
    WhoIs(Option<WhoIsLimits>),
    Unknown,
}

/// The optional device-instance range filter of a Who-Is request.
#[derive(Clone, Copy, Debug, PartialEq, Eq, Structural)]
pub struct WhoIsLimits {
    pub low_limit: u32,
    pub high_limit: u32,
}

/// Whether the limits payload of a Who-Is APDU decodes: after the two
/// leading bytes, a tag with number 0 whose value sizes a first unsigned
/// integer (the low limit), then a second tag sizing a second unsigned
/// integer (the high limit).
pub open spec fn whois_limits_decode_ok(b: Seq<u8>) -> bool {
    let t1 = b.skip(2);
    &&& tag_decode_ok(t1)
    &&& tag_number_of(t1) == 0
    &&& unsigned_decode_ok(tag_tail(t1), tag_value_of(t1))
    &&& {
        let t2 = unsigned_tail(tag_tail(t1), tag_value_of(t1));
        &&& tag_decode_ok(t2)
        &&& unsigned_decode_ok(tag_tail(t2), tag_value_of(t2))
    }
}

/// The low limit encoded in the limits payload. Meaningful when
/// `whois_limits_decode_ok(b)`.
pub open spec fn whois_low_limit(b: Seq<u8>) -> u32 {
    let t1 = b.skip(2);
    unsigned_value(tag_tail(t1), tag_value_of(t1))
}

/// The high limit encoded in the limits payload. Meaningful when
/// `whois_limits_decode_ok(b)`.
pub open spec fn whois_high_limit(b: Seq<u8>) -> u32 {
    let t1 = b.skip(2);
    let t2 = unsigned_tail(tag_tail(t1), tag_value_of(t1));
    unsigned_value(tag_tail(t2), tag_value_of(t2))
}

/// When the limits payload fails, whether the failure is an invalid value (a
/// nonzero first tag number, or a tag value that is no legal unsigned size)
/// rather than a length error.
pub open spec fn whois_limits_err_invalid(b: Seq<u8>) -> bool {
    let t1 = b.skip(2);
    if !tag_decode_ok(t1) {
        false
    } else if tag_number_of(t1) != 0 {
        true
    } else if tag_value_of(t1) == 0 || tag_value_of(t1) > 4 {
        true
    } else if !unsigned_decode_ok(tag_tail(t1), tag_value_of(t1)) {
        false
    } else {
        let t2 = unsigned_tail(tag_tail(t1), tag_value_of(t1));
        if !tag_decode_ok(t2) {
            false
        } else {
            tag_value_of(t2) == 0 || tag_value_of(t2) > 4
        }
    }
}

/// Whether the whole unconfirmed-request APDU decodes: two leading bytes,
/// and for Who-Is either no further bytes (no filter) or a well-formed
/// limits payload.
pub open spec fn ucs_decode_ok(b: Seq<u8>) -> bool {
    &&& b.len() >= 2
    &&& (b[1] == 0x08 ==> b.len() == 2 || whois_limits_decode_ok(b))
}

/// The service encoded in an unconfirmed-request APDU. Meaningful when
/// `ucs_decode_ok(b)`.
pub open spec fn ucs_value(b: Seq<u8>) -> UnconfirmedServiceChoice {
    if b[1] == 0x00 {
        UnconfirmedServiceChoice::IAm
    } else if b[1] == 0x01 {
        UnconfirmedServiceChoice::IHave
    } else if b[1] == 0x07 {
        UnconfirmedServiceChoice::WhoHas
    } else if b[1] == 0x08 {
        UnconfirmedServiceChoice::WhoIs(
            if b.len() == 2 {
                None
            } else {
                Some(
                    WhoIsLimits { low_limit: whois_low_limit(b), high_limit: whois_high_limit(b) },
                )
            },
        )
    } else {
        UnconfirmedServiceChoice::Unknown
    }
}

impl WhoIsLimits {
    /// Decodes the optional limits of a Who-Is APDU: absent when the APDU is
    /// exactly the two leading bytes, else two (tag, unsigned) pairs of
    /// which the first tag's number must be zero.
    fn parse(apdu: &APDU) -> (r: Result<Option<WhoIsLimits>, Error>)
        requires
            apdu.bytes@.len() >= 2,
        ensures
            r is Ok <==> apdu.bytes@.len() == 2 || whois_limits_decode_ok(apdu.bytes@),
            r matches Ok(lims) ==> lims == (if apdu.bytes@.len() == 2 {
                Option::<WhoIsLimits>::None
            } else {
                Some(
                    WhoIsLimits {
                        low_limit: whois_low_limit(apdu.bytes@),
                        high_limit: whois_high_limit(apdu.bytes@),
                    },
                )
            }),
            r matches Err(e) ==> if whois_limits_err_invalid(apdu.bytes@) {
                e.is_invalid_value()
            } else {
                e.is_length()
            },
    {
        if apdu.bytes.len() == 2 {
            return Ok(None);
        }
        let rest = slice_subrange(apdu.bytes, 2, apdu.bytes.len());
        let (rest, tag) = match Tag::parse(rest) {
            Ok(p) => p,
            Err(e) => {
                return Err(e);
            },
        };
        if tag.number != 0 {
            return Err(Error::InvalidValue("Non-zero tag number in WhoIs"));
        }
        let (rest, low_limit) = match parse_unsigned(rest, tag.value) {
            Ok(p) => p,
            Err(e) => {
                return Err(e);
            },
        };
        let (rest, tag) = match Tag::parse(rest) {
            Ok(p) => p,
            Err(e) => {
                return Err(e);
            },
        };
        let (_rest, high_limit) = match parse_unsigned(rest, tag.value) {
            Ok(p) => p,
            Err(e) => {
                return Err(e);
            },
        };
        Ok(Some(WhoIsLimits { low_limit, high_limit }))
    }
}

/// When an unconfirmed-request decode fails, whether the failure is an
/// invalid value (only a malformed Who-Is limits payload can be) rather than
/// a length error.
pub open spec fn ucs_err_invalid(b: Seq<u8>) -> bool {
    b.len() >= 2 && b[1] == 0x08 && b.len() != 2 && whois_limits_err_invalid(b)
}

impl UnconfirmedServiceChoice {
    /// Decodes the service-choice byte of an unconfirmed-request APDU and,
    /// for Who-Is, its optional limits. Unrecognized service codes become
    /// `Unknown`; fewer than two bytes is a length error.
    pub fn parse(apdu: &APDU) -> (r: Result<UnconfirmedServiceChoice, Error>)
        ensures
            r is Ok <==> ucs_decode_ok(apdu.bytes@),
            r matches Ok(v) ==> v == ucs_value(apdu.bytes@),
            r matches Err(e) ==> if ucs_err_invalid(apdu.bytes@) {
                e.is_invalid_value()
            } else {
                e.is_length()
            },
    {
        if apdu.bytes.len() < 2 {
            return Err(Error::Length("wrong len for UnconfirmedServiceChoice"));
        }
        let choice = apdu.bytes[1];
        if choice == 0x00 {
            Ok(UnconfirmedServiceChoice::IAm)
        } else if choice == 0x01 {
            Ok(UnconfirmedServiceChoice::IHave)
        } else if choice == 0x07 {
            Ok(UnconfirmedServiceChoice::WhoHas)
        } else if choice == 0x08 {
            match WhoIsLimits::parse(apdu) {
                Ok(lims) => Ok(UnconfirmedServiceChoice::WhoIs(lims)),
                Err(e) => Err(e),
            }
        } else {
            Ok(UnconfirmedServiceChoice::Unknown)
        }
    }
}

} // verus!
