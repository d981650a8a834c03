//! The network service data unit: the application layer (APDU) and the
//! network-layer messages (RPDU), plus the unsigned-integer decoder their
//! tag-driven values share.

use crate::wire::be16_at;
use crate::wire::be32_at;
use crate::wire::read_be16;
use crate::wire::read_be32;
use crate::Error;
use vstd::prelude::*;
use vstd::slice::slice_subrange;

pub mod apdu;
pub mod object_type;
pub mod rpdu;
pub mod tag;
pub mod unconfirmed_request_pdu;

pub use apdu::parse_apdu;
pub use rpdu::parse_rpdu;

verus! {

/// An unsigned integer decodes from the front of `b` when the declared size
/// is between one and four bytes and that many bytes are present.
pub open spec fn unsigned_decode_ok(b: Seq<u8>, sz: u32) -> bool {
    1 <= sz <= 4 && sz <= b.len()
}

/// The big-endian unsigned integer of `sz` bytes at the front of `b`.
pub open spec fn unsigned_value(b: Seq<u8>, sz: u32) -> u32
    recommends
        unsigned_decode_ok(b, sz),
{
    if sz == 1 {
        b[0] as u32
    } else if sz == 2 {
        be16_at(b, 0) as u32
    } else if sz == 3 {
        (b[0] * 0x1_0000 + b[1] * 0x100 + b[2]) as u32
    } else {
        be32_at(b, 0)
    }
}

/// The bytes of `b` that follow the decoded unsigned integer.
pub open spec fn unsigned_tail(b: Seq<u8>, sz: u32) -> Seq<u8>
    recommends
        unsigned_decode_ok(b, sz),
{
    b.skip(sz as int)
}

/// Decodes a big-endian unsigned integer of `sz` bytes (1 to 4) from the
/// front of `bytes`, returning it with the unconsumed tail. A size of zero or
/// more than four is an invalid-value error; too few bytes is a length error.
pub fn parse_unsigned<'a>(bytes: &'a [u8], sz: u32) -> (r: Result<(&'a [u8], u32), Error>)
    ensures
        r is Ok <==> unsigned_decode_ok(bytes@, sz),
        r matches Ok((rest, v)) ==> v == unsigned_value(bytes@, sz) && rest@ == unsigned_tail(
            bytes@,
            sz,
        ),
        r matches Err(e) ==> if sz == 0 || sz > 4 {
            e.is_invalid_value()
        } else {
            e.is_length()
        },
{
    if sz > 4 || sz == 0 {
        return Err(Error::InvalidValue("unsigned len value is 0 or greater than 4"));
    }
    let sz = sz as usize;
    if bytes.len() < sz {
        return Err(Error::Length("unsigned len value greater than remaining bytes"));
    }
    let val: u32 = if sz == 1 {
        bytes[0] as u32
    } else if sz == 2 {
        read_be16(bytes, 0) as u32
    } else if sz == 3 {
        (bytes[0] as u32) * 0x1_0000 + (bytes[1] as u32) * 0x100 + (bytes[2] as u32)
    } else {
        read_be32(bytes, 0)
    };
    Ok((slice_subrange(bytes, sz, bytes.len()), val))
}

} // verus!
