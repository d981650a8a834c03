//! The application-tag decoder: one self-describing tag consisting of a tag
//! number (possibly extended into a second byte), a class bit, and a
//! length/value whose encoding the low three bits of the first byte select.

use crate::wire::be16_at;
use crate::wire::be32_at;
use crate::wire::read_be16;
use crate::wire::read_be32;
use crate::Error;
use vstd::prelude::*;
use vstd::slice::slice_subrange;

verus! {

/// One decoded application tag: its number and its value (which for the
/// short and extended encodings is the length of the data that follows).
pub struct Tag {
    pub number: u8,
    pub value: u32,
}

/// The first byte marks an extended tag number when its high nibble is all
/// ones; the number is then the following byte.
pub open spec fn tag_has_extended_number(b0: u8) -> bool {
    b0 & 0xF0 == 0xF0
}

/// Header bytes a tag spends on its number: two when extended, else one.
pub open spec fn tag_header_len(b: Seq<u8>) -> int {
    if tag_has_extended_number(b[0]) {
        2
    } else {
        1
    }
}

/// The tag number: the second byte when extended, else the high nibble of
/// the first.
pub open spec fn tag_number_of(b: Seq<u8>) -> u8 {
    if tag_has_extended_number(b[0]) {
        b[1]
    } else {
        b[0] >> 4
    }
}

/// Low three bits 5: an extended value follows the header — a marker byte
/// that is itself the value, unless it is 254 (a 16-bit value follows) or
/// 255 (a 32-bit value follows).
pub open spec fn tag_has_extended_value(b0: u8) -> bool {
    b0 & 0x07 == 5
}

/// Low three bits 6: an opening tag, with value 0 and no extra bytes.
pub open spec fn tag_is_opening(b0: u8) -> bool {
    b0 & 0x07 == 6
}

/// Low three bits 7: a closing tag, with value 0 and no extra bytes.
pub open spec fn tag_is_closing(b0: u8) -> bool {
    b0 & 0x07 == 7
}

/// Whether one whole tag decodes from the front of `b`: the header must be
/// present, and an extended value must have its marker byte and the 2 or 4
/// value bytes the marker announces.
pub open spec fn tag_decode_ok(b: Seq<u8>) -> bool {
    &&& b.len() >= 1
    &&& (tag_has_extended_number(b[0]) ==> b.len() >= 2)
    &&& (tag_has_extended_value(b[0]) ==> {
        let h = tag_header_len(b);
        &&& b.len() > h
        &&& (b[h] == 255 ==> b.len() >= h + 5)
        &&& (b[h] == 254 ==> b.len() >= h + 3)
    })
}

/// The decoded value of the tag at the front of `b`: the announced extended
/// value, zero for opening and closing tags, else the low three bits of the
/// first byte. Meaningful when `tag_decode_ok(b)`.
pub open spec fn tag_value_of(b: Seq<u8>) -> u32 {
    if tag_has_extended_value(b[0]) {
        let h = tag_header_len(b);
        if b[h] == 255 {
            be32_at(b, h + 1)
        } else if b[h] == 254 {
            be16_at(b, h + 1) as u32
        } else {
            b[h] as u32
        }
    } else if tag_is_opening(b[0]) || tag_is_closing(b[0]) {
        0
    } else {
        (b[0] & 0x07) as u32
    }
}

/// Total bytes the tag at the front of `b` occupies. Meaningful when
/// `tag_decode_ok(b)`.
pub open spec fn tag_size(b: Seq<u8>) -> int {
    let h = tag_header_len(b);
    if tag_has_extended_value(b[0]) {
        if b[h] == 255 {
            h + 5
        } else if b[h] == 254 {
            h + 3
        } else {
            h + 1
        }
    } else {
        h
    }
}

/// The bytes of `b` that follow the decoded tag. Meaningful when
/// `tag_decode_ok(b)`.
pub open spec fn tag_tail(b: Seq<u8>) -> Seq<u8> {
    b.skip(tag_size(b))
}

impl Tag {
    /// Decodes the tag at the front of `bytes` and returns the unconsumed
    /// tail alongside it. Every way the buffer can run out is a length error.
    pub fn parse<'a>(bytes: &'a [u8]) -> (r: Result<(&'a [u8], Tag), Error>)
        ensures
            r is Ok <==> tag_decode_ok(bytes@),
            r matches Ok((rest, t)) ==> t.number == tag_number_of(bytes@) && t.value
                == tag_value_of(bytes@) && rest@ == tag_tail(bytes@),
            r matches Err(e) ==> e.is_length(),
    {
        if bytes.len() == 0 {
            return Err(Error::Length("cannot read tag"));
        }
        let first = bytes[0];
        let number: u8;
        let hdr: usize;
        if first & 0xF0 == 0xF0 {
            if bytes.len() < 2 {
                return Err(Error::Length("cannot read tag"));
            }
            number = bytes[1];
            hdr = 2;
        } else {
            number = first >> 4;
            hdr = 1;
        }
        if first & 0x07 == 5 {
            if bytes.len() <= hdr {
                return Err(Error::Length("parsing tag"));
            }
            let marker = bytes[hdr];
            if marker == 255 {
                if bytes.len() < hdr + 5 {
                    return Err(Error::Length("parsing u32 tag"));
                }
                let value = read_be32(bytes, hdr + 1);
                Ok((slice_subrange(bytes, hdr + 5, bytes.len()), Tag { number, value }))
            } else if marker == 254 {
                if bytes.len() < hdr + 3 {
                    return Err(Error::Length("parsing u16 tag"));
                }
                let value = read_be16(bytes, hdr + 1) as u32;
                Ok((slice_subrange(bytes, hdr + 3, bytes.len()), Tag { number, value }))
            } else {
                Ok((slice_subrange(bytes, hdr + 1, bytes.len()), Tag { number, value: marker as u32 }))
            }
        } else if first & 0x07 == 6 || first & 0x07 == 7 {
            Ok((slice_subrange(bytes, hdr, bytes.len()), Tag { number, value: 0 }))
        } else {
            Ok((slice_subrange(bytes, hdr, bytes.len()), Tag { number, value: (first & 0x07) as u32 }))
        }
    }
}

/// Decoding a tag is a pure function of the bytes alone: equal buffers give
/// the same outcome, the same (number, value) pair and the same remainder,
/// however often the decode is repeated.
pub proof fn lemma_tag_decode_restartable(b1: Seq<u8>, b2: Seq<u8>)
    requires
        b1 == b2,
    ensures
        tag_decode_ok(b1) == tag_decode_ok(b2),
        tag_number_of(b1) == tag_number_of(b2),
        tag_value_of(b1) == tag_value_of(b2),
        tag_tail(b1) == tag_tail(b2),
{
}

} // verus!
