//! The MS/TP data-link decoder: preamble, frame type, destination and source
//! MAC addresses, a declared data length, and the two CRC algorithms of the
//! standard — an 8-bit header CRC over the five header bytes and a 16-bit
//! data CRC over the payload. CRC mismatches are reported to the caller, they
//! never make the decode itself fail.

use crate::npdu::npdu_decode_ok;
use crate::npdu::npdu_value;
use crate::npdu::parse_npdu;
use crate::npdu::NpduValue;
use crate::npdu::NPDU;
use crate::wire::be16_at;
use crate::wire::le16_at;
use crate::wire::read_be16;
use crate::wire::read_le16;
use crate::Error;
use vstd::prelude::*;
use vstd::slice::slice_subrange;

verus! {

/// One step of the header CRC: fold the next byte into the running register.
pub open spec fn header_crc_step(crc: u16, b: u8) -> u16 {
    let c1 = crc ^ (b as u16);
    let c2 = c1 ^ ((c1 << 1) ^ (c1 << 2) ^ (c1 << 3) ^ (c1 << 4) ^ (c1 << 5) ^ (c1 << 6) ^ (c1
        << 7));
    (c2 & 0xFE) ^ ((c2 >> 8) & 1)
}

/// The header CRC register after folding in every byte of `s`, starting from
/// the standard's initial value 0xFF.
pub open spec fn header_crc_fold(s: Seq<u8>) -> u16
    decreases s.len(),
{
    if s.len() == 0 {
        0xFF
    } else {
        header_crc_step(header_crc_fold(s.drop_last()), s.last())
    }
}

/// The header CRC of `s`: the folded register, complemented and truncated.
pub open spec fn header_crc_of(s: Seq<u8>) -> u8 {
    !header_crc_fold(s) as u8
}

/// One step of the data CRC: fold the next byte into the running register.
pub open spec fn data_crc_step(crc: u16, b: u8) -> u16 {
    let low = (crc & 0xff) ^ (b as u16);
    (crc >> 8) ^ (low << 8) ^ (low << 3) ^ (low << 12) ^ (low >> 4) ^ (low & 0xf) ^ ((low & 0x0f)
        << 7)
}

/// The data CRC register after folding in every byte of `s`, starting from
/// the standard's initial value 0xFFFF.
pub open spec fn data_crc_fold(s: Seq<u8>) -> u16
    decreases s.len(),
{
    if s.len() == 0 {
        0xFFFF
    } else {
        data_crc_step(data_crc_fold(s.drop_last()), s.last())
    }
}

/// The data CRC of `s`: the folded register, complemented.
pub open spec fn data_crc_of(s: Seq<u8>) -> u16 {
    !data_crc_fold(s)
}

/// Computes the header CRC. The five input bytes are the frame type, the
/// destination and source MAC addresses, and the two length bytes.
pub fn compute_header_crc(bytes: [u8; 5]) -> (r: u8)
    ensures
        r == header_crc_of(bytes@),
{
    let mut crc: u16 = 0xFF;
    for i in 0..5
        invariant
            crc == header_crc_fold(bytes@.subrange(0, i as int)),
    {
        let b = bytes[i];
        proof {
            assert(bytes@.subrange(0, i + 1).drop_last() =~= bytes@.subrange(0, i as int));
            assert(bytes@.subrange(0, i + 1).last() == bytes@[i as int]);
        }
        crc = crc ^ (b as u16);
        crc = crc ^ ((crc << 1) ^ (crc << 2) ^ (crc << 3) ^ (crc << 4) ^ (crc << 5) ^ (crc << 6)
            ^ (crc << 7));
        crc = (crc & 0xFE) ^ ((crc >> 8) & 1);
    }
    proof {
        assert(bytes@.subrange(0, 5) =~= bytes@);
    }
    !crc as u8
}

/// Computes the data CRC. The input should be everything between the header
/// CRC byte and the trailing data CRC bytes.
pub fn compute_data_crc(bytes: &[u8]) -> (r: u16)
    ensures
        r == data_crc_of(bytes@),
{
    let mut crc: u16 = 0xFFFF;
    let n = bytes.len();
    for i in 0..n
        invariant
            n == bytes@.len(),
            crc == data_crc_fold(bytes@.subrange(0, i as int)),
    {
        let b = bytes[i];
        proof {
            assert(bytes@.subrange(0, i + 1).drop_last() =~= bytes@.subrange(0, i as int));
            assert(bytes@.subrange(0, i + 1).last() == bytes@[i as int]);
        }
        let low = (crc & 0xff) ^ (b as u16);
        crc = (crc >> 8) ^ (low << 8) ^ (low << 3) ^ (low << 12) ^ (low >> 4) ^ (low & 0xf) ^ ((
        low & 0x0f) << 7);
    }
    proof {
        assert(bytes@.subrange(0, n as int) =~= bytes@);
    }
    !crc
}

/// Folding one byte into the data CRC register is injective in the register.
proof fn lemma_data_crc_step_inj_crc(c1: u16, c2: u16, b: u8)
    by (bit_vector)
    requires
        c1 != c2,
    ensures
        data_crc_step(c1, b) != data_crc_step(c2, b),
{
}

/// Folding one byte into the data CRC register is injective in the byte.
proof fn lemma_data_crc_step_inj_byte(c: u16, b1: u8, b2: u8)
    by (bit_vector)
    requires
        b1 != b2,
    ensures
        data_crc_step(c, b1) != data_crc_step(c, b2),
{
}

/// Two byte sequences of equal length that differ in exactly one byte fold to
/// different data CRC registers.
proof fn lemma_data_crc_fold_flip(s1: Seq<u8>, s2: Seq<u8>, i: int)
    requires
        s1.len() == s2.len(),
        0 <= i < s1.len(),
        s1[i] != s2[i],
        forall|j: int| 0 <= j < s1.len() && j != i ==> s1[j] == s2[j],
    ensures
        data_crc_fold(s1) != data_crc_fold(s2),
    decreases s1.len(),
{
    if i == s1.len() - 1 {
        assert(s1.drop_last() =~= s2.drop_last());
        lemma_data_crc_step_inj_byte(data_crc_fold(s1.drop_last()), s1.last(), s2.last());
    } else {
        lemma_data_crc_fold_flip(s1.drop_last(), s2.drop_last(), i);
        assert(s1.last() == s2.last());
        lemma_data_crc_step_inj_crc(
            data_crc_fold(s1.drop_last()),
            data_crc_fold(s2.drop_last()),
            s1.last(),
        );
    }
}

/// Flipping any single byte of the CRC-protected bytes changes the data CRC:
/// a one-byte corruption can never go unnoticed when the CRCs are compared.
pub proof fn lemma_data_crc_detects_byte_flip(s1: Seq<u8>, s2: Seq<u8>, i: int)
    requires
        s1.len() == s2.len(),
        0 <= i < s1.len(),
        s1[i] != s2[i],
        forall|j: int| 0 <= j < s1.len() && j != i ==> s1[j] == s2[j],
    ensures
        data_crc_of(s1) != data_crc_of(s2),
{
    lemma_data_crc_fold_flip(s1, s2, i);
    let f1 = data_crc_fold(s1);
    let f2 = data_crc_fold(s2);
    assert(f1 != f2 ==> !f1 != !f2) by (bit_vector);
}

/// The header CRC register starts at most 0xFF and every step keeps it there.
proof fn lemma_header_crc_fold_bounded(s: Seq<u8>)
    ensures
        header_crc_fold(s) <= 0xFF,
    decreases s.len(),
{
    if s.len() == 0 {
    } else {
        lemma_header_crc_fold_bounded(s.drop_last());
        let c = header_crc_fold(s.drop_last());
        let b = s.last();
        assert(header_crc_step(c, b) <= 0xFF) by (bit_vector);
    }
}

/// Within its 8-bit range, folding one byte into the header CRC register is
/// injective in the register.
proof fn lemma_header_crc_step_inj_crc(c1: u16, c2: u16, b: u8)
    by (bit_vector)
    requires
        c1 <= 0xFF,
        c2 <= 0xFF,
        c1 != c2,
    ensures
        header_crc_step(c1, b) != header_crc_step(c2, b),
{
}

/// Folding one byte into the header CRC register is injective in the byte.
proof fn lemma_header_crc_step_inj_byte(c: u16, b1: u8, b2: u8)
    by (bit_vector)
    requires
        b1 != b2,
    ensures
        header_crc_step(c, b1) != header_crc_step(c, b2),
{
}

/// Two byte sequences of equal length that differ in exactly one byte fold to
/// different header CRC registers.
proof fn lemma_header_crc_fold_flip(s1: Seq<u8>, s2: Seq<u8>, i: int)
    requires
        s1.len() == s2.len(),
        0 <= i < s1.len(),
        s1[i] != s2[i],
        forall|j: int| 0 <= j < s1.len() && j != i ==> s1[j] == s2[j],
    ensures
        header_crc_fold(s1) != header_crc_fold(s2),
    decreases s1.len(),
{
    if i == s1.len() - 1 {
        assert(s1.drop_last() =~= s2.drop_last());
        lemma_header_crc_step_inj_byte(header_crc_fold(s1.drop_last()), s1.last(), s2.last());
    } else {
        lemma_header_crc_fold_flip(s1.drop_last(), s2.drop_last(), i);
        lemma_header_crc_fold_bounded(s1.drop_last());
        lemma_header_crc_fold_bounded(s2.drop_last());
        assert(s1.last() == s2.last());
        lemma_header_crc_step_inj_crc(
            header_crc_fold(s1.drop_last()),
            header_crc_fold(s2.drop_last()),
            s1.last(),
        );
    }
}

/// Flipping any single byte of the five header bytes changes the header CRC.
pub proof fn lemma_header_crc_detects_byte_flip(s1: Seq<u8>, s2: Seq<u8>, i: int)
    requires
        s1.len() == s2.len(),
        0 <= i < s1.len(),
        s1[i] != s2[i],
        forall|j: int| 0 <= j < s1.len() && j != i ==> s1[j] == s2[j],
    ensures
        header_crc_of(s1) != header_crc_of(s2),
{
    lemma_header_crc_fold_flip(s1, s2, i);
    lemma_header_crc_fold_bounded(s1);
    lemma_header_crc_fold_bounded(s2);
    let f1 = header_crc_fold(s1);
    let f2 = header_crc_fold(s2);
    assert(f1 <= 0xFF && f2 <= 0xFF && f1 != f2 ==> (!f1 as u8) != (!f2 as u8)) by (bit_vector);
}

/// The frame type, decoded from the byte at offset 2. Every variant keeps the
/// raw byte so that no information is lost; 8 through 127 are reserved by the
/// standard, 128 through 255 are proprietary.
#[derive(Clone, Copy, Debug, PartialEq, Eq, Structural)]
pub enum MSTPFrameType {
    Token(u8),
    PollforMaster(u8),
    ReplyToPollForMaster(u8),
    TestRequest(u8),
    TestResponse(u8),
    BACnetDataExpectingReply(u8),
    BACnetDataNotExpectingReply(u8),
    ReplyPostponed(u8),
    Reserved(u8),
    Proprietary(u8),
}

/// The frame type named by a frame-type byte.
pub open spec fn frame_type_of(b: u8) -> MSTPFrameType {
    if b == 0 {
        MSTPFrameType::Token(b)
    } else if b == 1 {
        MSTPFrameType::PollforMaster(b)
    } else if b == 2 {
        MSTPFrameType::ReplyToPollForMaster(b)
    } else if b == 3 {
        MSTPFrameType::TestRequest(b)
    } else if b == 4 {
        MSTPFrameType::TestResponse(b)
    } else if b == 5 {
        MSTPFrameType::BACnetDataExpectingReply(b)
    } else if b == 6 {
        MSTPFrameType::BACnetDataNotExpectingReply(b)
    } else if b == 7 {
        MSTPFrameType::ReplyPostponed(b)
    } else if b <= 127 {
        MSTPFrameType::Reserved(b)
    } else {
        MSTPFrameType::Proprietary(b)
    }
}

impl MSTPFrameType {
    /// Decodes a frame-type byte, keeping the raw value in the variant.
    pub fn from_byte(b: u8) -> (r: MSTPFrameType)
        ensures
            r == frame_type_of(b),
    {
        if b == 0 {
            MSTPFrameType::Token(b)
        } else if b == 1 {
            MSTPFrameType::PollforMaster(b)
        } else if b == 2 {
            MSTPFrameType::ReplyToPollForMaster(b)
        } else if b == 3 {
            MSTPFrameType::TestRequest(b)
        } else if b == 4 {
            MSTPFrameType::TestResponse(b)
        } else if b == 5 {
            MSTPFrameType::BACnetDataExpectingReply(b)
        } else if b == 6 {
            MSTPFrameType::BACnetDataNotExpectingReply(b)
        } else if b == 7 {
            MSTPFrameType::ReplyPostponed(b)
        } else if b <= 127 {
            MSTPFrameType::Reserved(b)
        } else {
            MSTPFrameType::Proprietary(b)
        }
    }
}

/// Whether an MS/TP frame decodes from `b`: the two preamble bytes 0x55 0xFF
/// and at least the eight header bytes.
pub open spec fn mstp_decode_ok(b: Seq<u8>) -> bool {
    b.len() >= 8 && b[0] == 0x55 && b[1] == 0xFF
}

/// Whether the decoded frame carries an NPDU: a nonzero declared data length
/// that is consistent with the actual frame length (header plus data plus the
/// two data-CRC bytes), and a payload in which the NPDU decoder succeeds.
/// A length mismatch or a failed NPDU decode is tolerated: the frame is still
/// returned, with no NPDU.
pub open spec fn mstp_npdu_present(b: Seq<u8>) -> bool {
    &&& be16_at(b, 5) != 0
    &&& 10 + be16_at(b, 5) == b.len()
    &&& npdu_decode_ok(b.skip(8))
}

/// Mathematical value of a decoded MS/TP frame, without the CRC report.
pub ghost struct MstpValue {
    pub frame_type: MSTPFrameType,
    pub dst_mac: u8,
    pub src_mac: u8,
    pub len: u16,
    pub npdu: Option<NpduValue>,
}

/// The MS/TP frame encoded in `b`. Meaningful when `mstp_decode_ok(b)`.
pub open spec fn mstp_value(b: Seq<u8>) -> MstpValue {
    MstpValue {
        frame_type: frame_type_of(b[2]),
        dst_mac: b[3],
        src_mac: b[4],
        len: be16_at(b, 5),
        npdu: if mstp_npdu_present(b) {
            Some(npdu_value(b.skip(8)))
        } else {
            None
        },
    }
}

/// Mathematical value of a CRC report: the bytes read from the frame and the
/// independently recomputed values.
pub ghost struct CrcsValue {
    pub header_actual: u8,
    pub header_computed: u8,
    pub data_actual: u16,
    pub data_computed: u16,
}

/// The CRC report for the frame encoded in `b`: the header CRC byte at offset
/// 7 against the CRC of the five header bytes, and — when any data bytes are
/// present — the trailing little-endian CRC pair against the CRC of all bytes
/// between the header CRC and the trailing pair. Meaningful when
/// `mstp_decode_ok(b)`.
pub open spec fn mstp_crcs_value(b: Seq<u8>) -> CrcsValue {
    CrcsValue {
        header_actual: b[7],
        header_computed: header_crc_of(b.subrange(2, 7)),
        data_actual: if b.len() > 10 {
            le16_at(b, b.len() - 2)
        } else {
            0
        },
        data_computed: if b.len() > 10 {
            data_crc_of(b.subrange(8, b.len() - 2))
        } else {
            0
        },
    }
}

/// An MS/TP frame decoded without computing CRCs, borrowing its NPDU from the
/// decoded buffer.
pub struct MSTPFrameNoCrcs<'a> {
    frame_type: MSTPFrameType,
    dst_mac: u8,
    src_mac: u8,
    len: u16,
    npdu: Option<NPDU<'a>>,
}

impl<'a> View for MSTPFrameNoCrcs<'a> {
    type V = MstpValue;

    closed spec fn view(&self) -> MstpValue {
        MstpValue {
            frame_type: self.frame_type,
            dst_mac: self.dst_mac,
            src_mac: self.src_mac,
            len: self.len,
            npdu: match self.npdu {
                Some(n) => Some(n@),
                None => None,
            },
        }
    }
}

impl<'a> MSTPFrameNoCrcs<'a> {
    /// The decoded frame type.
    pub fn frame_type(&self) -> (r: MSTPFrameType)
        ensures
            r == self@.frame_type,
    {
        self.frame_type
    }

    /// The destination MAC address byte.
    pub fn dst_mac(&self) -> (r: u8)
        ensures
            r == self@.dst_mac,
    {
        self.dst_mac
    }

    /// The source MAC address byte.
    pub fn src_mac(&self) -> (r: u8)
        ensures
            r == self@.src_mac,
    {
        self.src_mac
    }

    /// The declared data length.
    pub fn data_len(&self) -> (r: u16)
        ensures
            r == self@.len,
    {
        self.len
    }

    /// The carried NPDU, when one was present and decoded.
    pub fn npdu(&self) -> (r: &Option<NPDU<'a>>)
        ensures
            r matches Some(n) ==> self@.npdu == Some(n@),
            r is None <==> self@.npdu is None,
    {
        &self.npdu
    }
}

/// The header and data CRC values read from a frame together with their
/// recomputed counterparts. Equality is a caller-observable fact: the decoder
/// reports mismatches, it does not reject them.
#[derive(Clone, Copy)]
pub struct CRCs {
    header_computed: u8,
    header_actual: u8,
    data_computed: u16,
    data_actual: u16,
}

impl View for CRCs {
    type V = CrcsValue;

    closed spec fn view(&self) -> CrcsValue {
        CrcsValue {
            header_actual: self.header_actual,
            header_computed: self.header_computed,
            data_actual: self.data_actual,
            data_computed: self.data_computed,
        }
    }
}

impl CRCs {
    /// Returns the header CRCs: (actual value, re-computed).
    pub fn header(self) -> (r: (u8, u8))
        ensures
            r.0 == self@.header_actual,
            r.1 == self@.header_computed,
    {
        (self.header_actual, self.header_computed)
    }

    /// Returns the data CRCs: (actual value, re-computed).
    pub fn data(self) -> (r: (u16, u16))
        ensures
            r.0 == self@.data_actual,
            r.1 == self@.data_computed,
    {
        (self.data_actual, self.data_computed)
    }
}

/// Mathematical value of a decoded MS/TP frame together with its CRC report.
pub ghost struct MstpFrameValue {
    pub frame: MstpValue,
    pub crcs: CrcsValue,
}

/// An MS/TP frame decoded with its CRC report, borrowing its NPDU from the
/// decoded buffer.
pub struct MSTPFrame<'a> {
    frame_type: MSTPFrameType,
    dst_mac: u8,
    src_mac: u8,
    len: u16,
    crcs: CRCs,
    npdu: Option<NPDU<'a>>,
}

impl<'a> View for MSTPFrame<'a> {
    type V = MstpFrameValue;

    closed spec fn view(&self) -> MstpFrameValue {
        MstpFrameValue {
            frame: MstpValue {
                frame_type: self.frame_type,
                dst_mac: self.dst_mac,
                src_mac: self.src_mac,
                len: self.len,
                npdu: match self.npdu {
                    Some(n) => Some(n@),
                    None => None,
                },
            },
            crcs: self.crcs@,
        }
    }
}

impl<'a> MSTPFrame<'a> {
    /// The decoded frame type.
    pub fn frame_type(&self) -> (r: MSTPFrameType)
        ensures
            r == self@.frame.frame_type,
    {
        self.frame_type
    }

    /// The destination MAC address byte.
    pub fn dst_mac(&self) -> (r: u8)
        ensures
            r == self@.frame.dst_mac,
    {
        self.dst_mac
    }

    /// The source MAC address byte.
    pub fn src_mac(&self) -> (r: u8)
        ensures
            r == self@.frame.src_mac,
    {
        self.src_mac
    }

    /// The declared data length.
    pub fn data_len(&self) -> (r: u16)
        ensures
            r == self@.frame.len,
    {
        self.len
    }

    /// The CRC report: actual and recomputed header and data CRCs.
    pub fn crcs(&self) -> (r: CRCs)
        ensures
            r@ == self@.crcs,
    {
        self.crcs
    }

    /// The carried NPDU, when one was present and decoded.
    pub fn npdu(&self) -> (r: &Option<NPDU<'a>>)
        ensures
            r matches Some(n) ==> self@.frame.npdu == Some(n@),
            r is None <==> self@.frame.npdu is None,
    {
        &self.npdu
    }
}

/// Decodes an MS/TP frame without computing CRCs: checks the preamble and the
/// minimum header size, reads frame type, MAC addresses and declared data
/// length, and decodes the carried NPDU when the declared length is nonzero
/// and consistent with the buffer's length. An inconsistent length or a
/// failed NPDU decode is tolerated: the frame is returned with no NPDU.
pub fn parse_mstp_skip_crc_compute<'a>(bytes: &'a [u8]) -> (r: Result<MSTPFrameNoCrcs<'a>, Error>)
    ensures
        r is Ok <==> mstp_decode_ok(bytes@),
        r matches Ok(f) ==> f@ == mstp_value(bytes@),
        r matches Err(e) ==> if bytes@.len() >= 2 && !(bytes@[0] == 0x55 && bytes@[1] == 0xFF) {
            e.is_invalid_value()
        } else {
            e.is_length()
        },
{
    if bytes.len() < 2 {
        return Err(Error::Length("data is shorter than minimum mstp frame size"));
    }
    if bytes[0] != 0x55 || bytes[1] != 0xFF {
        return Err(Error::InvalidValue("not the mstp preamble"));
    }
    if bytes.len() < 8 {
        return Err(Error::Length("data is shorter than minimum mstp frame size"));
    }
    let frame_type = MSTPFrameType::from_byte(bytes[2]);
    let dst_mac = bytes[3];
    let src_mac = bytes[4];
    let len = read_be16(bytes, 5);
    let mut npdu: Option<NPDU<'a>> = None;
    // 10 comes from (header = 8) + (crc = 2)
    if len != 0 && 10 + (len as usize) == bytes.len() {
        let tail = slice_subrange(bytes, 8, bytes.len());
        if let Ok(n) = parse_npdu(tail) {
            npdu = Some(n);
        }
    }
    Ok(MSTPFrameNoCrcs { frame_type, dst_mac, src_mac, len, npdu })
}

/// Decodes an MS/TP frame and reports its CRCs: the header CRC byte at offset
/// 7 against the recomputed CRC of the five header bytes, and — when any data
/// bytes are present — the trailing little-endian CRC pair against the
/// recomputed CRC of the bytes between them. A mismatch is reported through
/// the returned [`CRCs`], never treated as a decode failure.
pub fn parse_mstp<'a>(bytes: &'a [u8]) -> (r: Result<MSTPFrame<'a>, Error>)
    ensures
        r is Ok <==> mstp_decode_ok(bytes@),
        r matches Ok(f) ==> f@.frame == mstp_value(bytes@) && f@.crcs == mstp_crcs_value(bytes@),
        r matches Err(e) ==> if bytes@.len() >= 2 && !(bytes@[0] == 0x55 && bytes@[1] == 0xFF) {
            e.is_invalid_value()
        } else {
            e.is_length()
        },
{
    let frame = match parse_mstp_skip_crc_compute(bytes) {
        Ok(f) => f,
        Err(e) => {
            return Err(e);
        },
    };
    let framelen = bytes.len();
    let header = [bytes[2], bytes[3], bytes[4], bytes[5], bytes[6]];
    proof {
        assert(header@ =~= bytes@.subrange(2, 7));
    }
    let header_computed = compute_header_crc(header);
    let header_actual = bytes[7];
    let mut data_actual: u16 = 0;
    let mut data_computed: u16 = 0;
    if framelen > 10 {
        data_actual = read_le16(bytes, framelen - 2);
        let data_slice = slice_subrange(bytes, 8, framelen - 2);
        data_computed = compute_data_crc(data_slice);
    }
    let crcs = CRCs { header_computed, header_actual, data_computed, data_actual };
    Ok(
        MSTPFrame {
            frame_type: frame.frame_type,
            dst_mac: frame.dst_mac,
            src_mac: frame.src_mac,
            len: frame.len,
            npdu: frame.npdu,
            crcs,
        },
    )
}

} // verus!
