//! Decoders for BACnet frames: the BACnet/IP virtual link layer (BVLC), the
//! MS/TP data link with its two CRC algorithms, the network layer (NPDU), and
//! the start of the application layer (APDU tags, Who-Is limits) together with
//! network layer messages (RPDU).
//!
//! Every decoder is a pure function from a byte buffer to either a read-only
//! view borrowing from that buffer or an [`Error`]. Nothing is copied and no
//! state is kept across calls.

use vstd::prelude::*;

pub mod bvlc;
pub mod mstp;
pub mod npdu;
pub mod nsdu;
pub mod wire;

pub use bvlc::parse_bvlc;
pub use mstp::parse_mstp;
pub use mstp::parse_mstp_skip_crc_compute;
pub use nsdu::parse_apdu;
pub use nsdu::parse_rpdu;

verus! {

/// A decode failure. `Length` says a buffer was too short for a field or a
/// declared length disagreed with the actual byte count; `InvalidValue` says a
/// field held a value outside its legal domain. Each carries a static note
/// naming the failed check. `Unknown` is reserved for unclassified failures.
#[derive(Debug)]
pub enum Error {
    Length(&'static str),
    InvalidValue(&'static str),
    Unknown,
}

impl Error {
    /// True of every `Length` error, whatever its note.
    pub open spec fn is_length(self) -> bool {
        self is Length
    }

    /// True of every `InvalidValue` error, whatever its note.
    pub open spec fn is_invalid_value(self) -> bool {
        self is InvalidValue
    }
}

} // verus!
