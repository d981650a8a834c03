//! The application-layer (APDU) decoder: the PDU type is the top nibble of
//! the first byte; the rest of the bytes are kept for the service decoders.

use crate::Error;
use vstd::prelude::*;

verus! {

/// Classification of an APDU by the top nibble of its first byte. There are
/// multiple services within each PDU type.
#[derive(Clone, Copy, Debug, PartialEq, Eq, Structural)]
pub enum PDUType {
    BACnetConfirmedRequestPDU,
    BACnetUnconfirmedRequestPDU,
    BACnetSimpleACKPDU,
    BACnetComplexACKPDU,
    Segment,
    Error,
    RejectPDU,
    Abort,
    Reserved,
}

/// The PDU type named by the top nibble of a first byte.
pub open spec fn pdu_type_of(b: u8) -> PDUType {
    let h = b & 0xF0;
    if h == 0x00 {
        PDUType::BACnetConfirmedRequestPDU
    } else if h == 0x10 {
        PDUType::BACnetUnconfirmedRequestPDU
    } else if h == 0x20 {
        PDUType::BACnetSimpleACKPDU
    } else if h == 0x30 {
        PDUType::BACnetComplexACKPDU
    } else if h == 0x40 {
        PDUType::Segment
    } else if h == 0x50 {
        PDUType::Error
    } else if h == 0x60 {
        PDUType::RejectPDU
    } else if h == 0x70 {
        PDUType::Abort
    } else {
        PDUType::Reserved
    }
}

impl PDUType {
    /// Classifies a first byte by its top nibble; 0x80 and above are
    /// reserved.
    pub fn from_byte(b: u8) -> (r: PDUType)
        ensures
            r == pdu_type_of(b),
    {
        let h = b & 0xF0;
        if h == 0x00 {
            PDUType::BACnetConfirmedRequestPDU
        } else if h == 0x10 {
            PDUType::BACnetUnconfirmedRequestPDU
        } else if h == 0x20 {
            PDUType::BACnetSimpleACKPDU
        } else if h == 0x30 {
            PDUType::BACnetComplexACKPDU
        } else if h == 0x40 {
            PDUType::Segment
        } else if h == 0x50 {
            PDUType::Error
        } else if h == 0x60 {
            PDUType::RejectPDU
        } else if h == 0x70 {
            PDUType::Abort
        } else {
            PDUType::Reserved
        }
    }
}

/// An application-layer message: the raw bytes and the PDU-type byte. The
/// service decoders work on `bytes`.
pub struct APDU<'a> {
    pub bytes: &'a [u8],
    pub pdu_type: u8,
}

impl<'a> APDU<'a> {
    /// The PDU type classified from the type byte.
    pub fn pdu_type(&self) -> (r: PDUType)
        ensures
            r == pdu_type_of(self.pdu_type),
    {
        PDUType::from_byte(self.pdu_type)
    }

    /// The raw PDU-type byte.
    pub fn pdu_type_byte(&self) -> (r: u8)
        ensures
            r == self.pdu_type,
    {
        self.pdu_type
    }
}

/// Wraps a non-empty buffer as an APDU, keeping its first byte as the
/// PDU-type byte. An empty buffer is a length error.
pub fn parse_apdu<'a>(bytes: &'a [u8]) -> (r: Result<APDU<'a>, Error>)
    ensures
        r is Ok <==> bytes@.len() > 0,
        r matches Ok(a) ==> a.bytes@ == bytes@ && a.pdu_type == bytes@[0],
        r matches Err(e) ==> e.is_length(),
{
    if bytes.is_empty() {
        return Err(Error::Length("empty apdu bytes"));
    }
    Ok(APDU { bytes, pdu_type: bytes[0] })
}

/// Which confirmed service a service-choice byte selects; codes not named
/// here map to `Unknown`.
#[derive(Clone, Copy, Debug, PartialEq, Eq, Structural)]
pub enum ConfirmedServiceChoice {
    SubscribeCOV,
    ReadProperty,
    ReadPropertyMultiple,
    WriteProperty,
    WritePropertyMultiple,
    DeviceCommunicationControl,
    ReinitializeDevice,
    Unknown,
}

/// The confirmed service named by a service-choice byte.
pub open spec fn confirmed_service_of(b: u8) -> ConfirmedServiceChoice {
    if b == 0x05 {
        ConfirmedServiceChoice::SubscribeCOV
    } else if b == 0x0c {
        ConfirmedServiceChoice::ReadProperty
    } else if b == 0x0e {
        ConfirmedServiceChoice::ReadPropertyMultiple
    } else if b == 0x0f {
        ConfirmedServiceChoice::WriteProperty
    } else if b == 0x10 {
        ConfirmedServiceChoice::WritePropertyMultiple
    } else if b == 0x11 {
        ConfirmedServiceChoice::DeviceCommunicationControl
    } else if b == 0x14 {
        ConfirmedServiceChoice::ReinitializeDevice
    } else {
        ConfirmedServiceChoice::Unknown
    }
}

impl ConfirmedServiceChoice {
    /// Decodes a service-choice byte; unrecognized codes become `Unknown`.
    pub fn from_byte(b: u8) -> (r: ConfirmedServiceChoice)
        ensures
            r == confirmed_service_of(b),
    {
        if b == 0x05 {
            ConfirmedServiceChoice::SubscribeCOV
        } else if b == 0x0c {
            ConfirmedServiceChoice::ReadProperty
        } else if b == 0x0e {
            ConfirmedServiceChoice::ReadPropertyMultiple
        } else if b == 0x0f {
            ConfirmedServiceChoice::WriteProperty
        } else if b == 0x10 {
            ConfirmedServiceChoice::WritePropertyMultiple
        } else if b == 0x11 {
            ConfirmedServiceChoice::DeviceCommunicationControl
        } else if b == 0x14 {
            ConfirmedServiceChoice::ReinitializeDevice
        } else {
            ConfirmedServiceChoice::Unknown
        }
    }
}

/// Why a request was rejected; codes not named here map to `Unknown`.
#[derive(Clone, Copy, Debug, PartialEq, Eq, Structural)]
pub enum BACnetRejectReason {
    Other,
    BufferOverflow,
    InconsistentParameters,
    InvalidParameterDataType,
    InvalidTag,
    MissingRequiredParameter,
    ParameterOutOfRange,
    TooManyArguments,
    UndefinedEnumeration,
    UnrecognizedService,
    Unknown,
}

/// The reject reason named by a reason byte.
pub open spec fn reject_reason_of(b: u8) -> BACnetRejectReason {
    if b == 0 {
        BACnetRejectReason::Other
    } else if b == 1 {
        BACnetRejectReason::BufferOverflow
    } else if b == 2 {
        BACnetRejectReason::InconsistentParameters
    } else if b == 3 {
        BACnetRejectReason::InvalidParameterDataType
    } else if b == 4 {
        BACnetRejectReason::InvalidTag
    } else if b == 5 {
        BACnetRejectReason::MissingRequiredParameter
    } else if b == 6 {
        BACnetRejectReason::ParameterOutOfRange
    } else if b == 7 {
        BACnetRejectReason::TooManyArguments
    } else if b == 8 {
        BACnetRejectReason::UndefinedEnumeration
    } else if b == 9 {
        BACnetRejectReason::UnrecognizedService
    } else {
        BACnetRejectReason::Unknown
    }
}

impl BACnetRejectReason {
    /// Decodes a reject-reason byte; unrecognized codes become `Unknown`.
    pub fn from_byte(b: u8) -> (r: BACnetRejectReason)
        ensures
            r == reject_reason_of(b),
    {
        if b == 0 {
            BACnetRejectReason::Other
        } else if b == 1 {
            BACnetRejectReason::BufferOverflow
        } else if b == 2 {
            BACnetRejectReason::InconsistentParameters
        } else if b == 3 {
            BACnetRejectReason::InvalidParameterDataType
        } else if b == 4 {
            BACnetRejectReason::InvalidTag
        } else if b == 5 {
            BACnetRejectReason::MissingRequiredParameter
        } else if b == 6 {
            BACnetRejectReason::ParameterOutOfRange
        } else if b == 7 {
            BACnetRejectReason::TooManyArguments
        } else if b == 8 {
            BACnetRejectReason::UndefinedEnumeration
        } else if b == 9 {
            BACnetRejectReason::UnrecognizedService
        } else {
            BACnetRejectReason::Unknown
        }
    }
}

/// The fixed three-byte body of an Error PDU.
#[derive(Clone, Copy, Debug, PartialEq, Eq, Structural)]
pub struct ErrorPDU {
    pub invoke_id: u8,
    pub error_class: u8,
    pub error_code: u8,
}

impl ErrorPDU {
    /// Decodes an Error PDU body: exactly three bytes, (invoke id, error
    /// class, error code). Any other length is a length error.
    pub fn parse(b: &[u8]) -> (r: Result<ErrorPDU, Error>)
        ensures
            r is Ok <==> b@.len() == 3,
            r matches Ok(e) ==> e.invoke_id == b@[0] && e.error_class == b@[1] && e.error_code
                == b@[2],
            r matches Err(e) ==> e.is_length(),
    {
        if b.len() != 3 {
            return Err(Error::Length("wrong len for ErrorPDU"));
        }
        Ok(ErrorPDU { invoke_id: b[0], error_class: b[1], error_code: b[2] })
    }

    /// The invoke id the error answers.
    pub fn invoke_id(&self) -> (r: u8)
        ensures
            r == self.invoke_id,
    {
        self.invoke_id
    }

    /// The error class byte.
    pub fn error_class(&self) -> (r: u8)
        ensures
            r == self.error_class,
    {
        self.error_class
    }

    /// The error code byte.
    pub fn error_code(&self) -> (r: u8)
        ensures
            r == self.error_code,
    {
        self.error_code
    }
}

} // verus!
