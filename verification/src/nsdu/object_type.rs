//! The object-type table: the 16-bit code at the front of a buffer names
//! one of the standard object types; 57 through 127 are reserved by the
//! standard, 128 through 1023 are open to vendors, and anything above is
//! invalid.

use crate::wire::be16_at;
use crate::wire::read_be16;
use vstd::prelude::*;

verus! {

/// A standard object type, or the range its code falls in.
#[derive(Clone, Copy, Debug, PartialEq, Eq, Structural)]
pub enum ObjectType {
    ObjectAnalogInput,
    ObjectAnalogOutput,
    ObjectAnalogValue,
    ObjectBinaryInput,
    ObjectBinaryOutput,
    ObjectBinaryValue,
    ObjectCalendar,
    ObjectCommand,
    ObjectDevice,
    ObjectEventEnrollment,
    ObjectFile,
    ObjectGroup,
    ObjectLoop,
    ObjectMultiStateInput,
    ObjectMultiStateOutput,
    ObjectNotificationClass,
    ObjectProgram,
    ObjectSchedule,
    ObjectAveraging,
    ObjectMultiStateValue,
    ObjectTrendlog,
    ObjectLifeSafetyPoint,
    ObjectLifeSafetyZone,
    ObjectAccumulator,
    ObjectPulseConverter,
    ObjectEventLog,
    ObjectGlobalGroup,
    ObjectTrendLogMultiple,
    ObjectLoadControl,
    ObjectStructuredView,
    ObjectAccessDoor,
    ObjectTimer,
    ObjectAccessCredential,
    ObjectAccessPoint,
    ObjectAccessRights,
    ObjectAccessUser,
    ObjectAccessZone,
    ObjectCredentialDataInput,
    ObjectNetworkSecurity,
    ObjectBitstringValue,
    ObjectCharacterstringValue,
    ObjectDatePatternValue,
    ObjectDateValue,
    ObjectDatetimePatternValue,
    ObjectDatetimeValue,
    ObjectIntegerValue,
    ObjectLargeAnalogValue,
    ObjectOctetstringValue,
    ObjectPositiveIntegerValue,
    ObjectTimePatternValue,
    ObjectTimeValue,
    ObjectNotificationForwarder,
    ObjectAlertEnrollment,
    ObjectChannel,
    ObjectLightingOutput,
    ObjectBinaryLightingOutput,
    ObjectNetworkPort,
    Reserved,
    Proprietary,
    Invalid,
}

/// The object type named by a 16-bit code.
pub open spec fn object_type_of(v: u16) -> ObjectType {
    if v == 0 {
        ObjectType::ObjectAnalogInput
    } else if v == 1 {
        ObjectType::ObjectAnalogOutput
    } else if v == 2 {
        ObjectType::ObjectAnalogValue
    } else if v == 3 {
        ObjectType::ObjectBinaryInput
    } else if v == 4 {
        ObjectType::ObjectBinaryOutput
    } else if v == 5 {
        ObjectType::ObjectBinaryValue
    } else if v == 6 {
        ObjectType::ObjectCalendar
    } else if v == 7 {
        ObjectType::ObjectCommand
    } else if v == 8 {
        ObjectType::ObjectDevice
    } else if v == 9 {
        ObjectType::ObjectEventEnrollment
    } else if v == 10 {
        ObjectType::ObjectFile
    } else if v == 11 {
        ObjectType::ObjectGroup
    } else if v == 12 {
        ObjectType::ObjectLoop
    } else if v == 13 {
        ObjectType::ObjectMultiStateInput
    } else if v == 14 {
        ObjectType::ObjectMultiStateOutput
    } else if v == 15 {
        ObjectType::ObjectNotificationClass
    } else if v == 16 {
        ObjectType::ObjectProgram
    } else if v == 17 {
        ObjectType::ObjectSchedule
    } else if v == 18 {
        ObjectType::ObjectAveraging
    } else if v == 19 {
        ObjectType::ObjectMultiStateValue
    } else if v == 20 {
        ObjectType::ObjectTrendlog
    } else if v == 21 {
        ObjectType::ObjectLifeSafetyPoint
    } else if v == 22 {
        ObjectType::ObjectLifeSafetyZone
    } else if v == 23 {
        ObjectType::ObjectAccumulator
    } else if v == 24 {
        ObjectType::ObjectPulseConverter
    } else if v == 25 {
        ObjectType::ObjectEventLog
    } else if v == 26 {
        ObjectType::ObjectGlobalGroup
    } else if v == 27 {
        ObjectType::ObjectTrendLogMultiple
    } else if v == 28 {
        ObjectType::ObjectLoadControl
    } else if v == 29 {
        ObjectType::ObjectStructuredView
    } else if v == 30 {
        ObjectType::ObjectAccessDoor
    } else if v == 31 {
        ObjectType::ObjectTimer
    } else if v == 32 {
        ObjectType::ObjectAccessCredential
    } else if v == 33 {
        ObjectType::ObjectAccessPoint
    } else if v == 34 {
        ObjectType::ObjectAccessRights
    } else if v == 35 {
        ObjectType::ObjectAccessUser
    } else if v == 36 {
        ObjectType::ObjectAccessZone
    } else if v == 37 {
        ObjectType::ObjectCredentialDataInput
    } else if v == 38 {
        ObjectType::ObjectNetworkSecurity
    } else if v == 39 {
        ObjectType::ObjectBitstringValue
    } else if v == 40 {
        ObjectType::ObjectCharacterstringValue
    } else if v == 41 {
        ObjectType::ObjectDatePatternValue
    } else if v == 42 {
        ObjectType::ObjectDateValue
    } else if v == 43 {
        ObjectType::ObjectDatetimePatternValue
    } else if v == 44 {
        ObjectType::ObjectDatetimeValue
    } else if v == 45 {
        ObjectType::ObjectIntegerValue
    } else if v == 46 {
        ObjectType::ObjectLargeAnalogValue
    } else if v == 47 {
        ObjectType::ObjectOctetstringValue
    } else if v == 48 {
        ObjectType::ObjectPositiveIntegerValue
    } else if v == 49 {
        ObjectType::ObjectTimePatternValue
    } else if v == 50 {
        ObjectType::ObjectTimeValue
    } else if v == 51 {
        ObjectType::ObjectNotificationForwarder
    } else if v == 52 {
        ObjectType::ObjectAlertEnrollment
    } else if v == 53 {
        ObjectType::ObjectChannel
    } else if v == 54 {
        ObjectType::ObjectLightingOutput
    } else if v == 55 {
        ObjectType::ObjectBinaryLightingOutput
    } else if v == 56 {
        ObjectType::ObjectNetworkPort
    } else if v <= 127 {
        ObjectType::Reserved
    } else if v <= 1023 {
        ObjectType::Proprietary
    } else {
        ObjectType::Invalid
    }
}

impl ObjectType {
    /// Decodes the big-endian object-type code at the front of `b`.
    pub fn parse(b: &[u8]) -> (r: ObjectType)
        requires
            b@.len() >= 2,
        ensures
            r == object_type_of(be16_at(b@, 0)),
    {
        let v = read_be16(b, 0);
        if v == 0 {
            ObjectType::ObjectAnalogInput
        } else if v == 1 {
            ObjectType::ObjectAnalogOutput
        } else if v == 2 {
            ObjectType::ObjectAnalogValue
        } else if v == 3 {
            ObjectType::ObjectBinaryInput
        } else if v == 4 {
            ObjectType::ObjectBinaryOutput
        } else if v == 5 {
            ObjectType::ObjectBinaryValue
        } else if v == 6 {
            ObjectType::ObjectCalendar
        } else if v == 7 {
            ObjectType::ObjectCommand
        } else if v == 8 {
            ObjectType::ObjectDevice
        } else if v == 9 {
            ObjectType::ObjectEventEnrollment
        } else if v == 10 {
            ObjectType::ObjectFile
        } else if v == 11 {
            ObjectType::ObjectGroup
        } else if v == 12 {
            ObjectType::ObjectLoop
        } else if v == 13 {
            ObjectType::ObjectMultiStateInput
        } else if v == 14 {
            ObjectType::ObjectMultiStateOutput
        } else if v == 15 {
            ObjectType::ObjectNotificationClass
        } else if v == 16 {
            ObjectType::ObjectProgram
        } else if v == 17 {
            ObjectType::ObjectSchedule
        } else if v == 18 {
            ObjectType::ObjectAveraging
        } else if v == 19 {
            ObjectType::ObjectMultiStateValue
        } else if v == 20 {
            ObjectType::ObjectTrendlog
        } else if v == 21 {
            ObjectType::ObjectLifeSafetyPoint
        } else if v == 22 {
            ObjectType::ObjectLifeSafetyZone
        } else if v == 23 {
            ObjectType::ObjectAccumulator
        } else if v == 24 {
            ObjectType::ObjectPulseConverter
        } else if v == 25 {
            ObjectType::ObjectEventLog
        } else if v == 26 {
            ObjectType::ObjectGlobalGroup
        } else if v == 27 {
            ObjectType::ObjectTrendLogMultiple
        } else if v == 28 {
            ObjectType::ObjectLoadControl
        } else if v == 29 {
            ObjectType::ObjectStructuredView
        } else if v == 30 {
            ObjectType::ObjectAccessDoor
        } else if v == 31 {
            ObjectType::ObjectTimer
        } else if v == 32 {
            ObjectType::ObjectAccessCredential
        } else if v == 33 {
            ObjectType::ObjectAccessPoint
        } else if v == 34 {
            ObjectType::ObjectAccessRights
        } else if v == 35 {
            ObjectType::ObjectAccessUser
        } else if v == 36 {
            ObjectType::ObjectAccessZone
        } else if v == 37 {
            ObjectType::ObjectCredentialDataInput
        } else if v == 38 {
            ObjectType::ObjectNetworkSecurity
        } else if v == 39 {
            ObjectType::ObjectBitstringValue
        } else if v == 40 {
            ObjectType::ObjectCharacterstringValue
        } else if v == 41 {
            ObjectType::ObjectDatePatternValue
        } else if v == 42 {
            ObjectType::ObjectDateValue
        } else if v == 43 {
            ObjectType::ObjectDatetimePatternValue
        } else if v == 44 {
            ObjectType::ObjectDatetimeValue
        } else if v == 45 {
            ObjectType::ObjectIntegerValue
        } else if v == 46 {
            ObjectType::ObjectLargeAnalogValue
        } else if v == 47 {
            ObjectType::ObjectOctetstringValue
        } else if v == 48 {
            ObjectType::ObjectPositiveIntegerValue
        } else if v == 49 {
            ObjectType::ObjectTimePatternValue
        } else if v == 50 {
            ObjectType::ObjectTimeValue
        } else if v == 51 {
            ObjectType::ObjectNotificationForwarder
        } else if v == 52 {
            ObjectType::ObjectAlertEnrollment
        } else if v == 53 {
            ObjectType::ObjectChannel
        } else if v == 54 {
            ObjectType::ObjectLightingOutput
        } else if v == 55 {
            ObjectType::ObjectBinaryLightingOutput
        } else if v == 56 {
            ObjectType::ObjectNetworkPort
        } else if v <= 127 {
            ObjectType::Reserved
        } else if v <= 1023 {
            ObjectType::Proprietary
        } else {
            ObjectType::Invalid
        }
    }
}

} // verus!
