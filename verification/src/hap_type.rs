//! The type tags of services and characteristics.

use vstd::prelude::*;

verus! {

/// Protocol type tag of a service or of a characteristic.
#[derive(Clone, Copy, Debug, PartialEq, Eq, Hash, Structural)]
pub enum HapType {
    Unknown,
    AccessoryInformation,
    WindowCovering,
    AccessoryFlags,
    CurrentHorizontalTiltAngle,
    CurrentPosition,
    CurrentVerticalTiltAngle,
    FirmwareRevision,
    HardwareRevision,
    HoldPosition,
    Identify,
    Manufacturer,
    Model,
    Name,
    ObstructionDetected,
    PositionState,
    SerialNumber,
    TargetHorizontalTiltAngle,
    TargetPosition,
    TargetVerticalTiltAngle,
}

impl HapType {
    /// The short form of the tag's UUID, as it is written on the wire.
    pub open spec fn code(self) -> Seq<char> {
        match self {
            HapType::Unknown => "unknown"@,
            HapType::AccessoryInformation => "3E"@,
            HapType::WindowCovering => "8C"@,
            HapType::AccessoryFlags => "A6"@,
            HapType::CurrentHorizontalTiltAngle => "6C"@,
            HapType::CurrentPosition => "6D"@,
            HapType::CurrentVerticalTiltAngle => "6E"@,
            HapType::FirmwareRevision => "52"@,
            HapType::HardwareRevision => "53"@,
            HapType::HoldPosition => "6F"@,
            HapType::Identify => "14"@,
            HapType::Manufacturer => "20"@,
            HapType::Model => "21"@,
            HapType::Name => "23"@,
            HapType::ObstructionDetected => "24"@,
            HapType::PositionState => "72"@,
            HapType::SerialNumber => "30"@,
            HapType::TargetHorizontalTiltAngle => "7B"@,
            HapType::TargetPosition => "7C"@,
            HapType::TargetVerticalTiltAngle => "7D"@,
        }
    }

    /// Returns the short form of the tag's UUID.
    pub fn as_str(&self) -> (s: &'static str)
        ensures
            s@ == self.code(),
    {
        match self {
            HapType::Unknown => "unknown",
            HapType::AccessoryInformation => "3E",
            HapType::WindowCovering => "8C",
            HapType::AccessoryFlags => "A6",
            HapType::CurrentHorizontalTiltAngle => "6C",
            HapType::CurrentPosition => "6D",
            HapType::CurrentVerticalTiltAngle => "6E",
            HapType::FirmwareRevision => "52",
            HapType::HardwareRevision => "53",
            HapType::HoldPosition => "6F",
            HapType::Identify => "14",
            HapType::Manufacturer => "20",
            HapType::Model => "21",
            HapType::Name => "23",
            HapType::ObstructionDetected => "24",
            HapType::PositionState => "72",
            HapType::SerialNumber => "30",
            HapType::TargetHorizontalTiltAngle => "7B",
            HapType::TargetPosition => "7C",
            HapType::TargetVerticalTiltAngle => "7D",
        }
    }
}

impl Default for HapType {
    fn default() -> (t: HapType)
        ensures
            t == HapType::Unknown,
    {
        HapType::Unknown
    }
}

} // verus!
