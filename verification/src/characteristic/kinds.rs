//! The kinds of characteristics: the format that belongs to each type tag,
//! and a constructor for each kind.

use vstd::prelude::*;
use crate::characteristic::{Characteristic, CharacteristicView, Format};
use crate::hap_type::HapType;

verus! {

/// The format of the characteristics with the type tag `hap_type`. The type
/// tags of services have none.
pub open spec fn format_of(hap_type: HapType) -> Option<Format> {
    match hap_type {
        HapType::AccessoryFlags => Some(Format::UInt32),
        HapType::CurrentHorizontalTiltAngle => Some(Format::Int32),
        HapType::CurrentPosition => Some(Format::UInt8),
        HapType::CurrentVerticalTiltAngle => Some(Format::Int32),
        HapType::FirmwareRevision => Some(Format::String),
        HapType::HardwareRevision => Some(Format::String),
        HapType::HoldPosition => Some(Format::Bool),
        HapType::Identify => Some(Format::Bool),
        HapType::Manufacturer => Some(Format::String),
        HapType::Model => Some(Format::String),
        HapType::Name => Some(Format::String),
        HapType::ObstructionDetected => Some(Format::Bool),
        HapType::PositionState => Some(Format::UInt8),
        HapType::SerialNumber => Some(Format::String),
        HapType::TargetHorizontalTiltAngle => Some(Format::Int32),
        HapType::TargetPosition => Some(Format::UInt8),
        HapType::TargetVerticalTiltAngle => Some(Format::Int32),
        _ => None,
    }
}

/// Returns the format of the characteristics with the type tag `hap_type`,
/// if it is the type tag of a characteristic.
pub fn format_for(hap_type: HapType) -> (format: Option<Format>)
    ensures
        format == format_of(hap_type),
{
    match hap_type {
        HapType::AccessoryFlags => Some(Format::UInt32),
        HapType::CurrentHorizontalTiltAngle => Some(Format::Int32),
        HapType::CurrentPosition => Some(Format::UInt8),
        HapType::CurrentVerticalTiltAngle => Some(Format::Int32),
        HapType::FirmwareRevision => Some(Format::String),
        HapType::HardwareRevision => Some(Format::String),
        HapType::HoldPosition => Some(Format::Bool),
        HapType::Identify => Some(Format::Bool),
        HapType::Manufacturer => Some(Format::String),
        HapType::Model => Some(Format::String),
        HapType::Name => Some(Format::String),
        HapType::ObstructionDetected => Some(Format::Bool),
        HapType::PositionState => Some(Format::UInt8),
        HapType::SerialNumber => Some(Format::String),
        HapType::TargetHorizontalTiltAngle => Some(Format::Int32),
        HapType::TargetPosition => Some(Format::UInt8),
        HapType::TargetVerticalTiltAngle => Some(Format::Int32),
        _ => None,
    }
}

impl CharacteristicView {
    /// The characteristic has the type tag `hap_type` and the format that
    /// belongs to it.
    pub open spec fn is_kind(self, hap_type: HapType) -> bool {
        self.hap_type == hap_type && format_of(hap_type) == Some(self.format)
    }
}

impl Characteristic {
    /// Creates a new Accessory Flags Characteristic.
    pub fn accessory_flags(id: u64, accessory_id: u64) -> (c: Characteristic)
        ensures
            c@ == CharacteristicView::fresh(HapType::AccessoryFlags, Format::UInt32, id, accessory_id),
            c@.is_kind(HapType::AccessoryFlags),
    {
        Characteristic::new(HapType::AccessoryFlags, Format::UInt32, id, accessory_id)
    }

    /// Creates a new Current Horizontal Tilt Angle Characteristic.
    pub fn current_horizontal_tilt_angle(id: u64, accessory_id: u64) -> (c: Characteristic)
        ensures
            c@ == CharacteristicView::fresh(HapType::CurrentHorizontalTiltAngle, Format::Int32, id, accessory_id),
            c@.is_kind(HapType::CurrentHorizontalTiltAngle),
    {
        Characteristic::new(HapType::CurrentHorizontalTiltAngle, Format::Int32, id, accessory_id)
    }

    /// Creates a new Current Position Characteristic.
    pub fn current_position(id: u64, accessory_id: u64) -> (c: Characteristic)
        ensures
            c@ == CharacteristicView::fresh(HapType::CurrentPosition, Format::UInt8, id, accessory_id),
            c@.is_kind(HapType::CurrentPosition),
    {
        Characteristic::new(HapType::CurrentPosition, Format::UInt8, id, accessory_id)
    }

    /// Creates a new Current Vertical Tilt Angle Characteristic.
    pub fn current_vertical_tilt_angle(id: u64, accessory_id: u64) -> (c: Characteristic)
        ensures
            c@ == CharacteristicView::fresh(HapType::CurrentVerticalTiltAngle, Format::Int32, id, accessory_id),
            c@.is_kind(HapType::CurrentVerticalTiltAngle),
    {
        Characteristic::new(HapType::CurrentVerticalTiltAngle, Format::Int32, id, accessory_id)
    }

    /// Creates a new Firmware Revision Characteristic.
    pub fn firmware_revision(id: u64, accessory_id: u64) -> (c: Characteristic)
        ensures
            c@ == CharacteristicView::fresh(HapType::FirmwareRevision, Format::String, id, accessory_id),
            c@.is_kind(HapType::FirmwareRevision),
    {
        Characteristic::new(HapType::FirmwareRevision, Format::String, id, accessory_id)
    }

    /// Creates a new Hardware Revision Characteristic.
    pub fn hardware_revision(id: u64, accessory_id: u64) -> (c: Characteristic)
        ensures
            c@ == CharacteristicView::fresh(HapType::HardwareRevision, Format::String, id, accessory_id),
            c@.is_kind(HapType::HardwareRevision),
    {
        Characteristic::new(HapType::HardwareRevision, Format::String, id, accessory_id)
    }

    /// Creates a new Hold Position Characteristic.
    pub fn hold_position(id: u64, accessory_id: u64) -> (c: Characteristic)
        ensures
            c@ == CharacteristicView::fresh(HapType::HoldPosition, Format::Bool, id, accessory_id),
            c@.is_kind(HapType::HoldPosition),
    {
        Characteristic::new(HapType::HoldPosition, Format::Bool, id, accessory_id)
    }

    /// Creates a new Identify Characteristic.
    pub fn identify(id: u64, accessory_id: u64) -> (c: Characteristic)
        ensures
            c@ == CharacteristicView::fresh(HapType::Identify, Format::Bool, id, accessory_id),
            c@.is_kind(HapType::Identify),
    {
        Characteristic::new(HapType::Identify, Format::Bool, id, accessory_id)
    }

    /// Creates a new Manufacturer Characteristic.
    pub fn manufacturer(id: u64, accessory_id: u64) -> (c: Characteristic)
        ensures
            c@ == CharacteristicView::fresh(HapType::Manufacturer, Format::String, id, accessory_id),
            c@.is_kind(HapType::Manufacturer),
    {
        Characteristic::new(HapType::Manufacturer, Format::String, id, accessory_id)
    }

    /// Creates a new Model Characteristic.
    pub fn model(id: u64, accessory_id: u64) -> (c: Characteristic)
        ensures
            c@ == CharacteristicView::fresh(HapType::Model, Format::String, id, accessory_id),
            c@.is_kind(HapType::Model),
    {
        Characteristic::new(HapType::Model, Format::String, id, accessory_id)
    }

    /// Creates a new Name Characteristic.
    pub fn name(id: u64, accessory_id: u64) -> (c: Characteristic)
        ensures
            c@ == CharacteristicView::fresh(HapType::Name, Format::String, id, accessory_id),
            c@.is_kind(HapType::Name),
    {
        Characteristic::new(HapType::Name, Format::String, id, accessory_id)
    }

    /// Creates a new Obstruction Detected Characteristic.
    pub fn obstruction_detected(id: u64, accessory_id: u64) -> (c: Characteristic)
        ensures
            c@ == CharacteristicView::fresh(HapType::ObstructionDetected, Format::Bool, id, accessory_id),
            c@.is_kind(HapType::ObstructionDetected),
    {
        Characteristic::new(HapType::ObstructionDetected, Format::Bool, id, accessory_id)
    }

    /// Creates a new Position State Characteristic.
    pub fn position_state(id: u64, accessory_id: u64) -> (c: Characteristic)
        ensures
            c@ == CharacteristicView::fresh(HapType::PositionState, Format::UInt8, id, accessory_id),
            c@.is_kind(HapType::PositionState),
    {
        Characteristic::new(HapType::PositionState, Format::UInt8, id, accessory_id)
    }

    /// Creates a new Serial Number Characteristic.
    pub fn serial_number(id: u64, accessory_id: u64) -> (c: Characteristic)
        ensures
            c@ == CharacteristicView::fresh(HapType::SerialNumber, Format::String, id, accessory_id),
            c@.is_kind(HapType::SerialNumber),
    {
        Characteristic::new(HapType::SerialNumber, Format::String, id, accessory_id)
    }

    /// Creates a new Target Horizontal Tilt Angle Characteristic.
    pub fn target_horizontal_tilt_angle(id: u64, accessory_id: u64) -> (c: Characteristic)
        ensures
            c@ == CharacteristicView::fresh(HapType::TargetHorizontalTiltAngle, Format::Int32, id, accessory_id),
            c@.is_kind(HapType::TargetHorizontalTiltAngle),
    {
        Characteristic::new(HapType::TargetHorizontalTiltAngle, Format::Int32, id, accessory_id)
    }

    /// Creates a new Target Position Characteristic.
    pub fn target_position(id: u64, accessory_id: u64) -> (c: Characteristic)
        ensures
            c@ == CharacteristicView::fresh(HapType::TargetPosition, Format::UInt8, id, accessory_id),
            c@.is_kind(HapType::TargetPosition),
    {
        Characteristic::new(HapType::TargetPosition, Format::UInt8, id, accessory_id)
    }

    /// Creates a new Target Vertical Tilt Angle Characteristic.
    pub fn target_vertical_tilt_angle(id: u64, accessory_id: u64) -> (c: Characteristic)
        ensures
            c@ == CharacteristicView::fresh(HapType::TargetVerticalTiltAngle, Format::Int32, id, accessory_id),
            c@.is_kind(HapType::TargetVerticalTiltAngle),
    {
        Characteristic::new(HapType::TargetVerticalTiltAngle, Format::Int32, id, accessory_id)
    }
}

} // verus!
