//! The Window Covering Service.

use vstd::prelude::*;
use crate::characteristic::{Characteristic, CharacteristicView, Format};
use crate::hap_type::HapType;
use crate::service::laws::{lemma_ids_unique, lemma_present_of_empty_slots};
use crate::service::{
    enumerate, enumerate_mut, slot, slots, slots_mut, HapService, ServiceView,
};

verus! {

/// Window Covering Service.
#[derive(Debug)]
pub struct WindowCoveringService {
    /// ID of the Window Covering Service.
    pub(crate) id: u64,
    /// `HapType` of the Window Covering Service.
    pub(crate) hap_type: HapType,
    /// Specifies if the Service is hidden.
    pub(crate) hidden: bool,
    /// Specifies if the Service is the primary Service of the Accessory.
    pub(crate) primary: bool,
    /// Current Position Characteristic (required).
    pub current_position: Characteristic,
    /// Target Position Characteristic (required).
    pub target_position: Characteristic,
    /// Position State Characteristic (required).
    pub position_state: Characteristic,
    /// Hold Position Characteristic (optional).
    pub hold_position: Option<Characteristic>,
    /// Target Horizontal Tilt Angle Characteristic (optional).
    pub target_horizontal_tilt_angle: Option<Characteristic>,
    /// Target Vertical Tilt Angle Characteristic (optional).
    pub target_vertical_tilt_angle: Option<Characteristic>,
    /// Current Horizontal Tilt Angle Characteristic (optional).
    pub current_horizontal_tilt_angle: Option<Characteristic>,
    /// Current Vertical Tilt Angle Characteristic (optional).
    pub current_vertical_tilt_angle: Option<Characteristic>,
    /// Obstruction Detected Characteristic (optional).
    pub obstruction_detected: Option<Characteristic>,
    /// Name Characteristic (optional).
    pub name: Option<Characteristic>,
}

impl WindowCoveringService {
    /// The required characteristics, as declared.
    pub open(crate) spec fn required(&self) -> Seq<CharacteristicView> {
        seq![self.current_position@, self.target_position@, self.position_state@]
    }

    /// The slots of the optional characteristics, as declared.
    pub open(crate) spec fn optional(&self) -> Seq<Option<CharacteristicView>> {
        seq![
            slot(self.hold_position),
            slot(self.target_horizontal_tilt_angle),
            slot(self.target_vertical_tilt_angle),
            slot(self.current_horizontal_tilt_angle),
            slot(self.current_vertical_tilt_angle),
            slot(self.obstruction_detected),
            slot(self.name),
        ]
    }

    /// The type tags of the required characteristics, as declared.
    pub open spec fn required_kinds() -> Seq<HapType> {
        seq![
            HapType::CurrentPosition,
            HapType::TargetPosition,
            HapType::PositionState,
        ]
    }

    /// The type tags of the optional characteristics, as declared.
    pub open spec fn optional_kinds() -> Seq<HapType> {
        seq![
            HapType::HoldPosition,
            HapType::TargetHorizontalTiltAngle,
            HapType::TargetVerticalTiltAngle,
            HapType::CurrentHorizontalTiltAngle,
            HapType::CurrentVerticalTiltAngle,
            HapType::ObstructionDetected,
            HapType::Name,
        ]
    }

    /// Every characteristic of the service has the type tag of the field
    /// that holds it, and the format that belongs to the tag.
    pub open spec fn well_typed(&self) -> bool {
        self.view().well_typed(Self::required_kinds(), Self::optional_kinds())
    }

    /// The content of a new service with the identifier `id` in the accessory
    /// `accessory_id`: not hidden, not primary, its three required
    /// characteristics with the identifiers that follow `id` and nothing
    /// assigned to them, and none of the seven optional ones.
    pub open spec fn fresh(id: u64, accessory_id: u64) -> ServiceView {
        ServiceView {
            id,
            hap_type: HapType::WindowCovering,
            hidden: false,
            primary: false,
            required: seq![
                CharacteristicView::fresh(
                    HapType::CurrentPosition,
                    Format::UInt8,
                    (id + 1) as u64,
                    accessory_id,
                ),
                CharacteristicView::fresh(
                    HapType::TargetPosition,
                    Format::UInt8,
                    (id + 2) as u64,
                    accessory_id,
                ),
                CharacteristicView::fresh(
                    HapType::PositionState,
                    Format::UInt8,
                    (id + 3) as u64,
                    accessory_id,
                ),
            ],
            optional: Seq::new(7, |k: int| None::<CharacteristicView>),
        }
    }

    /// A new service enumerates its three required characteristics and no
    /// other; they have the three identifiers that follow the identifier of
    /// the service, so no two of them have the same.
    pub proof fn lemma_fresh(id: u64, accessory_id: u64)
        requires
            id + 3 <= u64::MAX,
        ensures
            Self::fresh(id, accessory_id).characteristics() == Self::fresh(
                id,
                accessory_id,
            ).required,
            Self::fresh(id, accessory_id).required_ids_assigned(),
            Self::fresh(id, accessory_id).ids_unique(),
            Self::fresh(id, accessory_id).ids_within(3),
            Self::fresh(id, accessory_id).well_typed(
                Self::required_kinds(),
                Self::optional_kinds(),
            ),
    {
        let fresh = Self::fresh(id, accessory_id);
        lemma_present_of_empty_slots(fresh.optional);
        lemma_ids_unique(fresh);
    }

    /// Creates a new Window Covering Service.
    pub fn new(id: u64, accessory_id: u64) -> (service: WindowCoveringService)
        requires
            id + 3 <= u64::MAX,
        ensures
            service.view() == Self::fresh(id, accessory_id),
            service.view().required_ids_assigned(),
            service.view().ids_unique(),
            service.well_typed(),
    {
        proof {
            Self::lemma_fresh(id, accessory_id);
        }
        let service = WindowCoveringService {
            id,
            hap_type: HapType::WindowCovering,
            hidden: false,
            primary: false,
            current_position: Characteristic::current_position(id + 1 + 0, accessory_id),
            target_position: Characteristic::target_position(id + 1 + 1, accessory_id),
            position_state: Characteristic::position_state(id + 1 + 2, accessory_id),
            hold_position: None,
            target_horizontal_tilt_angle: None,
            target_vertical_tilt_angle: None,
            current_horizontal_tilt_angle: None,
            current_vertical_tilt_angle: None,
            obstruction_detected: None,
            name: None,
        };
        assert(service.view().optional =~= Self::fresh(id, accessory_id).optional);
        service
    }

    /// Sets the Hold Position Characteristic, or removes it. Nothing else of
    /// the service changes; the service stays well typed if what is set is a
    /// Hold Position Characteristic.
    pub fn set_hold_position(&mut self, characteristic: Option<Characteristic>)
        ensures
            final(self).view() == (ServiceView {
                optional: old(self).view().optional.update(0, slot(characteristic)),
                ..old(self).view()
            }),
            old(self).well_typed() && (characteristic matches Some(c) ==> c@.is_kind(
                HapType::HoldPosition,
            )) ==> final(self).well_typed(),
    {
        self.hold_position = characteristic;
        assert(self.view().optional =~= old(self).view().optional.update(
            0,
            slot(characteristic),
        ));
    }

    /// Sets the Target Horizontal Tilt Angle Characteristic, or removes it. Nothing else of
    /// the service changes; the service stays well typed if what is set is a
    /// Target Horizontal Tilt Angle Characteristic.
    pub fn set_target_horizontal_tilt_angle(&mut self, characteristic: Option<Characteristic>)
        ensures
            final(self).view() == (ServiceView {
                optional: old(self).view().optional.update(1, slot(characteristic)),
                ..old(self).view()
            }),
            old(self).well_typed() && (characteristic matches Some(c) ==> c@.is_kind(
                HapType::TargetHorizontalTiltAngle,
            )) ==> final(self).well_typed(),
    {
        self.target_horizontal_tilt_angle = characteristic;
        assert(self.view().optional =~= old(self).view().optional.update(
            1,
            slot(characteristic),
        ));
    }

    /// Sets the Target Vertical Tilt Angle Characteristic, or removes it. Nothing else of
    /// the service changes; the service stays well typed if what is set is a
    /// Target Vertical Tilt Angle Characteristic.
    pub fn set_target_vertical_tilt_angle(&mut self, characteristic: Option<Characteristic>)
        ensures
            final(self).view() == (ServiceView {
                optional: old(self).view().optional.update(2, slot(characteristic)),
                ..old(self).view()
            }),
            old(self).well_typed() && (characteristic matches Some(c) ==> c@.is_kind(
                HapType::TargetVerticalTiltAngle,
            )) ==> final(self).well_typed(),
    {
        self.target_vertical_tilt_angle = characteristic;
        assert(self.view().optional =~= old(self).view().optional.update(
            2,
            slot(characteristic),
        ));
    }

    /// Sets the Current Horizontal Tilt Angle Characteristic, or removes it. Nothing else of
    /// the service changes; the service stays well typed if what is set is a
    /// Current Horizontal Tilt Angle Characteristic.
    pub fn set_current_horizontal_tilt_angle(&mut self, characteristic: Option<Characteristic>)
        ensures
            final(self).view() == (ServiceView {
                optional: old(self).view().optional.update(3, slot(characteristic)),
                ..old(self).view()
            }),
            old(self).well_typed() && (characteristic matches Some(c) ==> c@.is_kind(
                HapType::CurrentHorizontalTiltAngle,
            )) ==> final(self).well_typed(),
    {
        self.current_horizontal_tilt_angle = characteristic;
        assert(self.view().optional =~= old(self).view().optional.update(
            3,
            slot(characteristic),
        ));
    }

    /// Sets the Current Vertical Tilt Angle Characteristic, or removes it. Nothing else of
    /// the service changes; the service stays well typed if what is set is a
    /// Current Vertical Tilt Angle Characteristic.
    pub fn set_current_vertical_tilt_angle(&mut self, characteristic: Option<Characteristic>)
        ensures
            final(self).view() == (ServiceView {
                optional: old(self).view().optional.update(4, slot(characteristic)),
                ..old(self).view()
            }),
            old(self).well_typed() && (characteristic matches Some(c) ==> c@.is_kind(
                HapType::CurrentVerticalTiltAngle,
            )) ==> final(self).well_typed(),
    {
        self.current_vertical_tilt_angle = characteristic;
        assert(self.view().optional =~= old(self).view().optional.update(
            4,
            slot(characteristic),
        ));
    }

    /// Sets the Obstruction Detected Characteristic, or removes it. Nothing else of
    /// the service changes; the service stays well typed if what is set is a
    /// Obstruction Detected Characteristic.
    pub fn set_obstruction_detected(&mut self, characteristic: Option<Characteristic>)
        ensures
            final(self).view() == (ServiceView {
                optional: old(self).view().optional.update(5, slot(characteristic)),
                ..old(self).view()
            }),
            old(self).well_typed() && (characteristic matches Some(c) ==> c@.is_kind(
                HapType::ObstructionDetected,
            )) ==> final(self).well_typed(),
    {
        self.obstruction_detected = characteristic;
        assert(self.view().optional =~= old(self).view().optional.update(
            5,
            slot(characteristic),
        ));
    }

    /// Sets the Name Characteristic, or removes it. Nothing else of
    /// the service changes; the service stays well typed if what is set is a
    /// Name Characteristic.
    pub fn set_name(&mut self, characteristic: Option<Characteristic>)
        ensures
            final(self).view() == (ServiceView {
                optional: old(self).view().optional.update(6, slot(characteristic)),
                ..old(self).view()
            }),
            old(self).well_typed() && (characteristic matches Some(c) ==> c@.is_kind(
                HapType::Name,
            )) ==> final(self).well_typed(),
    {
        self.name = characteristic;
        assert(self.view().optional =~= old(self).view().optional.update(
            6,
            slot(characteristic),
        ));
    }
}

impl HapService for WindowCoveringService {
    open(crate) spec fn view(&self) -> ServiceView {
        ServiceView {
            id: self.id,
            hap_type: self.hap_type,
            hidden: self.hidden,
            primary: self.primary,
            required: self.required(),
            optional: self.optional(),
        }
    }

    fn get_id(&self) -> (id: u64) {
        self.id
    }

    fn get_type(&self) -> (hap_type: HapType) {
        self.hap_type
    }

    fn get_hidden(&self) -> (hidden: bool) {
        self.hidden
    }

    fn set_hidden(&mut self, hidden: bool) {
        self.hidden = hidden;
    }

    fn get_primary(&self) -> (primary: bool) {
        self.primary
    }

    fn set_primary(&mut self, primary: bool) {
        self.primary = primary;
    }

    fn get_characteristics(&self) -> (characteristics: Vec<&Characteristic>) {
        let required: Vec<&Characteristic> = vec![
            &self.current_position,
            &self.target_position,
            &self.position_state,
        ];
        let optional: Vec<&Option<Characteristic>> = vec![
            &self.hold_position,
            &self.target_horizontal_tilt_angle,
            &self.target_vertical_tilt_angle,
            &self.current_horizontal_tilt_angle,
            &self.current_vertical_tilt_angle,
            &self.obstruction_detected,
            &self.name,
        ];
        assert(slots(optional@) =~= self.optional());
        enumerate(required, optional)
    }

    fn get_mut_characteristics(&mut self) -> (characteristics: Vec<&mut Characteristic>) {
        let ghost before = *self;
        let ghost after = *final(self);
        let required: Vec<&mut Characteristic> = vec![
            &mut self.current_position,
            &mut self.target_position,
            &mut self.position_state,
        ];
        let optional: Vec<&mut Option<Characteristic>> = vec![
            &mut self.hold_position,
            &mut self.target_horizontal_tilt_angle,
            &mut self.target_vertical_tilt_angle,
            &mut self.current_horizontal_tilt_angle,
            &mut self.current_vertical_tilt_angle,
            &mut self.obstruction_detected,
            &mut self.name,
        ];
        proof {
            assert(slots_mut(optional@) =~= before.optional());
            assert(Seq::new(required@.len(), |i: int| final(required@[i])@) =~= after.required());
            assert(Seq::new(optional@.len(), |k: int| slot(*final(optional@[k])))
                =~= after.optional());
        }
        enumerate_mut(required, optional)
    }
}

} // verus!
