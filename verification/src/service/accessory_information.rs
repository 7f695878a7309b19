//! The Accessory Information Service.

use vstd::prelude::*;
use crate::characteristic::{Characteristic, CharacteristicView, Format};
use crate::hap_type::HapType;
use crate::service::laws::{lemma_ids_unique, lemma_present_of_empty_slots};
use crate::service::{
    enumerate, enumerate_mut, slot, slots, slots_mut, HapService, ServiceView,
};

verus! {

/// Accessory Information Service.
#[derive(Debug)]
pub struct AccessoryInformationService {
    /// ID of the Accessory Information Service.
    pub(crate) id: u64,
    /// `HapType` of the Accessory Information Service.
    pub(crate) hap_type: HapType,
    /// Specifies if the Service is hidden.
    pub(crate) hidden: bool,
    /// Specifies if the Service is the primary Service of the Accessory.
    pub(crate) primary: bool,
    /// Identify Characteristic (required).
    pub identify: Characteristic,
    /// Manufacturer Characteristic (required).
    pub manufacturer: Characteristic,
    /// Model Characteristic (required).
    pub model: Characteristic,
    /// Name Characteristic (required).
    pub name: Characteristic,
    /// Serial Number Characteristic (required).
    pub serial_number: Characteristic,
    /// Firmware Revision Characteristic (required).
    pub firmware_revision: Characteristic,
    /// Hardware Revision Characteristic (optional).
    pub hardware_revision: Option<Characteristic>,
    /// Accessory Flags Characteristic (optional).
    pub accessory_flags: Option<Characteristic>,
}

impl AccessoryInformationService {
    /// The required characteristics, as declared.
    pub open(crate) spec fn required(&self) -> Seq<CharacteristicView> {
        seq![
            self.identify@,
            self.manufacturer@,
            self.model@,
            self.name@,
            self.serial_number@,
            self.firmware_revision@,
        ]
    }

    /// The slots of the optional characteristics, as declared.
    pub open(crate) spec fn optional(&self) -> Seq<Option<CharacteristicView>> {
        seq![slot(self.hardware_revision), slot(self.accessory_flags)]
    }

    /// The required characteristics of a new service with the identifier
    /// `id` in the accessory `accessory_id`.
    pub open spec fn fresh_required(id: u64, accessory_id: u64) -> Seq<CharacteristicView> {
        seq![
            CharacteristicView::fresh(
                HapType::Identify,
                Format::Bool,
                (id + 1) as u64,
                accessory_id,
            ),
            CharacteristicView::fresh(
                HapType::Manufacturer,
                Format::String,
                (id + 2) as u64,
                accessory_id,
            ),
            CharacteristicView::fresh(
                HapType::Model,
                Format::String,
                (id + 3) as u64,
                accessory_id,
            ),
            CharacteristicView::fresh(
                HapType::Name,
                Format::String,
                (id + 4) as u64,
                accessory_id,
            ),
            CharacteristicView::fresh(
                HapType::SerialNumber,
                Format::String,
                (id + 5) as u64,
                accessory_id,
            ),
            CharacteristicView::fresh(
                HapType::FirmwareRevision,
                Format::String,
                (id + 6) as u64,
                accessory_id,
            ),
        ]
    }

    /// The type tags of the required characteristics, as declared.
    pub open spec fn required_kinds() -> Seq<HapType> {
        seq![
            HapType::Identify,
            HapType::Manufacturer,
            HapType::Model,
            HapType::Name,
            HapType::SerialNumber,
            HapType::FirmwareRevision,
        ]
    }

    /// The type tags of the optional characteristics, as declared.
    pub open spec fn optional_kinds() -> Seq<HapType> {
        seq![
            HapType::HardwareRevision,
            HapType::AccessoryFlags,
        ]
    }

    /// Every characteristic of the service has the type tag of the field
    /// that holds it, and the format that belongs to the tag.
    pub open spec fn well_typed(&self) -> bool {
        self.view().well_typed(Self::required_kinds(), Self::optional_kinds())
    }

    /// The content of a new service with the identifier `id` in the accessory
    /// `accessory_id`: not hidden, not primary, its six required
    /// characteristics with the identifiers that follow `id` and nothing
    /// assigned to them, and none of the two optional ones.
    pub open spec fn fresh(id: u64, accessory_id: u64) -> ServiceView {
        ServiceView {
            id,
            hap_type: HapType::AccessoryInformation,
            hidden: false,
            primary: false,
            required: Self::fresh_required(id, accessory_id),
            optional: Seq::new(2, |k: int| None::<CharacteristicView>),
        }
    }

    /// A new service enumerates its six required characteristics and no
    /// other; they have the six identifiers that follow the identifier of the
    /// service, so no two of them have the same.
    pub proof fn lemma_fresh(id: u64, accessory_id: u64)
        requires
            id + 6 <= u64::MAX,
        ensures
            Self::fresh(id, accessory_id).characteristics() == Self::fresh(
                id,
                accessory_id,
            ).required,
            Self::fresh(id, accessory_id).required_ids_assigned(),
            Self::fresh(id, accessory_id).ids_unique(),
            Self::fresh(id, accessory_id).ids_within(6),
            Self::fresh(id, accessory_id).well_typed(
                Self::required_kinds(),
                Self::optional_kinds(),
            ),
    {
        let fresh = Self::fresh(id, accessory_id);
        lemma_present_of_empty_slots(fresh.optional);
        lemma_ids_unique(fresh);
    }

    /// Creates a new Accessory Information Service.
    pub fn new(id: u64, accessory_id: u64) -> (service: AccessoryInformationService)
        requires
            id + 6 <= u64::MAX,
        ensures
            service.view() == Self::fresh(id, accessory_id),
            service.view().required_ids_assigned(),
            service.view().ids_unique(),
            service.well_typed(),
    {
        proof {
            Self::lemma_fresh(id, accessory_id);
        }
        let service = AccessoryInformationService {
            id,
            hap_type: HapType::AccessoryInformation,
            hidden: false,
            primary: false,
            identify: Characteristic::identify(id + 1 + 0, accessory_id),
            manufacturer: Characteristic::manufacturer(id + 1 + 1, accessory_id),
            model: Characteristic::model(id + 1 + 2, accessory_id),
            name: Characteristic::name(id + 1 + 3, accessory_id),
            serial_number: Characteristic::serial_number(id + 1 + 4, accessory_id),
            firmware_revision: Characteristic::firmware_revision(id + 1 + 5, accessory_id),
            hardware_revision: None,
            accessory_flags: None,
        };
        assert(service.view().optional =~= Seq::new(2, |k: int| None::<CharacteristicView>));
        service
    }

    /// Sets the Hardware Revision Characteristic, or removes it. Nothing else of
    /// the service changes; the service stays well typed if what is set is a
    /// Hardware Revision Characteristic.
    pub fn set_hardware_revision(&mut self, characteristic: Option<Characteristic>)
        ensures
            final(self).view() == (ServiceView {
                optional: old(self).view().optional.update(0, slot(characteristic)),
                ..old(self).view()
            }),
            old(self).well_typed() && (characteristic matches Some(c) ==> c@.is_kind(
                HapType::HardwareRevision,
            )) ==> final(self).well_typed(),
    {
        self.hardware_revision = characteristic;
        assert(self.view().optional =~= old(self).view().optional.update(
            0,
            slot(characteristic),
        ));
    }

    /// Sets the Accessory Flags Characteristic, or removes it. Nothing else of
    /// the service changes; the service stays well typed if what is set is a
    /// Accessory Flags Characteristic.
    pub fn set_accessory_flags(&mut self, characteristic: Option<Characteristic>)
        ensures
            final(self).view() == (ServiceView {
                optional: old(self).view().optional.update(1, slot(characteristic)),
                ..old(self).view()
            }),
            old(self).well_typed() && (characteristic matches Some(c) ==> c@.is_kind(
                HapType::AccessoryFlags,
            )) ==> final(self).well_typed(),
    {
        self.accessory_flags = characteristic;
        assert(self.view().optional =~= old(self).view().optional.update(
            1,
            slot(characteristic),
        ));
    }
}

impl HapService for AccessoryInformationService {
    open(crate) spec fn view(&self) -> ServiceView {
        ServiceView {
            id: self.id,
            hap_type: self.hap_type,
            hidden: self.hidden,
            primary: self.primary,
            required: self.required(),
            optional: self.optional(),
        }
    }

    fn get_id(&self) -> (id: u64) {
        self.id
    }

    fn get_type(&self) -> (hap_type: HapType) {
        self.hap_type
    }

    fn get_hidden(&self) -> (hidden: bool) {
        self.hidden
    }

    fn set_hidden(&mut self, hidden: bool) {
        self.hidden = hidden;
    }

    fn get_primary(&self) -> (primary: bool) {
        self.primary
    }

    fn set_primary(&mut self, primary: bool) {
        self.primary = primary;
    }

    fn get_characteristics(&self) -> (characteristics: Vec<&Characteristic>) {
        let required: Vec<&Characteristic> = vec![
            &self.identify,
            &self.manufacturer,
            &self.model,
            &self.name,
            &self.serial_number,
            &self.firmware_revision,
        ];
        let optional: Vec<&Option<Characteristic>> = vec![
            &self.hardware_revision,
            &self.accessory_flags,
        ];
        assert(slots(optional@) =~= self.optional());
        enumerate(required, optional)
    }

    fn get_mut_characteristics(&mut self) -> (characteristics: Vec<&mut Characteristic>) {
        let ghost before = *self;
        let ghost after = *final(self);
        let required: Vec<&mut Characteristic> = vec![
            &mut self.identify,
            &mut self.manufacturer,
            &mut self.model,
            &mut self.name,
            &mut self.serial_number,
            &mut self.firmware_revision,
        ];
        let optional: Vec<&mut Option<Characteristic>> = vec![
            &mut self.hardware_revision,
            &mut self.accessory_flags,
        ];
        proof {
            assert(slots_mut(optional@) =~= before.optional());
            assert(Seq::new(required@.len(), |i: int| final(required@[i])@) =~= after.required());
            assert(Seq::new(optional@.len(), |k: int| slot(*final(optional@[k])))
                =~= after.optional());
        }
        enumerate_mut(required, optional)
    }
}

} // verus!
