//! The description of an accessory and its conversion to the Accessory
//! Information Service.

use vstd::prelude::*;
use crate::characteristic::{Characteristic, CharacteristicView, Format, Value, ValueView};
use crate::error::HapError;
use crate::hap_type::HapType;
use crate::service::accessory_information::AccessoryInformationService;
use crate::service::laws::lemma_ids_unique;
use crate::service::{lemma_present_push, HapService, ServiceView};

verus! {

/// The `AccessoryInformation` struct is used to store metadata about an
/// Accessory and is converted to the Accessory Information Service of the
/// Accessory it is passed to on its creation.
#[derive(Debug)]
pub struct AccessoryInformation {
    /// Contains the name of the company whose brand will appear on the
    /// Accessory, e.g., "Acme".
    pub manufacturer: String,
    /// Contains the manufacturer-specific model of the Accessory, e.g. "A1234".
    pub model: String,
    /// Describes the name of the Accessory.
    pub name: String,
    /// Contains the manufacturer-specific serial number of the Accessory,
    /// e.g. "1A2B3C4D5E6F". The length must be greater than 1.
    pub serial_number: String,
    /// Describes a firmware revision string x[.y[.z]] (e.g. "100.1.1").
    /// The value must change after every firmware update.
    pub firmware_revision: String,
    /// Describes a hardware revision string x[.y[.z]] (e.g. "100.1.1"),
    /// tracked when the board or components of the same accessory are changed.
    pub hardware_revision: Option<String>,
    /// When set indicates accessory requires additional setup.
    pub accessory_flags: Option<u32>,
}

impl AccessoryInformation {
    /// The content of the Accessory Information Service, with the identifier
    /// `id` in the accessory `accessory_id`, that holds this information.
    ///
    /// The six required characteristics have the identifiers that follow
    /// `id`. The hardware revision, if there is one, has the seventh
    /// identifier after `id`, and the accessory flags, if there are any, the
    /// eighth.
    pub open spec fn service(self, id: u64, accessory_id: u64) -> ServiceView {
        let fresh = AccessoryInformationService::fresh_required(id, accessory_id);
        ServiceView {
            id,
            hap_type: HapType::AccessoryInformation,
            hidden: false,
            primary: false,
            required: seq![
                fresh[0].with_value(ValueView::Bool(false)),
                fresh[1].with_value(ValueView::String(self.manufacturer@)),
                fresh[2].with_value(ValueView::String(self.model@)),
                fresh[3].with_value(ValueView::String(self.name@)),
                fresh[4].with_value(ValueView::String(self.serial_number@)),
                fresh[5].with_value(ValueView::String(self.firmware_revision@)),
            ],
            optional: seq![
                match self.hardware_revision {
                    Some(v) => Some(
                        CharacteristicView::fresh(
                            HapType::HardwareRevision,
                            Format::String,
                            (id + 7) as u64,
                            accessory_id,
                        ).with_value(ValueView::String(v@)),
                    ),
                    None => None,
                },
                match self.accessory_flags {
                    Some(v) => Some(
                        CharacteristicView::fresh(
                            HapType::AccessoryFlags,
                            Format::UInt32,
                            (id + 8) as u64,
                            accessory_id,
                        ).with_value(ValueView::Number(v as int)),
                    ),
                    None => None,
                },
            ],
        }
    }

    /// How many of the two optional fields are given.
    pub open spec fn optional_given(self) -> nat {
        (if self.hardware_revision is Some {
            1nat
        } else {
            0nat
        }) + (if self.accessory_flags is Some {
            1nat
        } else {
            0nat
        })
    }

    /// The service that holds this information enumerates the six required
    /// characteristics and one more for each optional field that is given,
    /// whatever its identifier: first the hardware revision, then the
    /// accessory flags. Every characteristic has the type tag of its field
    /// and the format that belongs to the tag.
    pub proof fn lemma_service_enumeration(self, id: u64, accessory_id: u64)
        ensures
            self.service(id, accessory_id).characteristics().len() == 6 + self.optional_given(),
            self.service(id, accessory_id).characteristics().subrange(0, 6) == self.service(
                id,
                accessory_id,
            ).required,
            self.hardware_revision is Some ==> Some(
                self.service(id, accessory_id).characteristics()[6],
            ) == self.service(id, accessory_id).optional[0],
            self.accessory_flags is Some ==> Some(
                self.service(id, accessory_id).characteristics().last(),
            ) == self.service(id, accessory_id).optional[1],
            self.service(id, accessory_id).well_typed(
                AccessoryInformationService::required_kinds(),
                AccessoryInformationService::optional_kinds(),
            ),
    {
        let service = self.service(id, accessory_id);
        let none = Seq::<Option<CharacteristicView>>::empty();
        lemma_present_push(none, service.optional[0]);
        lemma_present_push(none.push(service.optional[0]), service.optional[1]);
        assert(service.optional =~= none.push(service.optional[0]).push(service.optional[1]));
    }

    /// A record with optional fields gives a service with as many
    /// characteristics more than the same record without them as optional
    /// fields are given: two more with both, one more with one.
    pub proof fn lemma_optional_fields_add(
        self,
        without: AccessoryInformation,
        id: u64,
        accessory_id: u64,
    )
        requires
            without.hardware_revision is None,
            without.accessory_flags is None,
        ensures
            self.service(id, accessory_id).characteristics().len() == without.service(
                id,
                accessory_id,
            ).characteristics().len() + self.optional_given(),
    {
        self.lemma_service_enumeration(id, accessory_id);
        without.lemma_service_enumeration(id, accessory_id);
    }

    /// Where the identifiers fit, all characteristics of the service that
    /// holds this information have identifiers among the eight that follow
    /// the identifier of the service, and no two the same: the required ones
    /// the first six, the hardware revision the seventh, the accessory flags
    /// the eighth.
    pub proof fn lemma_service(self, id: u64, accessory_id: u64)
        requires
            id + 6 <= u64::MAX,
            self.hardware_revision is Some ==> id + 7 <= u64::MAX,
            self.accessory_flags is Some ==> id + 8 <= u64::MAX,
        ensures
            self.service(id, accessory_id).required_ids_assigned(),
            self.service(id, accessory_id).ids_unique(),
            self.service(id, accessory_id).ids_within(8),
    {
        let service = self.service(id, accessory_id);
        self.lemma_service_enumeration(id, accessory_id);
        let none = Seq::<Option<CharacteristicView>>::empty();
        lemma_present_push(none, service.optional[0]);
        lemma_present_push(none.push(service.optional[0]), service.optional[1]);
        lemma_ids_unique(service);
    }

    /// Converts the `AccessoryInformation` struct to an Accessory Information
    /// Service.
    ///
    /// Every value that is assigned has the format of its characteristic, so
    /// the conversion succeeds. Were an assignment refused, the error would
    /// be returned and no service.
    pub fn to_service(self, id: u64, accessory_id: u64) -> (r: Result<
        AccessoryInformationService,
        HapError,
    >)
        requires
            id + 6 <= u64::MAX,
            self.hardware_revision is Some ==> id + 7 <= u64::MAX,
            self.accessory_flags is Some ==> id + 8 <= u64::MAX,
        ensures
            r matches Ok(service) && service.view() == self.service(id, accessory_id)
                && service.view().characteristics().len() == 6 + self.optional_given()
                && (self.hardware_revision is Some ==> service.view().characteristics()[6].id
                == id + 7) && (self.accessory_flags is Some
                ==> service.view().characteristics().last().id == id + 8)
                && service.view().required_ids_assigned() && service.view().ids_unique()
                && service.well_typed(),
    {
        let ghost information = self;
        proof {
            information.lemma_service(id, accessory_id);
            information.lemma_service_enumeration(id, accessory_id);
        }
        let mut i = AccessoryInformationService::new(id, accessory_id);
        i.identify.set_value(Value::Bool(false))?;
        i.manufacturer.set_value(Value::String(self.manufacturer))?;
        i.model.set_value(Value::String(self.model))?;
        i.name.set_value(Value::String(self.name))?;
        i.serial_number.set_value(Value::String(self.serial_number))?;
        i.firmware_revision.set_value(Value::String(self.firmware_revision))?;
        if let Some(v) = self.hardware_revision {
            let mut hr = Characteristic::hardware_revision(id + 7, accessory_id);
            hr.set_value(Value::String(v))?;
            i.hardware_revision = Some(hr);
        }
        if let Some(v) = self.accessory_flags {
            let mut af = Characteristic::accessory_flags(id + 8, accessory_id);
            af.set_value(Value::Number(v as i64))?;
            i.accessory_flags = Some(af);
        }
        assert(i.view().optional =~= information.service(id, accessory_id).optional);
        Ok(i)
    }
}

impl Default for AccessoryInformation {
    fn default() -> (information: AccessoryInformation)
        ensures
            information.manufacturer@ == "undefined"@,
            information.model@ == "undefined"@,
            information.name@ == "undefined"@,
            information.serial_number@ == "undefined"@,
            information.firmware_revision@ == "undefined"@,
            information.hardware_revision is None,
            information.accessory_flags is None,
    {
        AccessoryInformation {
            manufacturer: "undefined".to_owned(),
            model: "undefined".to_owned(),
            name: "undefined".to_owned(),
            serial_number: "undefined".to_owned(),
            firmware_revision: "undefined".to_owned(),
            hardware_revision: None,
            accessory_flags: None,
        }
    }
}

} // verus!
