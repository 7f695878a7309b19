//! The mathematical content of an accessory.

use vstd::prelude::*;
use crate::accessory::wire::accessory_frame;
use crate::hap_type::HapType;
use crate::json::decimal;
use crate::pointer::EventEmitter;
use crate::service::ServiceView;

verus! {

/// Mathematical content of an accessory: its identifier and its services in
/// the order of enumeration.
pub struct AccessoryView {
    pub id: u64,
    pub services: Seq<ServiceView>,
}

impl AccessoryView {
    /// The wire form of the accessory: the field `aid`, then the field
    /// `services` with the wire forms of the services in the order of
    /// enumeration.
    pub open spec fn json(self) -> Seq<char> {
        accessory_frame(
            decimal(self.id as int),
            Seq::new(self.services.len(), |i: int| self.services[i].json()),
        )
    }

    /// The same accessory, each characteristic of each of its services
    /// reporting to `event_emitter`.
    pub open spec fn with_event_emitter(self, event_emitter: Option<EventEmitter>) -> AccessoryView {
        AccessoryView {
            id: self.id,
            services: Seq::new(
                self.services.len(),
                |i: int| self.services[i].with_event_emitter(event_emitter),
            ),
        }
    }

    /// No two services of the accessory have the same identifier.
    pub open spec fn service_ids_unique(self) -> bool {
        forall|i: int, j: int|
            0 <= i < j < self.services.len() ==> (#[trigger] self.services[i]).id != (
            #[trigger] self.services[j]).id
    }

    /// No characteristic of one service has the identifier of a
    /// characteristic of another service.
    pub open spec fn characteristic_ids_apart(self) -> bool {
        forall|i: int, j: int, a: int, b: int|
            0 <= i < self.services.len() && 0 <= j < self.services.len() && i != j && 0 <= a
                < self.services[i].characteristics().len() && 0 <= b
                < self.services[j].characteristics().len() ==> (
            #[trigger] self.services[i].characteristics()[a]).id != (
            #[trigger] self.services[j].characteristics()[b]).id
    }
}

/// `i` is the place of the first of `services` whose type tag is `hap_type`.
pub open spec fn is_first_service(services: Seq<ServiceView>, hap_type: HapType, i: int) -> bool {
    &&& 0 <= i < services.len()
    &&& services[i].hap_type == hap_type
    &&& forall|j: int| 0 <= j < i ==> (#[trigger] services[j]).hap_type != hap_type
}

/// None of `services` has the type tag `hap_type`.
pub open spec fn has_no_service(services: Seq<ServiceView>, hap_type: HapType) -> bool {
    forall|j: int| 0 <= j < services.len() ==> (#[trigger] services[j]).hap_type != hap_type
}

} // verus!
