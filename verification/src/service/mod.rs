//! Services: what every service offers, the services themselves, and the
//! rules of their composition.

use vstd::prelude::*;
use crate::characteristic::Characteristic;
use crate::hap_type::HapType;
use crate::json::{integer_text, texts};

pub mod accessory_information;
pub mod enumeration;
pub mod handle;
pub mod laws;
pub mod view;
pub mod window_covering;
pub mod wire;

pub use crate::service::enumeration::{
    enumerate, enumerate_mut, find_characteristic, find_mut_characteristic,
    set_event_emitter_on_each, slots, slots_mut, views, views_mut,
};
pub use crate::service::view::{
    count_present, has_no_match, is_first_match, lemma_event_emitter_installed,
    lemma_present_determines_slots, lemma_present_len, lemma_present_push,
    lemma_present_with_event_emitter, lemma_shape_and_characteristics_determine_service,
    lemma_with_event_emitter_characteristics, present, slot, ServiceView,
};
pub use crate::service::wire::{
    frame_service, serialize_each, service_field_names, service_fields, service_frame,
};

verus! {

/// What every service offers: its identity and flags, and the enumeration
/// and lookup of its characteristics.
pub trait HapService {
    /// The content of the service.
    spec fn view(&self) -> ServiceView;

    /// Returns the instance identifier of the service.
    fn get_id(&self) -> (id: u64)
        ensures
            id == self.view().id,
    ;

    /// Returns the type tag of the service.
    fn get_type(&self) -> (hap_type: HapType)
        ensures
            hap_type == self.view().hap_type,
    ;

    /// Returns whether the service is hidden.
    fn get_hidden(&self) -> (hidden: bool)
        ensures
            hidden == self.view().hidden,
    ;

    /// Sets whether the service is hidden.
    fn set_hidden(&mut self, hidden: bool)
        ensures
            final(self).view() == (ServiceView { hidden, ..old(self).view() }),
    ;

    /// Returns whether the service is the primary service of its accessory.
    fn get_primary(&self) -> (primary: bool)
        ensures
            primary == self.view().primary,
    ;

    /// Sets whether the service is the primary service of its accessory.
    fn set_primary(&mut self, primary: bool)
        ensures
            final(self).view() == (ServiceView { primary, ..old(self).view() }),
    ;

    /// Returns the characteristics of the service: the required ones as
    /// declared, then the optional ones that are present, as declared.
    fn get_characteristics(&self) -> (characteristics: Vec<&Characteristic>)
        ensures
            views(characteristics@) == self.view().characteristics(),
    ;

    /// Returns the characteristics of the service for writing, in the order
    /// of [`HapService::get_characteristics`]. What is written through the
    /// references becomes the content of the service; its shape stays.
    fn get_mut_characteristics(&mut self) -> (characteristics: Vec<&mut Characteristic>)
        ensures
            views_mut(characteristics@) == old(self).view().characteristics(),
            final(self).view().same_shape(old(self).view()),
            final(self).view().characteristics().len() == characteristics@.len(),
            forall|i: int|
                0 <= i < characteristics@.len() ==> final(self).view().characteristics()[i]
                    == final(#[trigger] characteristics@[i])@,
    ;

    /// Writes the wire form of the service. Written twice, a service that
    /// has not changed gives the same text.
    fn serialize(&self) -> (text: String)
        ensures
            text@ == self.view().json(),
    {
        let iid = integer_text(self.get_id() as i128);
        let characteristics = self.get_characteristics();
        let list = serialize_each(&characteristics);
        assert(texts(list@) =~= Seq::new(
            self.view().characteristics().len(),
            |i: int| self.view().characteristics()[i].json(),
        ));
        frame_service(iid.as_str(), self.get_type(), self.get_hidden(), self.get_primary(), &list)
    }

    /// Returns the first characteristic, in the order of enumeration, whose
    /// type tag is `hap_type`, if there is one.
    fn get_characteristic(&self, hap_type: HapType) -> (found: Option<&Characteristic>)
        ensures
            match found {
                Some(c) => exists|i: int|
                    #[trigger] is_first_match(self.view().characteristics(), hap_type, i) && c@
                        == self.view().characteristics()[i],
                None => has_no_match(self.view().characteristics(), hap_type),
            },
    {
        find_characteristic(self.get_characteristics(), hap_type)
    }

    /// Returns the first characteristic, in the order of enumeration, whose
    /// type tag is `hap_type`, for writing. What is written through the
    /// reference becomes the content of that characteristic; the rest of the
    /// service stays as it is.
    fn get_mut_characteristic(&mut self, hap_type: HapType) -> (found: Option<&mut Characteristic>)
        ensures
            match found {
                Some(c) => exists|i: int|
                    #[trigger] is_first_match(old(self).view().characteristics(), hap_type, i)
                        && c@ == old(self).view().characteristics()[i]
                        && final(self).view().same_shape(old(self).view())
                        && final(self).view().characteristics()
                        == old(self).view().characteristics().update(i, final(c)@),
                None => has_no_match(old(self).view().characteristics(), hap_type)
                    && final(self).view() == old(self).view(),
            },
    {
        let ghost before = self.view();
        let ghost after = final(self).view();
        let characteristics = self.get_mut_characteristics();
        let found = find_mut_characteristic(characteristics, hap_type);
        proof {
            if found is None {
                assert(after.characteristics() =~= before.characteristics());
                lemma_shape_and_characteristics_determine_service(after, before);
            }
        }
        found
    }
}

} // verus!
