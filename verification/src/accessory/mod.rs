//! Accessories: what every accessory offers, the wiring of an accessory to
//! the notification sink, and the accessories themselves.

use vstd::prelude::*;
use crate::hap_type::HapType;
use crate::json::{integer_text, texts};
use crate::pointer::EventEmitter;
use crate::service::handle::{ServiceMut, ServiceRef};
use crate::service::{lemma_event_emitter_installed, set_event_emitter_on_each, HapService};

pub mod information;
pub mod laws;
pub mod lookup;
pub mod view;
pub mod window_covering;
pub mod wire;

pub use crate::accessory::information::AccessoryInformation;
pub use crate::accessory::lookup::{
    find_mut_service, find_service, service_views, service_views_mut,
};
pub use crate::accessory::view::{has_no_service, is_first_service, AccessoryView};
pub use crate::accessory::wire::{
    accessory_field_names, accessory_fields, accessory_frame, frame_accessory,
};

verus! {

/// What every accessory offers: its identifier, and the enumeration and
/// lookup of its services.
pub trait HapAccessory {
    /// The content of the accessory.
    spec fn view(&self) -> AccessoryView;

    /// Returns the ID of the Accessory.
    fn get_id(&self) -> (id: u64)
        ensures
            id == self.view().id,
    ;

    /// Sets the ID of the Accessory.
    fn set_id(&mut self, id: u64)
        ensures
            final(self).view() == (AccessoryView { id, ..old(self).view() }),
    ;

    /// Returns references to all Services of the Accessory.
    fn get_services(&self) -> (services: Vec<ServiceRef<'_>>)
        ensures
            service_views(services@) == self.view().services,
    ;

    /// Returns mutable references to the Services of the Accessory. What is
    /// written through the references becomes the content of the services;
    /// the identifier of the accessory stays.
    fn get_mut_services(&mut self) -> (services: Vec<ServiceMut<'_>>)
        ensures
            service_views_mut(services@) == old(self).view().services,
            final(self).view().id == old(self).view().id,
            final(self).view().services.len() == services@.len(),
            forall|i: int|
                0 <= i < services@.len() ==> final(self).view().services[i]
                    == match #[trigger] services@[i] {
                    ServiceMut::AccessoryInformation(s) => final(s).view(),
                    ServiceMut::WindowCovering(s) => final(s).view(),
                },
    ;

    /// Writes the wire form of the accessory. Written twice, an accessory
    /// that has not changed gives the same text.
    fn serialize(&self) -> (text: String)
        ensures
            text@ == self.view().json(),
    {
        let aid = integer_text(self.get_id() as i128);
        let services = self.get_services();
        let mut list: Vec<String> = Vec::new();
        let mut i: usize = 0;
        while i < services.len()
            invariant
                i <= services.len(),
                list@.len() == i,
                service_views(services@) == self.view().services,
                forall|j: int| 0 <= j < i ==> (#[trigger] list@[j])@ == self.view().services[j].json(),
            decreases services.len() - i,
        {
            list.push(services[i].serialize());
            i = i + 1;
        }
        assert(texts(list@) =~= Seq::new(
            self.view().services.len(),
            |i: int| self.view().services[i].json(),
        ));
        frame_accessory(aid.as_str(), &list)
    }

    /// Returns a reference to a specific Service of the Accessory if it's
    /// present on it: the first one, in the order of enumeration, whose type
    /// tag is `hap_type`.
    fn get_service(&self, hap_type: HapType) -> (found: Option<ServiceRef<'_>>)
        ensures
            match found {
                Some(s) => exists|i: int|
                    #[trigger] is_first_service(self.view().services, hap_type, i) && s.view()
                        == self.view().services[i],
                None => has_no_service(self.view().services, hap_type),
            },
    {
        let services = self.get_services();
        let found = find_service(services, hap_type);
        found
    }

    /// Returns a mutable reference to a specific Service of the Accessory if
    /// it's present on it: the first one, in the order of enumeration, whose
    /// type tag is `hap_type`. What is written through the reference becomes
    /// the content of that service; the rest of the accessory stays as it is.
    fn get_mut_service(&mut self, hap_type: HapType) -> (found: Option<ServiceMut<'_>>)
        ensures
            match found {
                Some(s) => exists|i: int|
                    #[trigger] is_first_service(old(self).view().services, hap_type, i)
                        && s.view() == old(self).view().services[i] && final(self).view() == (
                    AccessoryView {
                        id: old(self).view().id,
                        services: old(self).view().services.update(
                            i,
                            match s {
                                ServiceMut::AccessoryInformation(r) => final(r).view(),
                                ServiceMut::WindowCovering(r) => final(r).view(),
                            },
                        ),
                    }),
                None => has_no_service(old(self).view().services, hap_type) && final(self).view()
                    == old(self).view(),
            },
    {
        let ghost before = self.view();
        let ghost after = final(self).view();
        let services = self.get_mut_services();
        let ghost all = services@;
        let found = find_mut_service(services, hap_type);
        proof {
            if found is Some {
                let s = found->0;
                let i = choose|i: int|
                    #[trigger] is_first_service(service_views_mut(all), hap_type, i) && s == all[i]
                        && forall|j: int|
                        0 <= j < all.len() && j != i ==> match #[trigger] all[j] {
                            ServiceMut::AccessoryInformation(r) => *final(r) == *r,
                            ServiceMut::WindowCovering(r) => *final(r) == *r,
                        };
                assert(after.services =~= before.services.update(
                    i,
                    match s {
                        ServiceMut::AccessoryInformation(r) => final(r).view(),
                        ServiceMut::WindowCovering(r) => final(r).view(),
                    },
                ));
            } else {
                assert(after.services =~= before.services);
            }
        }
        found
    }
}

/// The wiring of an accessory to the notification sink.
pub trait HapAccessorySetup: HapAccessory {
    /// Sets an event emitter on all Characteristics of the Accessory, or
    /// clears their sink if `event_emitter` is `None`. The services and
    /// their characteristics are visited in the order of enumeration; nothing
    /// but the sinks changes.
    fn set_event_emitter_on_characteristics(&mut self, event_emitter: Option<EventEmitter>)
        ensures
            final(self).view() == old(self).view().with_event_emitter(event_emitter),
    ;
}

impl<H: HapAccessory> HapAccessorySetup for H {
    fn set_event_emitter_on_characteristics(&mut self, event_emitter: Option<EventEmitter>) {
        let ghost before = self.view();
        let ghost after = final(self).view();
        let services = self.get_mut_services();
        let ghost all = services@;
        let mut rest = services;
        while rest.len() > 0
            invariant
                rest@.len() <= all.len(),
                rest@ == all.skip(all.len() - rest@.len()),
                forall|i: int|
                    0 <= i < all.len() - rest@.len() ==> match #[trigger] all[i] {
                        ServiceMut::AccessoryInformation(s) => final(s).view()
                            == s.view().with_event_emitter(event_emitter),
                        ServiceMut::WindowCovering(s) => final(s).view()
                            == s.view().with_event_emitter(event_emitter),
                    },
            decreases rest.len(),
        {
            let ghost k = all.len() - rest@.len();
            let service = rest.remove(0);
            let characteristics = service.get_mut_characteristics();
            set_event_emitter_on_each(characteristics, event_emitter);
            proof {
                match all[k] {
                    ServiceMut::AccessoryInformation(s) => {
                        lemma_event_emitter_installed(s.view(), final(s).view(), event_emitter);
                    },
                    ServiceMut::WindowCovering(s) => {
                        lemma_event_emitter_installed(s.view(), final(s).view(), event_emitter);
                    },
                }
            }
        }
        proof {
            assert(after.services =~= before.with_event_emitter(event_emitter).services);
        }
    }
}

} // verus!
