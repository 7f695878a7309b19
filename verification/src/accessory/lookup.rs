//! Lookup of a service by its type tag in a list of references.

use vstd::prelude::*;
use crate::accessory::view::{has_no_service, is_first_service};
use crate::hap_type::HapType;
use crate::service::handle::{ServiceMut, ServiceRef};
use crate::service::ServiceView;

verus! {

/// The contents of the services that `refs` point to.
pub open spec fn service_views(refs: Seq<ServiceRef>) -> Seq<ServiceView> {
    Seq::new(refs.len(), |i: int| refs[i].view())
}

/// The contents, as they are now, of the services that `refs` point to.
pub open spec fn service_views_mut(refs: Seq<ServiceMut>) -> Seq<ServiceView> {
    Seq::new(refs.len(), |i: int| refs[i].view())
}

/// Returns the first of `services` whose type tag is `hap_type`.
pub fn find_service<'a>(services: Vec<ServiceRef<'a>>, hap_type: HapType) -> (found: Option<
    ServiceRef<'a>,
>)
    ensures
        match found {
            Some(s) => exists|i: int|
                #[trigger] is_first_service(service_views(services@), hap_type, i) && s
                    == services@[i],
            None => has_no_service(service_views(services@), hap_type),
        },
{
    let ghost all = services@;
    let mut rest = services;
    while rest.len() > 0
        invariant
            all == services@,
            rest@.len() <= all.len(),
            rest@ == all.skip(all.len() - rest@.len()),
            forall|j: int|
                0 <= j < all.len() - rest@.len() ==> (#[trigger] service_views(all)[j]).hap_type
                    != hap_type,
        decreases rest.len(),
    {
        let ghost k = all.len() - rest@.len();
        let service = rest.remove(0);
        if service.get_type() == hap_type {
            assert(is_first_service(service_views(all), hap_type, k));
            return Some(service);
        }
    }
    None
}

/// Returns the first of `services` whose type tag is `hap_type`, for
/// writing. The services behind the other references stay as they are.
pub fn find_mut_service<'a>(services: Vec<ServiceMut<'a>>, hap_type: HapType) -> (found: Option<
    ServiceMut<'a>,
>)
    ensures
        match found {
            Some(s) => exists|i: int|
                #[trigger] is_first_service(service_views_mut(services@), hap_type, i) && s
                    == services@[i] && forall|j: int|
                    0 <= j < services@.len() && j != i ==> match #[trigger] services@[j] {
                        ServiceMut::AccessoryInformation(r) => *final(r) == *r,
                        ServiceMut::WindowCovering(r) => *final(r) == *r,
                    },
            None => has_no_service(service_views_mut(services@), hap_type) && forall|j: int|
                0 <= j < services@.len() ==> match #[trigger] services@[j] {
                    ServiceMut::AccessoryInformation(r) => *final(r) == *r,
                    ServiceMut::WindowCovering(r) => *final(r) == *r,
                },
        },
{
    let ghost all = services@;
    let mut rest = services;
    while rest.len() > 0
        invariant
            all == services@,
            rest@.len() <= all.len(),
            rest@ == all.skip(all.len() - rest@.len()),
            forall|j: int|
                0 <= j < all.len() - rest@.len() ==> (#[trigger] service_views_mut(
                    all,
                )[j]).hap_type != hap_type,
            forall|j: int|
                0 <= j < all.len() - rest@.len() ==> match #[trigger] all[j] {
                    ServiceMut::AccessoryInformation(r) => *final(r) == *r,
                    ServiceMut::WindowCovering(r) => *final(r) == *r,
                },
        decreases rest.len(),
    {
        let ghost k = all.len() - rest@.len();
        let service = rest.remove(0);
        if service.get_type() == hap_type {
            assert(is_first_service(service_views_mut(all), hap_type, k));
            assert forall|j: int| 0 <= j < all.len() && j != k implies match #[trigger] all[j] {
                ServiceMut::AccessoryInformation(r) => *final(r) == *r,
                ServiceMut::WindowCovering(r) => *final(r) == *r,
            } by {
                if j > k {
                    assert(rest@[j - k - 1] == all[j]);
                }
            }
            return Some(service);
        }
    }
    None
}

} // verus!
