//! References to services of any kind, as an accessory hands them out.

use vstd::prelude::*;
use crate::characteristic::Characteristic;
use crate::hap_type::HapType;
use crate::service::accessory_information::AccessoryInformationService;
use crate::service::window_covering::WindowCoveringService;
use crate::service::{has_no_match, is_first_match, views, views_mut, HapService, ServiceView};

verus! {

/// A reference to a service of any kind.
#[derive(Clone, Copy, Debug)]
pub enum ServiceRef<'a> {
    AccessoryInformation(&'a AccessoryInformationService),
    WindowCovering(&'a WindowCoveringService),
}

/// A reference for writing to a service of any kind.
#[derive(Debug)]
pub enum ServiceMut<'a> {
    AccessoryInformation(&'a mut AccessoryInformationService),
    WindowCovering(&'a mut WindowCoveringService),
}

impl<'a> ServiceRef<'a> {
    /// The content of the service.
    pub open spec fn view(self) -> ServiceView {
        match self {
            ServiceRef::AccessoryInformation(s) => s.view(),
            ServiceRef::WindowCovering(s) => s.view(),
        }
    }

    /// Returns the instance identifier of the service.
    pub fn get_id(&self) -> (id: u64)
        ensures
            id == self.view().id,
    {
        match self {
            ServiceRef::AccessoryInformation(s) => s.get_id(),
            ServiceRef::WindowCovering(s) => s.get_id(),
        }
    }

    /// Returns the type tag of the service.
    pub fn get_type(&self) -> (hap_type: HapType)
        ensures
            hap_type == self.view().hap_type,
    {
        match self {
            ServiceRef::AccessoryInformation(s) => s.get_type(),
            ServiceRef::WindowCovering(s) => s.get_type(),
        }
    }

    /// Returns whether the service is hidden.
    pub fn get_hidden(&self) -> (hidden: bool)
        ensures
            hidden == self.view().hidden,
    {
        match self {
            ServiceRef::AccessoryInformation(s) => s.get_hidden(),
            ServiceRef::WindowCovering(s) => s.get_hidden(),
        }
    }

    /// Returns whether the service is the primary service of its accessory.
    pub fn get_primary(&self) -> (primary: bool)
        ensures
            primary == self.view().primary,
    {
        match self {
            ServiceRef::AccessoryInformation(s) => s.get_primary(),
            ServiceRef::WindowCovering(s) => s.get_primary(),
        }
    }

    /// Writes the wire form of the service.
    pub fn serialize(&self) -> (text: String)
        ensures
            text@ == self.view().json(),
    {
        match self {
            ServiceRef::AccessoryInformation(s) => s.serialize(),
            ServiceRef::WindowCovering(s) => s.serialize(),
        }
    }

    /// Returns the characteristics of the service in the order of enumeration.
    pub fn get_characteristics(&self) -> (characteristics: Vec<&'a Characteristic>)
        ensures
            views(characteristics@) == self.view().characteristics(),
    {
        match self {
            ServiceRef::AccessoryInformation(s) => s.get_characteristics(),
            ServiceRef::WindowCovering(s) => s.get_characteristics(),
        }
    }

    /// Returns the first characteristic of the service whose type tag is
    /// `hap_type`, if there is one.
    pub fn get_characteristic(&self, hap_type: HapType) -> (found: Option<&'a Characteristic>)
        ensures
            match found {
                Some(c) => exists|i: int|
                    #[trigger] is_first_match(self.view().characteristics(), hap_type, i) && c@
                        == self.view().characteristics()[i],
                None => has_no_match(self.view().characteristics(), hap_type),
            },
    {
        match self {
            ServiceRef::AccessoryInformation(s) => s.get_characteristic(hap_type),
            ServiceRef::WindowCovering(s) => s.get_characteristic(hap_type),
        }
    }
}

impl<'a> ServiceMut<'a> {
    /// The content of the service as it is now.
    pub open spec fn view(self) -> ServiceView {
        match self {
            ServiceMut::AccessoryInformation(s) => s.view(),
            ServiceMut::WindowCovering(s) => s.view(),
        }
    }

    /// Returns the instance identifier of the service.
    pub fn get_id(&self) -> (id: u64)
        ensures
            id == self.view().id,
    {
        match self {
            ServiceMut::AccessoryInformation(s) => s.get_id(),
            ServiceMut::WindowCovering(s) => s.get_id(),
        }
    }

    /// Returns the type tag of the service.
    pub fn get_type(&self) -> (hap_type: HapType)
        ensures
            hap_type == self.view().hap_type,
    {
        match self {
            ServiceMut::AccessoryInformation(s) => s.get_type(),
            ServiceMut::WindowCovering(s) => s.get_type(),
        }
    }

    /// Returns whether the service is hidden.
    pub fn get_hidden(&self) -> (hidden: bool)
        ensures
            hidden == self.view().hidden,
    {
        match self {
            ServiceMut::AccessoryInformation(s) => s.get_hidden(),
            ServiceMut::WindowCovering(s) => s.get_hidden(),
        }
    }

    /// Returns whether the service is the primary service of its accessory.
    pub fn get_primary(&self) -> (primary: bool)
        ensures
            primary == self.view().primary,
    {
        match self {
            ServiceMut::AccessoryInformation(s) => s.get_primary(),
            ServiceMut::WindowCovering(s) => s.get_primary(),
        }
    }

    /// Sets whether the service is hidden.
    pub fn set_hidden(self, hidden: bool)
        ensures
            match self {
                ServiceMut::AccessoryInformation(s) => final(s).view() == (ServiceView {
                    hidden,
                    ..s.view()
                }),
                ServiceMut::WindowCovering(s) => final(s).view() == (ServiceView {
                    hidden,
                    ..s.view()
                }),
            },
    {
        match self {
            ServiceMut::AccessoryInformation(s) => s.set_hidden(hidden),
            ServiceMut::WindowCovering(s) => s.set_hidden(hidden),
        }
    }

    /// Sets whether the service is the primary service of its accessory.
    pub fn set_primary(self, primary: bool)
        ensures
            match self {
                ServiceMut::AccessoryInformation(s) => final(s).view() == (ServiceView {
                    primary,
                    ..s.view()
                }),
                ServiceMut::WindowCovering(s) => final(s).view() == (ServiceView {
                    primary,
                    ..s.view()
                }),
            },
    {
        match self {
            ServiceMut::AccessoryInformation(s) => s.set_primary(primary),
            ServiceMut::WindowCovering(s) => s.set_primary(primary),
        }
    }

    /// Returns the characteristics of the service for writing, in the order
    /// of enumeration. What is written through the references becomes the
    /// content of the service; its shape stays.
    pub fn get_mut_characteristics(self) -> (characteristics: Vec<&'a mut Characteristic>)
        ensures
            views_mut(characteristics@) == self.view().characteristics(),
            match self {
                ServiceMut::AccessoryInformation(s) => (final(s).view().same_shape(s.view())
                    && final(s).view().characteristics().len() == characteristics@.len()
                    && forall|i: int|
                    0 <= i < characteristics@.len() ==> final(s).view().characteristics()[i]
                        == final(#[trigger] characteristics@[i])@),
                ServiceMut::WindowCovering(s) => (final(s).view().same_shape(s.view())
                    && final(s).view().characteristics().len() == characteristics@.len()
                    && forall|i: int|
                    0 <= i < characteristics@.len() ==> final(s).view().characteristics()[i]
                        == final(#[trigger] characteristics@[i])@),
            },
    {
        match self {
            ServiceMut::AccessoryInformation(s) => s.get_mut_characteristics(),
            ServiceMut::WindowCovering(s) => s.get_mut_characteristics(),
        }
    }

    /// Returns the first characteristic of the service whose type tag is
    /// `hap_type`, for writing. What is written through the reference becomes
    /// the content of that characteristic; the rest of the service stays as
    /// it is.
    pub fn get_mut_characteristic(self, hap_type: HapType) -> (found: Option<
        &'a mut Characteristic,
    >)
        ensures
            match found {
                Some(c) => exists|i: int|
                    #[trigger] is_first_match(self.view().characteristics(), hap_type, i)
                        && c@ == self.view().characteristics()[i]
                        && match self {
                        ServiceMut::AccessoryInformation(s) => final(s).view().same_shape(s.view())
                            && final(s).view().characteristics()
                            == s.view().characteristics().update(i, final(c)@),
                        ServiceMut::WindowCovering(s) => final(s).view().same_shape(s.view())
                            && final(s).view().characteristics()
                            == s.view().characteristics().update(i, final(c)@),
                    },
                None => has_no_match(self.view().characteristics(), hap_type) && match self {
                    ServiceMut::AccessoryInformation(s) => final(s).view() == s.view(),
                    ServiceMut::WindowCovering(s) => final(s).view() == s.view(),
                },
            },
    {
        match self {
            ServiceMut::AccessoryInformation(s) => s.get_mut_characteristic(hap_type),
            ServiceMut::WindowCovering(s) => s.get_mut_characteristic(hap_type),
        }
    }
}

} // verus!
