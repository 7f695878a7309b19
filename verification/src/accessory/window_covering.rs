//! The Window Covering Accessory.

use vstd::prelude::*;
use crate::accessory::information::AccessoryInformation;
use crate::accessory::laws::lemma_namespaced_ids_apart;
use crate::accessory::{AccessoryView, HapAccessory};
use crate::error::HapError;
use crate::service::accessory_information::AccessoryInformationService;
use crate::service::handle::{ServiceMut, ServiceRef};
use crate::service::window_covering::WindowCoveringService;
use crate::service::{HapService, ServiceView};

verus! {

/// Window Covering Accessory.
#[derive(Debug)]
pub struct WindowCoveringAccessory {
    /// ID of the Window Covering Accessory.
    pub(crate) id: u64,
    /// Accessory Information Service.
    pub accessory_information: AccessoryInformationService,
    /// Window Covering Service.
    pub window_covering: WindowCoveringService,
}

impl WindowCoveringAccessory {
    /// The identifier of the Accessory Information Service. The service
    /// keeps this identifier and the eight that follow it.
    pub const ACCESSORY_INFORMATION_ID: u64 = 1;

    /// The identifier of the Window Covering Service, the first one after
    /// those that the Accessory Information Service keeps.
    pub const WINDOW_COVERING_ID: u64 = 10;

    /// The content of a new accessory with the identifier `id` that is
    /// described by `information`: its Accessory Information Service, then
    /// its Window Covering Service, which is the primary one.
    pub open spec fn fresh(id: u64, information: AccessoryInformation) -> AccessoryView {
        AccessoryView {
            id,
            services: seq![
                information.service(Self::ACCESSORY_INFORMATION_ID, id),
                ServiceView {
                    primary: true,
                    ..WindowCoveringService::fresh(Self::WINDOW_COVERING_ID, id)
                },
            ],
        }
    }

    /// In a new accessory the two services have different identifiers, and no
    /// characteristic has the identifier of a characteristic of the other
    /// service.
    pub proof fn lemma_fresh(id: u64, information: AccessoryInformation)
        ensures
            Self::fresh(id, information).service_ids_unique(),
            Self::fresh(id, information).characteristic_ids_apart(),
    {
        let fresh = Self::fresh(id, information);
        information.lemma_service(Self::ACCESSORY_INFORMATION_ID, id);
        WindowCoveringService::lemma_fresh(Self::WINDOW_COVERING_ID, id);
        lemma_namespaced_ids_apart(fresh, seq![8nat, 3nat]);
    }

    /// Creates a new Window Covering Accessory.
    pub fn new(id: u64, information: AccessoryInformation) -> (r: Result<
        WindowCoveringAccessory,
        HapError,
    >)
        ensures
            r matches Ok(accessory) && accessory.view() == Self::fresh(id, information)
                && accessory.view().service_ids_unique()
                && accessory.view().characteristic_ids_apart()
                && accessory.view().services[0].well_typed(
                AccessoryInformationService::required_kinds(),
                AccessoryInformationService::optional_kinds(),
            ) && accessory.view().services[1].well_typed(
                WindowCoveringService::required_kinds(),
                WindowCoveringService::optional_kinds(),
            ),
    {
        proof {
            Self::lemma_fresh(id, information);
        }
        let accessory_information = match information.to_service(
            Self::ACCESSORY_INFORMATION_ID,
            id,
        ) {
            Ok(service) => service,
            Err(e) => {
                return Err(e);
            },
        };
        let mut window_covering = WindowCoveringService::new(Self::WINDOW_COVERING_ID, id);
        window_covering.set_primary(true);
        let accessory = WindowCoveringAccessory { id, accessory_information, window_covering };
        assert(accessory.view().services =~= Self::fresh(id, information).services);
        Ok(accessory)
    }
}

impl HapAccessory for WindowCoveringAccessory {
    open(crate) spec fn view(&self) -> AccessoryView {
        AccessoryView {
            id: self.id,
            services: seq![self.accessory_information.view(), self.window_covering.view()],
        }
    }

    fn get_id(&self) -> (id: u64) {
        self.id
    }

    fn set_id(&mut self, id: u64) {
        self.id = id;
    }

    fn get_services(&self) -> (services: Vec<ServiceRef<'_>>) {
        let mut services: Vec<ServiceRef<'_>> = Vec::new();
        services.push(ServiceRef::AccessoryInformation(&self.accessory_information));
        services.push(ServiceRef::WindowCovering(&self.window_covering));
        services
    }

    fn get_mut_services(&mut self) -> (services: Vec<ServiceMut<'_>>) {
        let mut services: Vec<ServiceMut<'_>> = Vec::new();
        services.push(ServiceMut::AccessoryInformation(&mut self.accessory_information));
        services.push(ServiceMut::WindowCovering(&mut self.window_covering));
        services
    }
}

} // verus!
