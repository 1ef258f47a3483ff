//! The state of one mocked instance.

use vstd::prelude::*;
use crate::bug::InjectedBugs;
use crate::redfish::chassis::ChassisConfig;
use crate::redfish::chassis::ChassisState;
use crate::redfish::computer_system::SystemConfig;
use crate::redfish::computer_system::SystemState;
use crate::redfish::manager::Config;
use crate::redfish::manager::ManagerState;
use crate::redfish::oem::BmcVendor;
use crate::redfish::oem::State;
use crate::redfish::update_service::UpdateServiceConfig;
use crate::redfish::update_service::UpdateServiceState;

verus! {

/// Everything that the handlers of one instance read and change: the vendor
/// tag with the state that belongs to that vendor, one state per resource
/// family, and the injected faults. Each part stands by itself, so that a
/// change to one never touches another. `P` is the handle through which
/// the power of a system is controlled.
pub struct BmcState<P> {
    pub bmc_vendor: BmcVendor,
    pub oem_state: State,
    pub manager: ManagerState,
    pub system_state: SystemState<P>,
    pub chassis_state: ChassisState,
    pub update_service_state: UpdateServiceState,
    pub injected_bugs: InjectedBugs,
}

/// Lifecycle of a simulated job. A job is created `Scheduled` and may only
/// move forward to `Completed`.
#[derive(Debug, Clone, Copy, PartialEq, Eq, Structural)]
pub enum JobState {
    Scheduled,
    Completed,
}

impl JobState {
    /// How far a job has come: a later state has a higher rank.
    pub open spec fn rank(self) -> nat {
        match self {
            JobState::Scheduled => 0,
            JobState::Completed => 1,
        }
    }
}

impl<P> BmcState<P> {
    /// The state of a new instance: each family's state is derived from its
    /// configuration, the vendor state and the fault store are taken as
    /// given.
    pub fn new(
        bmc_vendor: BmcVendor,
        oem_state: State,
        manager_config: Config,
        system_config: SystemConfig<P>,
        chassis_config: ChassisConfig,
        update_service_config: UpdateServiceConfig,
        injected_bugs: InjectedBugs,
    ) -> (state: BmcState<P>)
        ensures
            state.bmc_vendor == bmc_vendor,
            state.oem_state == oem_state,
            state.manager@ == ManagerState::initial(manager_config),
            state.system_state@ == SystemState::<P>::initial(system_config),
            state.chassis_state@ == ChassisState::initial(chassis_config),
            state.update_service_state@ == UpdateServiceState::initial(update_service_config),
            state.injected_bugs == injected_bugs,
    {
        BmcState {
            bmc_vendor,
            oem_state,
            manager: ManagerState::from_config(manager_config),
            system_state: SystemState::from_config(system_config),
            chassis_state: ChassisState::from_config(chassis_config),
            update_service_state: UpdateServiceState::from_config(update_service_config),
            injected_bugs,
        }
    }

    /// Completes every BIOS job of an instance that tracks them. An instance
    /// of a vendor without BIOS jobs is left as it is, and so is every other
    /// part of the state.
    pub fn complete_all_bios_jobs(&mut self)
        ensures
            final(self).oem_state@ == old(self).oem_state@.with_bios_jobs_completed(),
            final(self).bmc_vendor == old(self).bmc_vendor,
            final(self).manager == old(self).manager,
            final(self).system_state == old(self).system_state,
            final(self).chassis_state == old(self).chassis_state,
            final(self).update_service_state == old(self).update_service_state,
            final(self).injected_bugs == old(self).injected_bugs,
    {
        if let State::DellIdrac(v) = &mut self.oem_state {
            v.complete_all_bios_jobs()
        }
    }
}

} // verus!
