//! What differs from vendor to vendor.

use vstd::prelude::*;
use crate::bmc_state::JobState;
use crate::redfish::oem::dell::idrac::IdracState;
use crate::redfish::oem::nvidia::bluefield::BluefieldState;

pub mod dell;
pub mod nvidia;

verus! {

/// The vendors whose controllers the mock can stand for.
#[derive(Debug, Clone, Copy, PartialEq, Eq, Structural)]
pub enum BmcVendor {
    /// NVIDIA BlueField: the controller of a DPU.
    Nvidia,
    /// Dell iDRAC: the controller of a host.
    Dell,
}

/// The state that belongs to an instance's vendor. An instance has exactly
/// one of these, chosen when it is built.
pub enum State {
    NvidiaBluefield(BluefieldState),
    DellIdrac(IdracState),
}

/// The mathematical value of a vendor state.
pub enum StateModel {
    NvidiaBluefield { nic_mode: bool },
    DellIdrac { bios_jobs: Seq<JobState> },
}

impl StateModel {
    /// The same state with every BIOS job completed; a state without BIOS
    /// jobs is unchanged.
    pub open spec fn with_bios_jobs_completed(self) -> StateModel {
        match self {
            StateModel::NvidiaBluefield { nic_mode } => self,
            StateModel::DellIdrac { bios_jobs } => StateModel::DellIdrac {
                bios_jobs: Seq::new(bios_jobs.len(), |i: int| JobState::Completed),
            },
        }
    }
}

impl View for State {
    type V = StateModel;

    open spec fn view(&self) -> StateModel {
        match self {
            State::NvidiaBluefield(s) => StateModel::NvidiaBluefield { nic_mode: s.nic_mode() },
            State::DellIdrac(s) => StateModel::DellIdrac { bios_jobs: s@ },
        }
    }
}

impl BmcVendor {
    /// The vendor that a vendor state belongs to.
    pub open spec fn spec_of(state: StateModel) -> BmcVendor {
        match state {
            StateModel::NvidiaBluefield { .. } => BmcVendor::Nvidia,
            StateModel::DellIdrac { .. } => BmcVendor::Dell,
        }
    }

    /// The vendor that a vendor state belongs to.
    pub fn of(state: &State) -> (vendor: BmcVendor)
        ensures
            vendor == BmcVendor::spec_of(state@),
    {
        match state {
            State::NvidiaBluefield(_) => BmcVendor::Nvidia,
            State::DellIdrac(_) => BmcVendor::Dell,
        }
    }
}

} // verus!
