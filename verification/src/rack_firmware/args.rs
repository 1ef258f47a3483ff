//! The arguments of the rack firmware commands.

use vstd::prelude::*;
use crate::text::str_eq;

verus! {

/// The rack firmware commands.
#[derive(Debug)]
pub enum Cmd {
    /// Create a new rack firmware configuration from a JSON file.
    Create(Create),
    /// Get a rack firmware configuration by its ID.
    Get(Get),
    /// List all rack firmware configurations.
    List(List),
    /// Delete a rack firmware configuration.
    Delete(Delete),
    /// Apply firmware to all devices in a rack.
    Apply(Apply),
    /// Check the status of a firmware update job.
    Status(Status),
}

#[derive(Debug)]
pub struct Create {
    /// Path to the JSON configuration file.
    pub json_file: String,
    /// Token for downloading the firmware files.
    pub artifactory_token: String,
}

#[derive(Debug)]
pub struct Get {
    /// ID of the configuration to retrieve.
    pub id: String,
}

#[derive(Debug)]
pub struct List {
    /// Show only the configurations that are available.
    pub only_available: bool,
}

#[derive(Debug)]
pub struct Delete {
    /// ID of the configuration to delete.
    pub id: String,
}

#[derive(Debug)]
pub struct Apply {
    /// ID of the rack to apply firmware to.
    pub rack_id: String,
    /// ID of the firmware configuration to apply.
    pub firmware_id: String,
    /// Firmware type: `dev` or `prod`.
    pub firmware_type: String,
}

#[derive(Debug)]
pub struct Status {
    /// ID of the job, as `apply` printed it.
    pub job_id: String,
}

/// Whether a text names a firmware type: `dev` or `prod`.
pub open spec fn is_firmware_type(text: Seq<char>) -> bool {
    text == "dev"@ || text == "prod"@
}

impl Apply {
    /// Whether the firmware type of these arguments is one that exists.
    pub fn has_valid_firmware_type(&self) -> (valid: bool)
        ensures
            valid == is_firmware_type(self.firmware_type@),
    {
        str_eq(self.firmware_type.as_str(), "dev") || str_eq(self.firmware_type.as_str(), "prod")
    }
}

} // verus!
