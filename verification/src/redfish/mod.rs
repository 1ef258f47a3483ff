//! The resource model of the management protocol.

use vstd::prelude::*;
use crate::json::JsonModel;
use crate::json::JsonObject;
use crate::json::JsonPatch;
use crate::json::JsonValue;
use crate::json::PatchModel;

pub mod account_service;
pub mod bios;
pub mod boot_option;
pub mod chassis;
pub mod collection;
pub mod computer_system;
pub mod ethernet_interface;
pub mod family;
pub mod manager;
pub mod oem;
pub mod service_root;
pub mod task_service;
pub mod update_service;

verus! {

/// The identity of a protocol resource: its address, its versioned type, and
/// the identifier and name it goes by. The last two are empty where the
/// emulated vendor gives none.
#[derive(Debug)]
pub struct Resource {
    pub odata_id: String,
    pub odata_type: String,
    pub id: String,
    pub name: String,
}

/// The mathematical value of a resource's identity.
pub struct ResourceModel {
    pub odata_id: Seq<char>,
    pub odata_type: Seq<char>,
    pub id: Seq<char>,
    pub name: Seq<char>,
}

impl ResourceModel {
    /// The structural base of the resource's body: the four fields of its
    /// identity.
    pub open spec fn base_document(self) -> Map<Seq<char>, JsonModel> {
        Map::<Seq<char>, JsonModel>::empty().insert(
            "@odata.id"@,
            JsonModel::String(self.odata_id),
        ).insert("@odata.type"@, JsonModel::String(self.odata_type)).insert(
            "Id"@,
            JsonModel::String(self.id),
        ).insert("Name"@, JsonModel::String(self.name))
    }
}

impl View for Resource {
    type V = ResourceModel;

    open spec fn view(&self) -> ResourceModel {
        ResourceModel {
            odata_id: self.odata_id@,
            odata_type: self.odata_type@,
            id: self.id@,
            name: self.name@,
        }
    }
}

impl Resource {
    /// Starts the resource's body from its identity.
    pub fn json_patch(&self) -> (builder: JsonPatch)
        ensures
            builder@ == PatchModel::start(self@.base_document()),
    {
        let base = JsonObject::new().with(
            "@odata.id",
            JsonValue::string(self.odata_id.as_str()),
        ).with("@odata.type", JsonValue::string(self.odata_type.as_str())).with(
            "Id",
            JsonValue::string(self.id.as_str()),
        ).with("Name", JsonValue::string(self.name.as_str()));
        JsonPatch::new(base)
    }
}

} // verus!
