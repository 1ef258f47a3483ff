//! Boot options of a system.

use vstd::prelude::*;
use vstd::string::StringExecFns;
use crate::json::JsonModel;
use crate::json::JsonObject;
use crate::json::JsonValue;
use crate::redfish::Resource;
use crate::redfish::ResourceModel;
use crate::text::joined;

verus! {

/// The identity of a boot option of a system.
pub open spec fn spec_resource(system_id: Seq<char>, id: Seq<char>) -> ResourceModel {
    ResourceModel {
        odata_id: "/redfish/v1/Systems/"@ + system_id + "/BootOptions/"@ + id,
        odata_type: "#BootOption.v1_0_4.BootOption"@,
        id,
        name: id,
    }
}

/// The identity of a boot option of a system.
pub fn resource(system_id: &str, id: &str) -> (resource: Resource)
    ensures
        resource@ == spec_resource(system_id@, id@),
{
    Resource {
        odata_id: joined("/redfish/v1/Systems/", system_id).concat("/BootOptions/").concat(id),
        odata_type: "#BootOption.v1_0_4.BootOption".to_owned(),
        id: id.to_owned(),
        name: id.to_owned(),
    }
}

/// A boot option's document while it is written.
pub struct Builder {
    document: JsonObject,
}

impl View for Builder {
    type V = Map<Seq<char>, JsonModel>;

    closed spec fn view(&self) -> Map<Seq<char>, JsonModel> {
        self.document@
    }
}

/// Starts the document of a boot option from its identity.
pub fn builder(resource: &Resource) -> (builder: Builder)
    ensures
        builder@ == resource@.base_document(),
{
    let document = resource.json_patch().build();
    assert(document@ =~= resource@.base_document());
    Builder { document }
}

impl Builder {
    /// Gives the option the name by which the boot order refers to it.
    pub fn boot_option_reference(self, reference: &str) -> (builder: Builder)
        ensures
            builder@ == self@.insert("BootOptionReference"@, JsonModel::String(reference@)),
    {
        Builder {
            document: self.document.with("BootOptionReference", JsonValue::string(reference)),
        }
    }

    /// Gives the option the name that is shown to people.
    pub fn display_name(self, name: &str) -> (builder: Builder)
        ensures
            builder@ == self@.insert("DisplayName"@, JsonModel::String(name@)),
    {
        Builder { document: self.document.with("DisplayName", JsonValue::string(name)) }
    }

    /// Gives the option the UEFI path of the device it boots from.
    pub fn uefi_device_path(self, path: &str) -> (builder: Builder)
        ensures
            builder@ == self@.insert("UefiDevicePath"@, JsonModel::String(path@)),
    {
        Builder { document: self.document.with("UefiDevicePath", JsonValue::string(path)) }
    }

    /// The finished document.
    pub fn build(self) -> (document: JsonObject)
        ensures
            document@ == self@,
    {
        self.document
    }
}

} // verus!
