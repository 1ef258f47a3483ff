//! The BIOS settings of a system.

use vstd::prelude::*;
use vstd::string::StringExecFns;
use crate::json::JsonModel;
use crate::json::JsonObject;
use crate::json::JsonValue;
use crate::redfish::Resource;
use crate::redfish::ResourceModel;
use crate::text::joined;

verus! {

/// The identity of the BIOS settings of a system.
pub open spec fn spec_resource(system_id: Seq<char>) -> ResourceModel {
    ResourceModel {
        odata_id: "/redfish/v1/Systems/"@ + system_id + "/Bios"@,
        odata_type: "#Bios.v1_2_0.Bios"@,
        id: "Bios"@,
        name: "Bios"@,
    }
}

/// The identity of the BIOS settings of a system.
pub fn resource(system_id: &str) -> (resource: Resource)
    ensures
        resource@ == spec_resource(system_id@),
{
    Resource {
        odata_id: joined("/redfish/v1/Systems/", system_id).concat("/Bios"),
        odata_type: "#Bios.v1_2_0.Bios".to_owned(),
        id: "Bios".to_owned(),
        name: "Bios".to_owned(),
    }
}

/// The document of the BIOS settings while it is written.
pub struct Builder {
    document: JsonObject,
}

impl View for Builder {
    type V = Map<Seq<char>, JsonModel>;

    closed spec fn view(&self) -> Map<Seq<char>, JsonModel> {
        self.document@
    }
}

/// Starts the document of the BIOS settings from its identity.
pub fn builder(resource: &Resource) -> (builder: Builder)
    ensures
        builder@ == resource@.base_document(),
{
    let document = resource.json_patch().build();
    assert(document@ =~= resource@.base_document());
    Builder { document }
}

impl Builder {
    /// Sets the attributes, each name with its value.
    pub fn attributes(self, attributes: JsonObject) -> (builder: Builder)
        ensures
            builder@ == self@.insert("Attributes"@, JsonModel::Object(attributes@)),
    {
        Builder { document: self.document.with("Attributes", JsonValue::Object(attributes)) }
    }

    /// The finished document.
    pub fn build(self) -> (document: JsonObject)
        ensures
            document@ == self@,
    {
        self.document
    }
}

} // verus!
