//! Ethernet interfaces, of systems and of managers.

use vstd::prelude::*;
use vstd::string::StringExecFns;
use crate::json::JsonModel;
use crate::json::JsonObject;
use crate::json::JsonValue;
use crate::redfish::Resource;
use crate::redfish::ResourceModel;
use crate::text::joined;

verus! {

/// The digit that stands for a number below sixteen: `0` to `9`, then `A`
/// to `F`.
pub open spec fn hex_digit(n: u8) -> char {
    if n < 10 {
        ((48 + n) as u8) as char
    } else {
        ((55 + n) as u8) as char
    }
}

/// A byte as two hexadecimal digits, in upper case.
pub open spec fn hex_pair(byte: u8) -> Seq<char> {
    seq![hex_digit(byte / 16), hex_digit(byte % 16)]
}

/// The text of a hardware address of six bytes: each byte as two
/// hexadecimal digits in upper case, with colons between the bytes.
pub open spec fn mac_display(bytes: Seq<u8>) -> Seq<char> {
    hex_pair(bytes[0]) + seq![':'] + hex_pair(bytes[1]) + seq![':'] + hex_pair(bytes[2]) + seq![
        ':',
    ] + hex_pair(bytes[3]) + seq![':'] + hex_pair(bytes[4]) + seq![':'] + hex_pair(bytes[5])
}

/// Makes a `mac_address::MacAddress` of six bytes and asks it for its text.
/// Claimed: the text is what the crate's `Display` writes, each byte as two
/// upper-case hexadecimal digits and colons between them.
#[verifier::external_body]
pub(crate) fn mac_text(bytes: [u8; 6]) -> (text: String)
    ensures
        text@ == mac_display(bytes@),
{
    mac_address::MacAddress::new(bytes).to_string()
}

/// The identity of an interface of a system.
pub open spec fn spec_system_resource(system_id: Seq<char>, id: Seq<char>) -> ResourceModel {
    ResourceModel {
        odata_id: "/redfish/v1/Systems/"@ + system_id + "/EthernetInterfaces/"@ + id,
        odata_type: "#EthernetInterface.v1_6_0.EthernetInterface"@,
        id,
        name: id,
    }
}

/// The identity of an interface of a manager.
pub open spec fn spec_manager_resource(manager_id: Seq<char>, id: Seq<char>) -> ResourceModel {
    ResourceModel {
        odata_id: "/redfish/v1/Managers/"@ + manager_id + "/EthernetInterfaces/"@ + id,
        odata_type: "#EthernetInterface.v1_6_0.EthernetInterface"@,
        id,
        name: id,
    }
}

/// The identity of an interface of a system.
pub fn system_resource(system_id: &str, id: &str) -> (resource: Resource)
    ensures
        resource@ == spec_system_resource(system_id@, id@),
{
    Resource {
        odata_id: joined("/redfish/v1/Systems/", system_id).concat("/EthernetInterfaces/").concat(
            id,
        ),
        odata_type: "#EthernetInterface.v1_6_0.EthernetInterface".to_owned(),
        id: id.to_owned(),
        name: id.to_owned(),
    }
}

/// The identity of an interface of a manager.
pub fn manager_resource(manager_id: &str, id: &str) -> (resource: Resource)
    ensures
        resource@ == spec_manager_resource(manager_id@, id@),
{
    Resource {
        odata_id: joined("/redfish/v1/Managers/", manager_id).concat("/EthernetInterfaces/").concat(
            id,
        ),
        odata_type: "#EthernetInterface.v1_6_0.EthernetInterface".to_owned(),
        id: id.to_owned(),
        name: id.to_owned(),
    }
}

/// An interface's document while it is written.
pub struct Builder {
    document: JsonObject,
}

impl View for Builder {
    type V = Map<Seq<char>, JsonModel>;

    closed spec fn view(&self) -> Map<Seq<char>, JsonModel> {
        self.document@
    }
}

/// Starts the document of an interface from its identity.
pub fn builder(resource: &Resource) -> (builder: Builder)
    ensures
        builder@ == resource@.base_document(),
{
    let document = resource.json_patch().build();
    assert(document@ =~= resource@.base_document());
    Builder { document }
}

impl Builder {
    /// Gives the interface its hardware address.
    pub fn mac_address(self, mac: [u8; 6]) -> (builder: Builder)
        ensures
            builder@ == self@.insert("MACAddress"@, JsonModel::String(mac_display(mac@))),
    {
        Builder { document: self.document.with("MACAddress", JsonValue::String(mac_text(mac))) }
    }

    /// Gives the interface a description.
    pub fn description(self, text: &str) -> (builder: Builder)
        ensures
            builder@ == self@.insert("Description"@, JsonModel::String(text@)),
    {
        Builder { document: self.document.with("Description", JsonValue::string(text)) }
    }

    /// Says whether the interface is switched on.
    pub fn interface_enabled(self, enabled: bool) -> (builder: Builder)
        ensures
            builder@ == self@.insert("InterfaceEnabled"@, JsonModel::Bool(enabled)),
    {
        Builder { document: self.document.with("InterfaceEnabled", JsonValue::Bool(enabled)) }
    }

    /// The finished document.
    pub fn build(self) -> (document: JsonObject)
        ensures
            document@ == self@,
    {
        self.document
    }
}

} // verus!
