//! The chassis family.

use vstd::prelude::*;
use crate::http::Response;
use crate::http::ResponseModel;
use crate::json::JsonModel;
use crate::json::JsonObject;
use crate::json::JsonValue;
use crate::json::opt_documents;
use crate::redfish::Resource;
use crate::redfish::ResourceModel;
use crate::redfish::collection::Entry;
use crate::redfish::collection::EntryModel;
use crate::redfish::collection::collection;
use crate::redfish::collection::collection_document;
use crate::redfish::collection::entry_ids;
use crate::redfish::collection::entry_models;
use crate::redfish::collection::find;
use crate::redfish::collection::find_document;
use crate::redfish::collection::with_opt_text;
use crate::redfish::collection::with_optional;
use crate::redfish::family::FamilyState;
use crate::redfish::family::member_response;
use crate::redfish::family::opt_value;
use crate::redfish::family::overrides_after_patch;
use crate::redfish::family::patch_response;
use crate::router::Handler;
use crate::router::Method;
use crate::router::RouteModel;
use crate::router::Router;
use crate::text::joined;
use crate::text::opt_text;

verus! {

/// One chassis entry. A field is `None` where the chassis does not report
/// it.
pub struct SingleChassisConfig {
    pub id: String,
    pub manufacturer: Option<String>,
    pub model: Option<String>,
    pub network_adapters: Option<Vec<JsonObject>>,
    pub part_number: Option<String>,
    pub pcie_devices: Option<Vec<JsonObject>>,
    pub serial_number: Option<String>,
}

/// The chassis that an instance is configured with.
pub struct ChassisConfig {
    pub chassis: Vec<SingleChassisConfig>,
}

/// The mathematical value of a chassis entry.
pub struct SingleChassisModel {
    pub id: Seq<char>,
    pub manufacturer: Option<Seq<char>>,
    pub model: Option<Seq<char>>,
    pub network_adapters: Option<Seq<Map<Seq<char>, JsonModel>>>,
    pub part_number: Option<Seq<char>>,
    pub pcie_devices: Option<Seq<Map<Seq<char>, JsonModel>>>,
    pub serial_number: Option<Seq<char>>,
}

impl View for SingleChassisConfig {
    type V = SingleChassisModel;

    open spec fn view(&self) -> SingleChassisModel {
        SingleChassisModel {
            id: self.id@,
            manufacturer: opt_text(self.manufacturer),
            model: opt_text(self.model),
            network_adapters: opt_documents(self.network_adapters),
            part_number: opt_text(self.part_number),
            pcie_devices: opt_documents(self.pcie_devices),
            serial_number: opt_text(self.serial_number),
        }
    }
}

impl View for ChassisConfig {
    type V = Seq<SingleChassisModel>;

    open spec fn view(&self) -> Seq<SingleChassisModel> {
        self.chassis@.map_values(|c: SingleChassisConfig| c@)
    }
}

/// The state of the chassis family.
pub type ChassisState = FamilyState<ChassisConfig>;

/// The identity of the collection of chassis.
pub open spec fn spec_collection_resource() -> ResourceModel {
    ResourceModel {
        odata_id: "/redfish/v1/Chassis"@,
        odata_type: "#ChassisCollection.ChassisCollection"@,
        id: ""@,
        name: "Chassis Collection"@,
    }
}

/// The identity of a chassis.
pub open spec fn spec_resource(id: Seq<char>) -> ResourceModel {
    ResourceModel {
        odata_id: "/redfish/v1/Chassis/"@ + id,
        odata_type: "#Chassis.v1_23_0.Chassis"@,
        id,
        name: id,
    }
}

/// The identity of the collection of chassis.
pub fn collection_resource() -> (resource: Resource)
    ensures
        resource@ == spec_collection_resource(),
{
    Resource {
        odata_id: "/redfish/v1/Chassis".to_owned(),
        odata_type: "#ChassisCollection.ChassisCollection".to_owned(),
        id: "".to_owned(),
        name: "Chassis Collection".to_owned(),
    }
}

/// The identity of a chassis.
pub fn resource(id: &str) -> (resource: Resource)
    ensures
        resource@ == spec_resource(id@),
{
    Resource {
        odata_id: joined("/redfish/v1/Chassis/", id),
        odata_type: "#Chassis.v1_23_0.Chassis".to_owned(),
        id: id.to_owned(),
        name: id.to_owned(),
    }
}

/// The document of a chassis, as its configuration describes it: its
/// identity, and each of manufacturer, model, part number and serial number
/// that the chassis reports.
pub open spec fn chassis_document(chassis: SingleChassisModel) -> Map<Seq<char>, JsonModel> {
    with_opt_text(
        with_opt_text(
            with_opt_text(
                with_opt_text(
                    spec_resource(chassis.id).base_document(),
                    "Manufacturer"@,
                    chassis.manufacturer,
                ),
                "Model"@,
                chassis.model,
            ),
            "PartNumber"@,
            chassis.part_number,
        ),
        "SerialNumber"@,
        chassis.serial_number,
    )
}

/// The chassis of a configuration as the members of their collection.
pub open spec fn spec_entries(config: Seq<SingleChassisModel>) -> Seq<EntryModel> {
    config.map_values(
        |c: SingleChassisModel| EntryModel { id: c.id, document: chassis_document(c) },
    )
}

/// The chassis of a configuration as the members of their collection.
pub fn entries(config: &ChassisConfig) -> (list: Vec<Entry>)
    ensures
        entry_models(list@) == spec_entries(config@),
{
    let mut list: Vec<Entry> = Vec::new();
    let mut i: usize = 0;
    while i < config.chassis.len()
        invariant
            i <= config.chassis.len(),
            list@.len() == i,
            forall|j: int|
                0 <= j < i ==> (#[trigger] list@[j])@ == (EntryModel {
                    id: config.chassis@[j].id@,
                    document: chassis_document(config.chassis@[j]@),
                }),
        decreases config.chassis.len() - i,
    {
        let chassis = &config.chassis[i];
        let base = resource(chassis.id.as_str()).json_patch().build();
        assert(base@ =~= spec_resource(chassis.id@).base_document());
        let document = with_optional(
            with_optional(
                with_optional(
                    with_optional(base, "Manufacturer", &chassis.manufacturer),
                    "Model",
                    &chassis.model,
                ),
                "PartNumber",
                &chassis.part_number,
            ),
            "SerialNumber",
            &chassis.serial_number,
        );
        list.push(Entry { id: chassis.id.clone(), document });
        i += 1;
    }
    assert(entry_models(list@) =~= spec_entries(config@));
    list
}

/// The routes of the chassis: the collection, and reading and writing one
/// of its members.
pub open spec fn routes() -> Seq<RouteModel> {
    seq![
        RouteModel {
            method: Method::Get,
            path: "/redfish/v1/Chassis"@,
            handler: Handler::GetChassisCollection,
        },
        RouteModel {
            method: Method::Get,
            path: "/redfish/v1/Chassis/{chassis_id}"@,
            handler: Handler::GetChassis,
        },
        RouteModel {
            method: Method::Patch,
            path: "/redfish/v1/Chassis/{chassis_id}"@,
            handler: Handler::PatchChassis,
        },
    ]
}

/// Registers the routes of the chassis.
pub fn add_routes(r: Router) -> (router: Router)
    ensures
        router@ == r@ + routes(),
{
    let router = r.route(Method::Get, "/redfish/v1/Chassis", Handler::GetChassisCollection).route(
        Method::Get,
        "/redfish/v1/Chassis/{chassis_id}",
        Handler::GetChassis,
    ).route(Method::Patch, "/redfish/v1/Chassis/{chassis_id}", Handler::PatchChassis);
    assert(router@ =~= r@ + routes());
    router
}

/// Answers `GET /redfish/v1/Chassis` with the collection of the chassis.
pub fn get_collection(state: &ChassisState) -> (response: Response)
    ensures
        response@ == (ResponseModel {
            status: 200,
            body: JsonModel::Object(
                collection_document(
                    spec_collection_resource(),
                    entry_ids(spec_entries(state@.config@)),
                ),
            ),
        }),
{
    collection(&collection_resource(), &entries(state.config()))
}

/// Answers `GET /redfish/v1/Chassis/{chassis_id}` with the document of the chassis,
/// or "not found" where there is no chassis of that identifier.
pub fn get(state: &ChassisState, id: &str) -> (response: Response)
    ensures
        response@ == member_response(
            find_document(spec_entries(state@.config@), id@),
            state@.overrides,
            id@,
        ),
{
    let base = find(entries(state.config()), id);
    state.get_member(id, base)
}

/// Answers `PATCH /redfish/v1/Chassis/{chassis_id}`: the fields of the body are written
/// over the chassis, and the answer shows it as it is then. `body` is the
/// request's body as a JSON document, `None` where it is no JSON.
pub fn patch(state: &mut ChassisState, id: &str, body: Option<JsonValue>) -> (response: Response)
    ensures
        final(state)@.config == old(state)@.config,
        final(state)@.overrides == overrides_after_patch(
            find_document(spec_entries(old(state)@.config@), id@),
            old(state)@.overrides,
            id@,
            opt_value(body),
        ),
        response@ == patch_response(
            find_document(spec_entries(old(state)@.config@), id@),
            old(state)@.overrides,
            id@,
            opt_value(body),
        ),
{
    let base = find(entries(state.config()), id);
    state.patch_member(id, base, body)
}

} // verus!
