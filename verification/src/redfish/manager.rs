//! The manager family: the controller itself.

use vstd::prelude::*;
use crate::http::Response;
use crate::http::ResponseModel;
use crate::json::JsonModel;
use crate::json::JsonObject;
use crate::json::JsonValue;
use crate::json::documents;
use crate::redfish::Resource;
use crate::redfish::ResourceModel;
use crate::redfish::collection::Entry;
use crate::redfish::collection::EntryModel;
use crate::redfish::collection::collection;
use crate::redfish::collection::collection_document;
use crate::redfish::collection::entry_ids;
use crate::redfish::collection::entry_models;
use crate::redfish::collection::find;
use crate::redfish::collection::find_document;
use crate::redfish::family::FamilyState;
use crate::redfish::family::member_response;
use crate::redfish::family::opt_value;
use crate::redfish::family::overrides_after_patch;
use crate::redfish::family::patch_response;
use crate::router::Handler;
use crate::router::Method;
use crate::router::RouteModel;
use crate::router::Router;
use crate::text::joined;

verus! {

/// What a manager is configured with.
pub struct Config {
    pub id: String,
    pub eth_interfaces: Vec<JsonObject>,
    pub firmware_version: String,
}

/// The mathematical value of a manager's configuration.
pub struct ConfigModel {
    pub id: Seq<char>,
    pub eth_interfaces: Seq<Map<Seq<char>, JsonModel>>,
    pub firmware_version: Seq<char>,
}

impl View for Config {
    type V = ConfigModel;

    open spec fn view(&self) -> ConfigModel {
        ConfigModel {
            id: self.id@,
            eth_interfaces: documents(self.eth_interfaces@),
            firmware_version: self.firmware_version@,
        }
    }
}

/// The state of the manager family.
pub type ManagerState = FamilyState<Config>;

/// The identity of the collection of managers.
pub open spec fn spec_collection_resource() -> ResourceModel {
    ResourceModel {
        odata_id: "/redfish/v1/Managers"@,
        odata_type: "#ManagerCollection.ManagerCollection"@,
        id: ""@,
        name: "Manager Collection"@,
    }
}

/// The identity of a manager.
pub open spec fn spec_resource(id: Seq<char>) -> ResourceModel {
    ResourceModel {
        odata_id: "/redfish/v1/Managers/"@ + id,
        odata_type: "#Manager.v1_19_0.Manager"@,
        id,
        name: id,
    }
}

/// The identity of the collection of managers.
pub fn collection_resource() -> (resource: Resource)
    ensures
        resource@ == spec_collection_resource(),
{
    Resource {
        odata_id: "/redfish/v1/Managers".to_owned(),
        odata_type: "#ManagerCollection.ManagerCollection".to_owned(),
        id: "".to_owned(),
        name: "Manager Collection".to_owned(),
    }
}

/// The identity of a manager.
pub fn resource(id: &str) -> (resource: Resource)
    ensures
        resource@ == spec_resource(id@),
{
    Resource {
        odata_id: joined("/redfish/v1/Managers/", id),
        odata_type: "#Manager.v1_19_0.Manager".to_owned(),
        id: id.to_owned(),
        name: id.to_owned(),
    }
}

/// The document of a manager, as its configuration describes it: its
/// identity and the version of its firmware.
pub open spec fn manager_document(config: ConfigModel) -> Map<Seq<char>, JsonModel> {
    spec_resource(config.id).base_document().insert(
        "FirmwareVersion"@,
        JsonModel::String(config.firmware_version),
    )
}

/// The manager of a configuration as the one member of its collection.
pub open spec fn spec_entries(config: ConfigModel) -> Seq<EntryModel> {
    seq![EntryModel { id: config.id, document: manager_document(config) }]
}

/// The manager of a configuration as the one member of its collection.
pub fn entries(config: &Config) -> (list: Vec<Entry>)
    ensures
        entry_models(list@) == spec_entries(config@),
{
    let base = resource(config.id.as_str()).json_patch().build();
    assert(base@ =~= spec_resource(config.id@).base_document());
    let document = base.with(
        "FirmwareVersion",
        JsonValue::string(config.firmware_version.as_str()),
    );
    let mut list: Vec<Entry> = Vec::new();
    list.push(Entry { id: config.id.clone(), document });
    assert(entry_models(list@) =~= spec_entries(config@));
    list
}

/// The routes of the managers: the collection, and reading and writing one
/// of its members.
pub open spec fn routes() -> Seq<RouteModel> {
    seq![
        RouteModel {
            method: Method::Get,
            path: "/redfish/v1/Managers"@,
            handler: Handler::GetManagerCollection,
        },
        RouteModel {
            method: Method::Get,
            path: "/redfish/v1/Managers/{manager_id}"@,
            handler: Handler::GetManager,
        },
        RouteModel {
            method: Method::Patch,
            path: "/redfish/v1/Managers/{manager_id}"@,
            handler: Handler::PatchManager,
        },
    ]
}

/// Registers the routes of the managers.
pub fn add_routes(r: Router) -> (router: Router)
    ensures
        router@ == r@ + routes(),
{
    let router = r.route(Method::Get, "/redfish/v1/Managers", Handler::GetManagerCollection).route(
        Method::Get,
        "/redfish/v1/Managers/{manager_id}",
        Handler::GetManager,
    ).route(Method::Patch, "/redfish/v1/Managers/{manager_id}", Handler::PatchManager);
    assert(router@ =~= r@ + routes());
    router
}

/// Answers `GET /redfish/v1/Managers` with the collection of the managers.
pub fn get_collection(state: &ManagerState) -> (response: Response)
    ensures
        response@ == (ResponseModel {
            status: 200,
            body: JsonModel::Object(
                collection_document(
                    spec_collection_resource(),
                    entry_ids(spec_entries(state@.config@)),
                ),
            ),
        }),
{
    collection(&collection_resource(), &entries(state.config()))
}

/// Answers `GET /redfish/v1/Managers/{manager_id}` with the document of the manager,
/// or "not found" where there is no manager of that identifier.
pub fn get(state: &ManagerState, id: &str) -> (response: Response)
    ensures
        response@ == member_response(
            find_document(spec_entries(state@.config@), id@),
            state@.overrides,
            id@,
        ),
{
    let base = find(entries(state.config()), id);
    state.get_member(id, base)
}

/// Answers `PATCH /redfish/v1/Managers/{manager_id}`: the fields of the body are written
/// over the manager, and the answer shows it as it is then. `body` is the
/// request's body as a JSON document, `None` where it is no JSON.
pub fn patch(state: &mut ManagerState, id: &str, body: Option<JsonValue>) -> (response: Response)
    ensures
        final(state)@.config == old(state)@.config,
        final(state)@.overrides == overrides_after_patch(
            find_document(spec_entries(old(state)@.config@), id@),
            old(state)@.overrides,
            id@,
            opt_value(body),
        ),
        response@ == patch_response(
            find_document(spec_entries(old(state)@.config@), id@),
            old(state)@.overrides,
            id@,
            opt_value(body),
        ),
{
    let base = find(entries(state.config()), id);
    state.patch_member(id, base, body)
}

} // verus!
