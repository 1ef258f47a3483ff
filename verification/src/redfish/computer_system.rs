//! The computer system family.

use vstd::prelude::*;
use crate::http::Response;
use crate::http::ResponseModel;
use crate::json::JsonModel;
use crate::json::JsonObject;
use crate::json::JsonValue;
use crate::json::documents;
use crate::redfish::Resource;
use crate::redfish::ResourceModel;
use crate::redfish::collection::Entry;
use crate::redfish::collection::EntryModel;
use crate::redfish::collection::collection;
use crate::redfish::collection::collection_document;
use crate::redfish::collection::entry_ids;
use crate::redfish::collection::entry_models;
use crate::redfish::collection::find;
use crate::redfish::collection::find_document;
use crate::redfish::collection::with_opt_text;
use crate::redfish::collection::with_optional;
use crate::redfish::family::FamilyState;
use crate::redfish::family::member_response;
use crate::redfish::family::opt_value;
use crate::redfish::family::overrides_after_patch;
use crate::redfish::family::patch_response;
use crate::router::Handler;
use crate::router::Method;
use crate::router::RouteModel;
use crate::router::Router;
use crate::text::joined;
use crate::text::opt_text;
use crate::text::text_list;

verus! {

/// How a system keeps its boot order.
#[derive(Debug, Clone, Copy, PartialEq, Eq, Structural)]
pub enum BootOrderMode {
    Generic,
    DellOem,
}

/// How a system exposes its BIOS settings.
#[derive(Debug, Clone, Copy, PartialEq, Eq, Structural)]
pub enum BiosMode {
    Generic,
    DellOem,
}

/// One system entry. `P` is the handle through which the power of the
/// system is controlled; the library carries it and never looks into it.
pub struct SingleSystemConfig<P> {
    pub id: String,
    pub manufacturer: Option<String>,
    pub model: Option<String>,
    pub eth_interfaces: Vec<JsonObject>,
    pub chassis: Vec<String>,
    pub serial_number: Option<String>,
    pub boot_order_mode: BootOrderMode,
    pub power_control: Option<P>,
    pub boot_options: Vec<JsonObject>,
    pub bios_mode: BiosMode,
    pub base_bios: JsonObject,
}

/// The systems that an instance is configured with.
pub struct SystemConfig<P> {
    pub systems: Vec<SingleSystemConfig<P>>,
}

/// The mathematical value of a system entry.
pub struct SingleSystemModel<P> {
    pub id: Seq<char>,
    pub manufacturer: Option<Seq<char>>,
    pub model: Option<Seq<char>>,
    pub eth_interfaces: Seq<Map<Seq<char>, JsonModel>>,
    pub chassis: Seq<Seq<char>>,
    pub serial_number: Option<Seq<char>>,
    pub boot_order_mode: BootOrderMode,
    pub power_control: Option<P>,
    pub boot_options: Seq<Map<Seq<char>, JsonModel>>,
    pub bios_mode: BiosMode,
    pub base_bios: Map<Seq<char>, JsonModel>,
}

impl<P> View for SingleSystemConfig<P> {
    type V = SingleSystemModel<P>;

    open spec fn view(&self) -> SingleSystemModel<P> {
        SingleSystemModel {
            id: self.id@,
            manufacturer: opt_text(self.manufacturer),
            model: opt_text(self.model),
            eth_interfaces: documents(self.eth_interfaces@),
            chassis: text_list(self.chassis@),
            serial_number: opt_text(self.serial_number),
            boot_order_mode: self.boot_order_mode,
            power_control: self.power_control,
            boot_options: documents(self.boot_options@),
            bios_mode: self.bios_mode,
            base_bios: self.base_bios@,
        }
    }
}

impl<P> View for SystemConfig<P> {
    type V = Seq<SingleSystemModel<P>>;

    open spec fn view(&self) -> Seq<SingleSystemModel<P>> {
        self.systems@.map_values(|s: SingleSystemConfig<P>| s@)
    }
}

/// The state of the computer system family.
pub type SystemState<P> = FamilyState<SystemConfig<P>>;

/// The identity of the collection of systems.
pub open spec fn spec_collection_resource() -> ResourceModel {
    ResourceModel {
        odata_id: "/redfish/v1/Systems"@,
        odata_type: "#ComputerSystemCollection.ComputerSystemCollection"@,
        id: ""@,
        name: "Computer System Collection"@,
    }
}

/// The identity of a system.
pub open spec fn spec_resource(id: Seq<char>) -> ResourceModel {
    ResourceModel {
        odata_id: "/redfish/v1/Systems/"@ + id,
        odata_type: "#ComputerSystem.v1_20_0.ComputerSystem"@,
        id,
        name: id,
    }
}

/// The identity of the collection of systems.
pub fn collection_resource() -> (resource: Resource)
    ensures
        resource@ == spec_collection_resource(),
{
    Resource {
        odata_id: "/redfish/v1/Systems".to_owned(),
        odata_type: "#ComputerSystemCollection.ComputerSystemCollection".to_owned(),
        id: "".to_owned(),
        name: "Computer System Collection".to_owned(),
    }
}

/// The identity of a system.
pub fn resource(id: &str) -> (resource: Resource)
    ensures
        resource@ == spec_resource(id@),
{
    Resource {
        odata_id: joined("/redfish/v1/Systems/", id),
        odata_type: "#ComputerSystem.v1_20_0.ComputerSystem".to_owned(),
        id: id.to_owned(),
        name: id.to_owned(),
    }
}

/// The document of a system, as its configuration describes it: its
/// identity, and each of manufacturer, model and serial number that the
/// system reports.
pub open spec fn system_document<P>(system: SingleSystemModel<P>) -> Map<Seq<char>, JsonModel> {
    with_opt_text(
        with_opt_text(
            with_opt_text(
                spec_resource(system.id).base_document(),
                "Manufacturer"@,
                system.manufacturer,
            ),
            "Model"@,
            system.model,
        ),
        "SerialNumber"@,
        system.serial_number,
    )
}

/// The systems of a configuration as the members of their collection.
pub open spec fn spec_entries<P>(config: Seq<SingleSystemModel<P>>) -> Seq<EntryModel> {
    config.map_values(
        |s: SingleSystemModel<P>| EntryModel { id: s.id, document: system_document(s) },
    )
}

/// The systems of a configuration as the members of their collection.
pub fn entries<P>(config: &SystemConfig<P>) -> (list: Vec<Entry>)
    ensures
        entry_models(list@) == spec_entries(config@),
{
    let mut list: Vec<Entry> = Vec::new();
    let mut i: usize = 0;
    while i < config.systems.len()
        invariant
            i <= config.systems.len(),
            list@.len() == i,
            forall|j: int|
                0 <= j < i ==> (#[trigger] list@[j])@ == (EntryModel {
                    id: config.systems@[j].id@,
                    document: system_document(config.systems@[j]@),
                }),
        decreases config.systems.len() - i,
    {
        let system = &config.systems[i];
        let base = resource(system.id.as_str()).json_patch().build();
        assert(base@ =~= spec_resource(system.id@).base_document());
        let document = with_optional(
            with_optional(
                with_optional(base, "Manufacturer", &system.manufacturer),
                "Model",
                &system.model,
            ),
            "SerialNumber",
            &system.serial_number,
        );
        list.push(Entry { id: system.id.clone(), document });
        i += 1;
    }
    assert(entry_models(list@) =~= spec_entries(config@));
    list
}

/// The routes of the systems: the collection, and reading and writing one
/// of its members.
pub open spec fn routes() -> Seq<RouteModel> {
    seq![
        RouteModel {
            method: Method::Get,
            path: "/redfish/v1/Systems"@,
            handler: Handler::GetSystemCollection,
        },
        RouteModel {
            method: Method::Get,
            path: "/redfish/v1/Systems/{system_id}"@,
            handler: Handler::GetSystem,
        },
        RouteModel {
            method: Method::Patch,
            path: "/redfish/v1/Systems/{system_id}"@,
            handler: Handler::PatchSystem,
        },
    ]
}

/// Registers the routes of the systems.
pub fn add_routes(r: Router) -> (router: Router)
    ensures
        router@ == r@ + routes(),
{
    let router = r.route(Method::Get, "/redfish/v1/Systems", Handler::GetSystemCollection).route(
        Method::Get,
        "/redfish/v1/Systems/{system_id}",
        Handler::GetSystem,
    ).route(Method::Patch, "/redfish/v1/Systems/{system_id}", Handler::PatchSystem);
    assert(router@ =~= r@ + routes());
    router
}

/// Answers `GET /redfish/v1/Systems` with the collection of the systems.
pub fn get_collection<P>(state: &SystemState<P>) -> (response: Response)
    ensures
        response@ == (ResponseModel {
            status: 200,
            body: JsonModel::Object(
                collection_document(
                    spec_collection_resource(),
                    entry_ids(spec_entries(state@.config@)),
                ),
            ),
        }),
{
    collection(&collection_resource(), &entries(state.config()))
}

/// Answers `GET /redfish/v1/Systems/{system_id}` with the document of the system,
/// or "not found" where there is no system of that identifier.
pub fn get<P>(state: &SystemState<P>, id: &str) -> (response: Response)
    ensures
        response@ == member_response(
            find_document(spec_entries(state@.config@), id@),
            state@.overrides,
            id@,
        ),
{
    let base = find(entries(state.config()), id);
    state.get_member(id, base)
}

/// Answers `PATCH /redfish/v1/Systems/{system_id}`: the fields of the body are written
/// over the system, and the answer shows it as it is then. `body` is the
/// request's body as a JSON document, `None` where it is no JSON.
pub fn patch<P>(state: &mut SystemState<P>, id: &str, body: Option<JsonValue>) -> (response:
    Response)
    ensures
        final(state)@.config == old(state)@.config,
        final(state)@.overrides == overrides_after_patch(
            find_document(spec_entries(old(state)@.config@), id@),
            old(state)@.overrides,
            id@,
            opt_value(body),
        ),
        response@ == patch_response(
            find_document(spec_entries(old(state)@.config@), id@),
            old(state)@.overrides,
            id@,
            opt_value(body),
        ),
{
    let base = find(entries(state.config()), id);
    state.patch_member(id, base, body)
}

} // verus!
