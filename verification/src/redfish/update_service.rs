//! The update service family.

use vstd::prelude::*;
use crate::http::Response;
use crate::http::ResponseModel;
use crate::json::JsonModel;
use crate::json::JsonObject;
use crate::json::JsonValue;
use crate::json::documents;
use crate::json::items_model;
use crate::json::lemma_items_index;
use crate::redfish::Resource;
use crate::redfish::ResourceModel;
use crate::redfish::family::FamilyState;
use crate::redfish::family::member_response;
use crate::redfish::task_service::task_identity;
use crate::redfish::task_service::update_firmware_simple_update_task;
use crate::router::Handler;
use crate::router::Method;
use crate::router::RouteModel;
use crate::router::Router;

verus! {

/// What the update service is configured with: the firmware inventory.
pub struct UpdateServiceConfig {
    pub firmware_inventory: Vec<JsonObject>,
}

/// The state of the update service family.
pub type UpdateServiceState = FamilyState<UpdateServiceConfig>;

impl View for UpdateServiceConfig {
    type V = Seq<Map<Seq<char>, JsonModel>>;

    open spec fn view(&self) -> Seq<Map<Seq<char>, JsonModel>> {
        documents(self.firmware_inventory@)
    }
}

/// The identity of the update service.
pub open spec fn spec_resource() -> ResourceModel {
    ResourceModel {
        odata_id: "/redfish/v1/UpdateService"@,
        odata_type: "#UpdateService.v1_9_0.UpdateService"@,
        id: "UpdateService"@,
        name: "Update Service"@,
    }
}

/// The document of the update service, as its configuration describes it:
/// its identity and the firmware inventory.
pub open spec fn update_service_document(
    inventory: Seq<Map<Seq<char>, JsonModel>>,
) -> Map<Seq<char>, JsonModel> {
    spec_resource().base_document().insert(
        "FirmwareInventory"@,
        JsonModel::Array(inventory.map_values(|d: Map<Seq<char>, JsonModel>| JsonModel::Object(d))),
    )
}

/// The routes of the update service: the service itself, and the action
/// that starts an update.
pub open spec fn routes() -> Seq<RouteModel> {
    seq![
        RouteModel {
            method: Method::Get,
            path: "/redfish/v1/UpdateService"@,
            handler: Handler::GetUpdateService,
        },
        RouteModel {
            method: Method::Post,
            path: "/redfish/v1/UpdateService/Actions/UpdateService.SimpleUpdate"@,
            handler: Handler::SimpleUpdate,
        },
    ]
}

/// Registers the routes of the update service.
pub fn add_routes(r: Router) -> (router: Router)
    ensures
        router@ == r@ + routes(),
{
    let router = r.route(
        Method::Get,
        "/redfish/v1/UpdateService",
        Handler::GetUpdateService,
    ).route(
        Method::Post,
        "/redfish/v1/UpdateService/Actions/UpdateService.SimpleUpdate",
        Handler::SimpleUpdate,
    );
    assert(router@ =~= r@ + routes());
    router
}

/// Answers `GET /redfish/v1/UpdateService`.
pub fn get(state: &UpdateServiceState) -> (response: Response)
    ensures
        response@ == member_response(
            Some(update_service_document(state@.config@)),
            state@.overrides,
            "UpdateService"@,
        ),
{
    let config = state.config();
    let mut inventory: Vec<JsonValue> = Vec::new();
    let mut i: usize = 0;
    while i < config.firmware_inventory.len()
        invariant
            i <= config.firmware_inventory.len(),
            inventory@.len() == i,
            forall|j: int|
                0 <= j < i ==> (#[trigger] inventory@[j])@ == JsonModel::Object(
                    config.firmware_inventory@[j]@,
                ),
        decreases config.firmware_inventory.len() - i,
    {
        inventory.push(JsonValue::Object(config.firmware_inventory[i].clone()));
        i += 1;
    }
    proof {
        lemma_items_index(inventory@);
        assert(items_model(inventory@) =~= config@.map_values(
            |d: Map<Seq<char>, JsonModel>| JsonModel::Object(d),
        ));
    }
    let resource = Resource {
        odata_id: "/redfish/v1/UpdateService".to_owned(),
        odata_type: "#UpdateService.v1_9_0.UpdateService".to_owned(),
        id: "UpdateService".to_owned(),
        name: "Update Service".to_owned(),
    };
    let document = resource.json_patch().build().with(
        "FirmwareInventory",
        JsonValue::Array(inventory),
    );
    assert(document@ =~= update_service_document(config@));
    state.get_member("UpdateService", Some(document))
}

/// Answers `POST .../Actions/UpdateService.SimpleUpdate`: the update is
/// accepted, and the answer names the task that stands for it.
pub fn simple_update() -> (response: Response)
    ensures
        response@ == (ResponseModel { status: 200, body: JsonModel::Object(task_identity()) }),
{
    update_firmware_simple_update_task()
}

} // verus!
