//! The task service: what became of a long-running request.

use vstd::prelude::*;
use crate::http::Response;
use crate::http::ResponseModel;
use crate::json::JsonModel;
use crate::json::JsonObject;
use crate::json::JsonValue;
use crate::router::Handler;
use crate::router::Method;
use crate::router::RouteModel;
use crate::router::Router;

verus! {

/// The route of the task service.
pub open spec fn routes() -> Seq<RouteModel> {
    seq![
        RouteModel {
            method: Method::Get,
            path: "/redfish/v1/TaskService/Tasks/{task_id}"@,
            handler: Handler::GetTask,
        },
    ]
}

/// Registers the route of the task service.
pub fn add_routes(r: Router) -> (router: Router)
    ensures
        router@ == r@ + routes(),
{
    let router = r.route(
        Method::Get,
        "/redfish/v1/TaskService/Tasks/{task_id}",
        Handler::GetTask,
    );
    assert(router@ =~= r@ + routes());
    router
}

/// The fields that every task document carries.
pub open spec fn task_identity() -> Map<Seq<char>, JsonModel> {
    Map::<Seq<char>, JsonModel>::empty().insert(
        "@odata.id"@,
        JsonModel::String("/redfish/v1/TaskService/Tasks/0"@),
    ).insert("@odata.type"@, JsonModel::String("#Task.v1_4_3.Task"@)).insert(
        "Id"@,
        JsonModel::String("0"@),
    )
}

/// The document of a task that has run to its end.
pub open spec fn completed_task() -> Map<Seq<char>, JsonModel> {
    task_identity().insert("PercentComplete"@, JsonModel::Number(100)).insert(
        "StartTime"@,
        JsonModel::String("2024-01-30T09:00:52+00:00"@),
    ).insert("TaskMonitor"@, JsonModel::String("/redfish/v1/TaskService/Tasks/0/Monitor"@)).insert(
        "TaskState"@,
        JsonModel::String("Completed"@),
    ).insert("TaskStatus"@, JsonModel::String("OK"@))
}

/// The identity of the one task that the mock knows.
fn task_document() -> (document: JsonObject)
    ensures
        document@ == task_identity(),
{
    JsonObject::new().with(
        "@odata.id",
        JsonValue::string("/redfish/v1/TaskService/Tasks/0"),
    ).with("@odata.type", JsonValue::string("#Task.v1_4_3.Task")).with(
        "Id",
        JsonValue::string("0"),
    )
}

/// Answers `GET /redfish/v1/TaskService/Tasks/{task_id}`: whatever task is
/// asked for, it has completed.
pub fn get_task() -> (response: Response)
    ensures
        response@ == (ResponseModel { status: 200, body: JsonModel::Object(completed_task()) }),
{
    let document = task_document().with("PercentComplete", JsonValue::Number(100)).with(
        "StartTime",
        JsonValue::string("2024-01-30T09:00:52+00:00"),
    ).with("TaskMonitor", JsonValue::string("/redfish/v1/TaskService/Tasks/0/Monitor")).with(
        "TaskState",
        JsonValue::string("Completed"),
    ).with("TaskStatus", JsonValue::string("OK"));
    JsonValue::Object(document).into_ok_response()
}

/// The answer to a firmware update that was accepted: the task that stands
/// for it.
pub fn update_firmware_simple_update_task() -> (response: Response)
    ensures
        response@ == (ResponseModel { status: 200, body: JsonModel::Object(task_identity()) }),
{
    JsonValue::Object(task_document()).into_ok_response()
}

} // verus!
