//! The service root: where a client starts.

use vstd::prelude::*;
use crate::http::Response;
use crate::http::ResponseModel;
use crate::json::JsonModel;
use crate::json::JsonValue;
use crate::redfish::Resource;
use crate::redfish::ResourceModel;
use crate::redfish::collection::link;
use crate::redfish::collection::link_to;
use crate::router::Handler;
use crate::router::Method;
use crate::router::RouteModel;
use crate::router::Router;

verus! {

/// The identity of the service root.
pub open spec fn spec_resource() -> ResourceModel {
    ResourceModel {
        odata_id: "/redfish/v1"@,
        odata_type: "#ServiceRoot.v1_10_0.ServiceRoot"@,
        id: "RootService"@,
        name: "Root Service"@,
    }
}

/// The document of the service root: its identity, and a reference to each
/// family of resources.
pub open spec fn service_root_document() -> Map<Seq<char>, JsonModel> {
    spec_resource().base_document().insert("Chassis"@, link("/redfish/v1/Chassis"@)).insert(
        "Managers"@,
        link("/redfish/v1/Managers"@),
    ).insert("Systems"@, link("/redfish/v1/Systems"@)).insert(
        "UpdateService"@,
        link("/redfish/v1/UpdateService"@),
    )
}

/// The route of the service root.
pub open spec fn routes() -> Seq<RouteModel> {
    seq![
        RouteModel { method: Method::Get, path: "/redfish/v1"@, handler: Handler::GetServiceRoot },
    ]
}

/// Registers the route of the service root.
pub fn add_routes(r: Router) -> (router: Router)
    ensures
        router@ == r@ + routes(),
{
    let router = r.route(Method::Get, "/redfish/v1", Handler::GetServiceRoot);
    assert(router@ =~= r@ + routes());
    router
}

/// The identity of the service root.
pub fn resource() -> (resource: Resource)
    ensures
        resource@ == spec_resource(),
{
    Resource {
        odata_id: "/redfish/v1".to_owned(),
        odata_type: "#ServiceRoot.v1_10_0.ServiceRoot".to_owned(),
        id: "RootService".to_owned(),
        name: "Root Service".to_owned(),
    }
}

/// Answers `GET /redfish/v1`. The answer is the same on every instance.
pub fn get() -> (response: Response)
    ensures
        response@ == (ResponseModel {
            status: 200,
            body: JsonModel::Object(service_root_document()),
        }),
{
    let document = resource().json_patch().build().with(
        "Chassis",
        link_to("/redfish/v1/Chassis"),
    ).with("Managers", link_to("/redfish/v1/Managers")).with(
        "Systems",
        link_to("/redfish/v1/Systems"),
    ).with("UpdateService", link_to("/redfish/v1/UpdateService"));
    assert(document@ =~= service_root_document());
    JsonValue::Object(document).into_ok_response()
}

} // verus!
