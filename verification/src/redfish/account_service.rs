//! The account service. The mock keeps no accounts: the collection is there
//! and has no members.

use vstd::prelude::*;
use crate::http::Response;
use crate::http::ResponseModel;
use crate::http::not_found;
use crate::json::JsonModel;
use crate::redfish::Resource;
use crate::redfish::ResourceModel;
use crate::redfish::collection::Entry;
use crate::redfish::collection::collection;
use crate::redfish::collection::collection_document;
use crate::redfish::collection::entry_models;
use crate::router::Handler;
use crate::router::Method;
use crate::router::RouteModel;
use crate::router::Router;

verus! {

/// The identity of the collection of accounts.
pub open spec fn spec_collection_resource() -> ResourceModel {
    ResourceModel {
        odata_id: "/redfish/v1/AccountService/Accounts"@,
        odata_type: "#ManagerAccountCollection.ManagerAccountCollection"@,
        id: ""@,
        name: "Accounts Collection"@,
    }
}

/// The routes of the accounts: the collection, and one of its members.
pub open spec fn routes() -> Seq<RouteModel> {
    seq![
        RouteModel {
            method: Method::Get,
            path: "/redfish/v1/AccountService/Accounts"@,
            handler: Handler::GetAccountCollection,
        },
        RouteModel {
            method: Method::Get,
            path: "/redfish/v1/AccountService/Accounts/{account_id}"@,
            handler: Handler::GetAccount,
        },
    ]
}

/// Registers the routes of the accounts.
pub fn add_routes(r: Router) -> (router: Router)
    ensures
        router@ == r@ + routes(),
{
    let router = r.route(
        Method::Get,
        "/redfish/v1/AccountService/Accounts",
        Handler::GetAccountCollection,
    ).route(
        Method::Get,
        "/redfish/v1/AccountService/Accounts/{account_id}",
        Handler::GetAccount,
    );
    assert(router@ =~= r@ + routes());
    router
}

/// Answers `GET /redfish/v1/AccountService/Accounts` with the collection,
/// which has no members.
pub fn get_collection() -> (response: Response)
    ensures
        response@ == (ResponseModel {
            status: 200,
            body: JsonModel::Object(
                collection_document(spec_collection_resource(), Seq::empty()),
            ),
        }),
{
    let resource = Resource {
        odata_id: "/redfish/v1/AccountService/Accounts".to_owned(),
        odata_type: "#ManagerAccountCollection.ManagerAccountCollection".to_owned(),
        id: "".to_owned(),
        name: "Accounts Collection".to_owned(),
    };
    let members: Vec<Entry> = Vec::new();
    assert(crate::redfish::collection::entry_ids(entry_models(members@)) =~= Seq::empty());
    collection(&resource, &members)
}

/// Answers `GET /redfish/v1/AccountService/Accounts/{account_id}`: there is
/// no account of any identifier.
pub fn get() -> (response: Response)
    ensures
        response@ == (ResponseModel { status: 404, body: JsonModel::String(Seq::empty()) }),
{
    not_found()
}

} // verus!
