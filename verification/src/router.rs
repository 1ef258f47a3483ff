//! The routing table of one instance: which handler answers which request.

use vstd::prelude::*;

verus! {

/// The request methods that the mock answers.
#[derive(Debug, Clone, Copy, PartialEq, Eq, Structural)]
pub enum Method {
    Get,
    Post,
    Patch,
}

/// The handlers of an instance, by name.
#[derive(Debug, Clone, Copy, PartialEq, Eq, Structural)]
pub enum Handler {
    GetInjectedBugs,
    PostInjectedBugs,
    GetServiceRoot,
    GetChassisCollection,
    GetChassis,
    PatchChassis,
    GetManagerCollection,
    GetManager,
    PatchManager,
    GetUpdateService,
    SimpleUpdate,
    GetTask,
    GetAccountCollection,
    GetAccount,
    GetSystemCollection,
    GetSystem,
    PatchSystem,
    GetOemNvidia,
    HostRshimSet,
    PatchManagersOemNvidia,
    GetDellJob,
    CreateDellBiosJob,
}

/// One entry of the table. In `path`, a segment in braces stands for any
/// one segment of a request's path.
#[derive(Debug)]
pub struct Route {
    pub method: Method,
    pub path: String,
    pub handler: Handler,
}

/// The mathematical value of a route.
pub struct RouteModel {
    pub method: Method,
    pub path: Seq<char>,
    pub handler: Handler,
}

impl View for Route {
    type V = RouteModel;

    open spec fn view(&self) -> RouteModel {
        RouteModel { method: self.method, path: self.path@, handler: self.handler }
    }
}

/// The routes of one instance, in the order in which they were registered.
#[derive(Debug)]
pub struct Router {
    pub routes: Vec<Route>,
}

impl View for Router {
    type V = Seq<RouteModel>;

    open spec fn view(&self) -> Seq<RouteModel> {
        self.routes@.map_values(|r: Route| r@)
    }
}

impl Router {
    /// A table without routes.
    pub fn new() -> (router: Router)
        ensures
            router@ == Seq::<RouteModel>::empty(),
    {
        let router = Router { routes: Vec::new() };
        assert(router@ =~= Seq::<RouteModel>::empty());
        router
    }

    /// The table with one more route at its end.
    pub fn route(self, method: Method, path: &str, handler: Handler) -> (router: Router)
        ensures
            router@ == self@.push(RouteModel { method, path: path@, handler }),
    {
        let mut router = self;
        router.routes.push(Route { method, path: path.to_owned(), handler });
        assert(router@ =~= self@.push(RouteModel { method, path: path@, handler }));
        router
    }
}

} // verus!
