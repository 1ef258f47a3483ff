//! Many instance routers behind one endpoint.
//!
//! Every request names the instance it is meant for in its `Forwarded`
//! header. The service keeps one router per routing key and hands each
//! request to the router that its key selects.

use vstd::prelude::*;
use vstd::hash_map::StringHashMap;
use crate::forwarded::forwarded_host;
use crate::forwarded::forwarded_host_of;
use crate::forwarded::normalize_path;
use crate::forwarded::normalized_path;
use crate::http::STATUS_NOT_FOUND;
use crate::text::joined;

verus! {

/// The routers of the instances that are served, by routing key.
#[verifier::reject_recursive_types(R)]
pub struct CombinedService<R> {
    routers: StringHashMap<R>,
}

/// Where a request goes.
pub enum Dispatch<'a, R> {
    /// To the router registered under the request's routing key, with the
    /// normalised path.
    Forward { router: &'a R, path: String },
    /// Nowhere: no instance is registered under the key. The body names the
    /// key that was asked for.
    NotFound { status: u16, body: String },
}

/// The mathematical value of a [`Dispatch`].
pub enum DispatchModel<R> {
    Forward { router: R, path: Seq<char> },
    NotFound { status: int, body: Seq<char> },
}

impl<'a, R> View for Dispatch<'a, R> {
    type V = DispatchModel<R>;

    open spec fn view(&self) -> DispatchModel<R> {
        match *self {
            Dispatch::Forward { router, path } => DispatchModel::Forward {
                router: *router,
                path: path@,
            },
            Dispatch::NotFound { status, body } => DispatchModel::NotFound {
                status: status as int,
                body: body@,
            },
        }
    }
}

/// The key that a request selects: that of its `Forwarded` header, or the
/// empty key where it carries none.
pub open spec fn routing_key(forwarded: Option<Seq<char>>) -> Seq<char> {
    match forwarded {
        Some(header) => forwarded_host(header),
        None => Seq::empty(),
    }
}

/// The body of the answer to a request whose key selects no instance.
pub open spec fn miss_message(key: Seq<char>) -> Seq<char> {
    "no router configured for host: "@ + key
}

/// Where a request with the given path and `Forwarded` header goes, for a
/// given table of routers.
pub open spec fn dispatched<R>(
    routers: Map<Seq<char>, R>,
    path: Seq<char>,
    forwarded: Option<Seq<char>>,
) -> DispatchModel<R> {
    let key = routing_key(forwarded);
    if routers.contains_key(key) {
        DispatchModel::Forward { router: routers[key], path: normalized_path(path) }
    } else {
        DispatchModel::NotFound { status: 404, body: miss_message(key) }
    }
}

impl<R> View for CombinedService<R> {
    type V = Map<Seq<char>, R>;

    closed spec fn view(&self) -> Map<Seq<char>, R> {
        self.routers@
    }
}

impl<R> CombinedService<R> {
    /// A service with no instance registered.
    pub fn new() -> (service: Self)
        ensures
            service@ == Map::<Seq<char>, R>::empty(),
    {
        CombinedService { routers: StringHashMap::new() }
    }

    /// Registers `router` under `key`. A router already registered under that
    /// key is replaced; the other keys keep theirs.
    pub fn insert(&mut self, key: String, router: R)
        ensures
            final(self)@ == old(self)@.insert(key@, router),
    {
        self.routers.insert(key, router);
    }

    /// Takes the instance registered under `key` out of service.
    pub fn remove(&mut self, key: &str)
        ensures
            final(self)@ == old(self)@.remove(key@),
    {
        self.routers.remove(key);
    }

    /// The router registered under `key`.
    pub fn get(&self, key: &str) -> (router: Option<&R>)
        ensures
            match router {
                Some(r) => self@.contains_key(key@) && *r == self@[key@],
                None => !self@.contains_key(key@),
            },
    {
        self.routers.get(key)
    }

    /// Decides where a request goes. The path loses its trailing slash, the
    /// routing key is read from the `Forwarded` header, and the key selects
    /// the router; a key that selects none is answered with status 404 and
    /// a body that names it.
    pub fn call<'a>(&'a self, path: &str, forwarded: Option<&str>) -> (dispatch: Dispatch<'a, R>)
        ensures
            dispatch@ == dispatched(
                self@,
                path@,
                match forwarded {
                    Some(header) => Some(header@),
                    None => None,
                },
            ),
    {
        let key = match forwarded {
            Some(header) => forwarded_host_of(header),
            None => String::new(),
        };
        match self.routers.get(key.as_str()) {
            Some(router) => Dispatch::Forward { router, path: normalize_path(path) },
            None => Dispatch::NotFound {
                status: STATUS_NOT_FOUND,
                body: joined("no router configured for host: ", key.as_str()),
            },
        }
    }
}

/// A request whose header selects a registered key goes to the router
/// registered under that key, and to no other.
pub proof fn lemma_registered_key_reaches_its_router<R>(
    routers: Map<Seq<char>, R>,
    key: Seq<char>,
    path: Seq<char>,
    header: Seq<char>,
)
    requires
        routers.contains_key(key),
        forwarded_host(header) == key,
    ensures
        dispatched(routers, path, Some(header)) == (DispatchModel::Forward {
            router: routers[key],
            path: normalized_path(path),
        }),
{
}

/// A request whose header selects a key that is not registered is answered
/// with status 404, and the body ends with the key.
pub proof fn lemma_unregistered_key_is_not_found<R>(
    routers: Map<Seq<char>, R>,
    path: Seq<char>,
    forwarded: Option<Seq<char>>,
)
    requires
        !routers.contains_key(routing_key(forwarded)),
    ensures
        dispatched(routers, path, forwarded) == (DispatchModel::<R>::NotFound {
            status: 404,
            body: miss_message(routing_key(forwarded)),
        }),
        routing_key(forwarded).is_suffix_of(miss_message(routing_key(forwarded))),
{
    let key = routing_key(forwarded);
    let body = miss_message(key);
    assert(body.subrange(body.len() - key.len(), body.len() as int) =~= key);
}

} // verus!
