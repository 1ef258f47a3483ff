//! Injected faults: how a test makes an instance misbehave on purpose.

use vstd::prelude::*;
use crate::http::Response;
use crate::http::ResponseModel;
use crate::http::bad_request;
use crate::http::error_body;
use crate::json::JsonModel;
use crate::json::JsonObject;
use crate::json::JsonValue;
use crate::json::lemma_fields_absent;
use crate::json::lemma_fields_present;
use crate::json::name_set;
use crate::text::joined;
use crate::text::str_eq;

verus! {

/// The faults injected into one instance: for each fault that is switched
/// on, what it is to do. Only the faults that the instance knows by name can
/// be injected.
pub struct InjectedBugs {
    known: Vec<String>,
    active: JsonObject,
}

/// Why a fault description was refused.
#[derive(Debug)]
pub enum BugError {
    /// The description is not a JSON object.
    NotAnObject,
    /// The description names a fault that the instance does not know.
    UnknownFault(String),
}

/// What an update of the fault store comes to: the new map of faults, or
/// nothing where the description is refused. The description is taken whole
/// or not at all.
pub open spec fn updated_faults(
    known: Set<Seq<char>>,
    active: Map<Seq<char>, JsonModel>,
    bug_args: JsonModel,
) -> Option<Map<Seq<char>, JsonModel>> {
    match bug_args {
        JsonModel::Object(faults) => if faults.dom().subset_of(known) {
            Some(active.union_prefer_right(faults))
        } else {
            None
        },
        _ => None,
    }
}

impl BugError {
    /// The text that describes an error.
    pub open spec fn spec_message(self) -> Seq<char> {
        match self {
            BugError::NotAnObject => "fault description is not a JSON object"@,
            BugError::UnknownFault(name) => "unknown fault: "@ + name@,
        }
    }

    /// The text that describes this error.
    pub fn message(&self) -> (text: String)
        ensures
            text@ == self.spec_message(),
    {
        match self {
            BugError::NotAnObject => "fault description is not a JSON object".to_owned(),
            BugError::UnknownFault(name) => joined("unknown fault: ", name.as_str()),
        }
    }
}

impl InjectedBugs {
    /// The names of the faults that can be injected.
    pub closed spec fn known(&self) -> Set<Seq<char>> {
        name_set(self.known@)
    }

    /// The faults that are switched on.
    pub closed spec fn active(&self) -> Map<Seq<char>, JsonModel> {
        self.active@
    }

    /// A store that knows the given faults, with none of them switched on.
    pub fn new(known: Vec<String>) -> (bugs: InjectedBugs)
        ensures
            bugs.known() == name_set(known@),
            bugs.active() == Map::<Seq<char>, JsonModel>::empty(),
    {
        InjectedBugs { known, active: JsonObject::new() }
    }

    /// The faults that are switched on, as a document.
    pub fn get(&self) -> (faults: JsonValue)
        ensures
            faults@ == JsonModel::Object(self.active()),
    {
        JsonValue::Object(self.active.clone())
    }

    /// Whether the store knows a fault of this name.
    fn knows(&self, name: &str) -> (found: bool)
        ensures
            found == self.known().contains(name@),
    {
        let mut i: usize = 0;
        while i < self.known.len()
            invariant
                i <= self.known.len(),
                forall|j: int| 0 <= j < i ==> #[trigger] self.known@[j]@ != name@,
            decreases self.known.len() - i,
        {
            if str_eq(self.known[i].as_str(), name) {
                return true;
            }
            i += 1;
        }
        false
    }

    /// Switches on the faults that `bug_args` describes: an object with one
    /// field per fault. Every fault must be known, or nothing is changed. A
    /// fault that is on already gets its new description; the other faults
    /// stay as they are.
    pub fn update(&mut self, bug_args: JsonValue) -> (res: Result<(), BugError>)
        ensures
            final(self).known() == old(self).known(),
            match updated_faults(old(self).known(), old(self).active(), bug_args@) {
                Some(faults) => res is Ok && final(self).active() == faults,
                None => res is Err && final(self).active() == old(self).active(),
            },
            res matches Err(BugError::NotAnObject) ==> !(bug_args@ is Object),
            res matches Err(BugError::UnknownFault(name)) ==> bug_args@ is Object
                && bug_args@->Object_0.contains_key(name@) && !old(self).known().contains(name@),
    {
        let ghost described = bug_args@;
        let faults = match bug_args {
            JsonValue::Object(faults) => faults,
            _ => {
                return Err(BugError::NotAnObject);
            },
        };
        let mut i: usize = 0;
        while i < faults.fields.len()
            invariant
                i <= faults.fields.len(),
                *self == *old(self),
                described == bug_args@,
                described == JsonModel::Object(faults@),
                forall|j: int| 0 <= j < i ==> self.known().contains(#[trigger] faults.fields@[j].0@),
            decreases faults.fields.len() - i,
        {
            if !self.knows(faults.fields[i].0.as_str()) {
                proof {
                    lemma_fields_present(faults.fields@, i as int);
                }
                return Err(BugError::UnknownFault(faults.fields[i].0.clone()));
            }
            i += 1;
        }
        proof {
            assert forall|k: Seq<char>| faults@.dom().contains(k) implies self.known().contains(
                k,
            ) by {
                if !self.known().contains(k) {
                    lemma_fields_absent(faults.fields@, k);
                }
            }
        }
        self.active.merge(&faults);
        Ok(())
    }
}

/// The answer to a request for the injected faults.
pub open spec fn injected_bugs_response(active: Map<Seq<char>, JsonModel>) -> ResponseModel {
    ResponseModel { status: 200, body: JsonModel::Object(active) }
}

/// Answers `GET /InjectedBugs` with the faults that are switched on.
pub fn get_injected_bugs(bugs: &InjectedBugs) -> (response: Response)
    ensures
        response@ == injected_bugs_response(bugs.active()),
{
    bugs.get().into_ok_response()
}

/// The document of a request body, where the body is one.
pub open spec fn body_model(body: Option<JsonValue>) -> Option<JsonModel> {
    match body {
        Some(document) => Some(document@),
        None => None,
    }
}

/// Whether `response` refuses a fault description: status 400, and a body
/// that gives the reason. For a body that is no JSON and for a document that
/// is no object the reason is fixed; for an object it names one of the
/// faults in it that the store does not know.
pub open spec fn refuses(
    known: Set<Seq<char>>,
    body: Option<JsonModel>,
    response: ResponseModel,
) -> bool {
    &&& response.status == 400
    &&& match body {
        None => response.body == error_body("request body is not valid JSON"@),
        Some(JsonModel::Object(faults)) => exists|name: Seq<char>|
            faults.contains_key(name) && !known.contains(name) && response.body == error_body(
                "unknown fault: "@ + name,
            ),
        Some(_) => response.body == error_body("fault description is not a JSON object"@),
    }
}

/// What a request to inject faults comes to, as a relation between the
/// store before, the request's body, the store after and the answer.
///
/// A description that the store accepts is applied, and the answer shows the
/// faults as they are then. Anything else is refused, and the faults are
/// exactly as they were.
pub open spec fn posted(
    known: Set<Seq<char>>,
    active: Map<Seq<char>, JsonModel>,
    body: Option<JsonModel>,
    active_after: Map<Seq<char>, JsonModel>,
    response: ResponseModel,
) -> bool {
    let accepted = match body {
        Some(bug_args) => updated_faults(known, active, bug_args),
        None => None,
    };
    match accepted {
        Some(faults) => active_after == faults && response == injected_bugs_response(faults),
        None => active_after == active && refuses(known, body, response),
    }
}

/// Answers `POST /InjectedBugs`. `body` is the request's body as a JSON
/// document, or `None` where the body is not JSON at all.
pub fn post_injected_bugs(bugs: &mut InjectedBugs, body: Option<JsonValue>) -> (response: Response)
    ensures
        final(bugs).known() == old(bugs).known(),
        posted(
            old(bugs).known(),
            old(bugs).active(),
            body_model(body),
            final(bugs).active(),
            response@,
        ),
{
    let bug_args = match body {
        Some(bug_args) => bug_args,
        None => {
            return bad_request("request body is not valid JSON");
        },
    };
    match bugs.update(bug_args) {
        Ok(()) => bugs.get().into_ok_response(),
        Err(err) => {
            let reason = err.message();
            let response = bad_request(reason.as_str());
            proof {
                match err {
                    BugError::NotAnObject => {},
                    BugError::UnknownFault(name) => {
                        assert(bug_args@->Object_0.contains_key(name@));
                    },
                }
            }
            response
        },
    }
}

/// What a run of fault descriptions, applied one after the other, makes of
/// the map of faults; `None` where one of them is refused.
pub open spec fn faults_after(
    known: Set<Seq<char>>,
    active: Map<Seq<char>, JsonModel>,
    updates: Seq<JsonModel>,
) -> Option<Map<Seq<char>, JsonModel>>
    decreases updates.len(),
{
    if updates.len() == 0 {
        Some(active)
    } else {
        match faults_after(known, active, updates.drop_last()) {
            Some(before) => updated_faults(known, before, updates.last()),
            None => None,
        }
    }
}

/// An update that is accepted loses no fault: every fault that was on, and
/// every fault that the description names, is on afterwards.
pub proof fn lemma_update_keeps_faults(
    known: Set<Seq<char>>,
    active: Map<Seq<char>, JsonModel>,
    bug_args: JsonModel,
    fault: Seq<char>,
)
    requires
        updated_faults(known, active, bug_args) is Some,
        active.contains_key(fault) || (bug_args is Object && bug_args->Object_0.contains_key(
            fault,
        )),
    ensures
        updated_faults(known, active, bug_args)->Some_0.contains_key(fault),
{
}

/// After any number of updates that were all accepted, every fault that any
/// of them named is on: no update is lost to a later one.
pub proof fn lemma_updates_hold_every_fault(
    known: Set<Seq<char>>,
    active: Map<Seq<char>, JsonModel>,
    updates: Seq<JsonModel>,
    i: int,
    fault: Seq<char>,
)
    requires
        faults_after(known, active, updates) is Some,
        0 <= i < updates.len(),
        updates[i] is Object,
        updates[i]->Object_0.contains_key(fault),
    ensures
        faults_after(known, active, updates)->Some_0.contains_key(fault),
    decreases updates.len(),
{
    let before = faults_after(known, active, updates.drop_last());
    if i < updates.len() - 1 {
        lemma_updates_hold_every_fault(known, active, updates.drop_last(), i, fault);
        lemma_update_keeps_faults(known, before->Some_0, updates.last(), fault);
    } else {
        lemma_update_keeps_faults(known, before->Some_0, updates.last(), fault);
    }
}

} // verus!
