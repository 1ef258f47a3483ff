//! The state of one resource family.
//!
//! A family is created from its configuration, which never changes. What
//! requests write to a resource of the family is kept beside it, resource by
//! resource, and shows in the resource's document from then on.

use vstd::prelude::*;
use crate::http::Response;
use crate::http::ResponseModel;
use crate::http::bad_request;
use crate::http::error_body;
use crate::http::not_found;
use crate::json::JsonModel;
use crate::json::JsonObject;
use crate::json::JsonValue;

verus! {

/// What an instance keeps of one family of resources: the configuration the
/// family was created from, and for each resource the fields that requests
/// have written over it since.
pub struct FamilyState<C> {
    config: C,
    overrides: JsonObject,
}

/// The mathematical value of a family's state. `overrides` binds the
/// identifier of a resource to the object of the fields written to it.
pub struct FamilyModel<C> {
    pub config: C,
    pub overrides: Map<Seq<char>, JsonModel>,
}

impl<C> View for FamilyState<C> {
    type V = FamilyModel<C>;

    closed spec fn view(&self) -> FamilyModel<C> {
        FamilyModel { config: self.config, overrides: self.overrides@ }
    }
}

/// The fields written to the resource `id`; none where nothing was written
/// to it.
pub open spec fn member_overrides(
    overrides: Map<Seq<char>, JsonModel>,
    id: Seq<char>,
) -> Map<Seq<char>, JsonModel> {
    if overrides.contains_key(id) {
        match overrides[id] {
            JsonModel::Object(fields) => fields,
            _ => Map::empty(),
        }
    } else {
        Map::empty()
    }
}

/// The overrides of a family after `patch` was written to the resource
/// `id`: the new fields are written over those written before, and the
/// other resources keep theirs.
pub open spec fn patched_overrides(
    overrides: Map<Seq<char>, JsonModel>,
    id: Seq<char>,
    patch: Map<Seq<char>, JsonModel>,
) -> Map<Seq<char>, JsonModel> {
    overrides.insert(id, JsonModel::Object(member_overrides(overrides, id).union_prefer_right(patch)))
}

/// The document of the resource `id`: what its configuration says, with the
/// fields written to it since on top.
pub open spec fn member_document(
    base: Map<Seq<char>, JsonModel>,
    overrides: Map<Seq<char>, JsonModel>,
    id: Seq<char>,
) -> Map<Seq<char>, JsonModel> {
    base.union_prefer_right(member_overrides(overrides, id))
}

/// The answer to a request for the resource `id`. `base` is what the
/// family's configuration says of it, `None` where the family has no such
/// resource.
pub open spec fn member_response(
    base: Option<Map<Seq<char>, JsonModel>>,
    overrides: Map<Seq<char>, JsonModel>,
    id: Seq<char>,
) -> ResponseModel {
    match base {
        Some(document) => ResponseModel {
            status: 200,
            body: JsonModel::Object(member_document(document, overrides, id)),
        },
        None => ResponseModel { status: 404, body: JsonModel::String(Seq::empty()) },
    }
}

/// What writing to the resource `id` makes of the family's overrides. A
/// resource that the family does not have, and a body that is no JSON
/// object, change nothing.
pub open spec fn overrides_after_patch(
    base: Option<Map<Seq<char>, JsonModel>>,
    overrides: Map<Seq<char>, JsonModel>,
    id: Seq<char>,
    body: Option<JsonModel>,
) -> Map<Seq<char>, JsonModel> {
    match (base, body) {
        (Some(_), Some(JsonModel::Object(patch))) => patched_overrides(overrides, id, patch),
        _ => overrides,
    }
}

/// The answer to a request that writes to the resource `id`: "not found"
/// for a resource that the family does not have, a refusal for a body that
/// is no JSON object, and otherwise the resource's document as it is after
/// the write.
pub open spec fn patch_response(
    base: Option<Map<Seq<char>, JsonModel>>,
    overrides: Map<Seq<char>, JsonModel>,
    id: Seq<char>,
    body: Option<JsonModel>,
) -> ResponseModel {
    match base {
        None => ResponseModel { status: 404, body: JsonModel::String(Seq::empty()) },
        Some(document) => match body {
            Some(JsonModel::Object(patch)) => ResponseModel {
                status: 200,
                body: JsonModel::Object(
                    member_document(document, patched_overrides(overrides, id, patch), id),
                ),
            },
            _ => ResponseModel { status: 400, body: error_body("patch is not a JSON object"@) },
        },
    }
}

/// The object that an optional document denotes.
pub open spec fn opt_object(document: Option<JsonObject>) -> Option<Map<Seq<char>, JsonModel>> {
    match document {
        Some(o) => Some(o@),
        None => None,
    }
}

/// The value that an optional document denotes.
pub open spec fn opt_value(document: Option<JsonValue>) -> Option<JsonModel> {
    match document {
        Some(v) => Some(v@),
        None => None,
    }
}

impl<C> FamilyState<C> {
    /// The state of a family that no request has touched yet.
    pub open spec fn initial(config: C) -> FamilyModel<C> {
        FamilyModel { config, overrides: Map::empty() }
    }

    /// Derives a family's state from its configuration.
    pub fn from_config(config: C) -> (state: Self)
        ensures
            state@ == Self::initial(config),
    {
        FamilyState { config, overrides: JsonObject::new() }
    }

    /// The configuration the family was created from.
    pub fn config(&self) -> (config: &C)
        ensures
            *config == self@.config,
    {
        &self.config
    }

    /// The fields written to the resource `id` since the family was
    /// created.
    pub fn overrides_of(&self, id: &str) -> (fields: JsonObject)
        ensures
            fields@ == member_overrides(self@.overrides, id@),
    {
        match self.overrides.get(id) {
            Some(JsonValue::Object(fields)) => fields.clone(),
            _ => JsonObject::new(),
        }
    }

    /// Writes the fields of `patch` over the resource `id`. The
    /// configuration and the other resources stay as they are.
    pub fn apply_patch(&mut self, id: &str, patch: &JsonObject)
        ensures
            final(self)@.config == old(self)@.config,
            final(self)@.overrides == patched_overrides(old(self)@.overrides, id@, patch@),
    {
        let mut fields = self.overrides_of(id);
        fields.merge(patch);
        self.overrides.insert(id, JsonValue::Object(fields));
    }

    /// Answers a request for the resource `id`. `base` is what the
    /// configuration says of the resource, `None` where the family has no
    /// such resource.
    pub fn get_member(&self, id: &str, base: Option<JsonObject>) -> (response: Response)
        ensures
            response@ == member_response(opt_object(base), self@.overrides, id@),
    {
        match base {
            Some(document) => {
                let mut document = document;
                document.merge(&self.overrides_of(id));
                JsonValue::Object(document).into_ok_response()
            },
            None => not_found(),
        }
    }

    /// Answers a request that writes the fields of `body` to the resource
    /// `id`. `base` is as for `get_member`; `body` is the request's body as
    /// a JSON document, `None` where it is no JSON.
    pub fn patch_member(
        &mut self,
        id: &str,
        base: Option<JsonObject>,
        body: Option<JsonValue>,
    ) -> (response: Response)
        ensures
            final(self)@.config == old(self)@.config,
            final(self)@.overrides == overrides_after_patch(
                opt_object(base),
                old(self)@.overrides,
                id@,
                opt_value(body),
            ),
            response@ == patch_response(
                opt_object(base),
                old(self)@.overrides,
                id@,
                opt_value(body),
            ),
    {
        let document = match base {
            Some(document) => document,
            None => {
                return not_found();
            },
        };
        match body {
            Some(JsonValue::Object(patch)) => {
                self.apply_patch(id, &patch);
                self.get_member(id, Some(document))
            },
            _ => bad_request("patch is not a JSON object"),
        }
    }
}

} // verus!
