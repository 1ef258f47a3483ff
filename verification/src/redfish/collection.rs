//! Collections of resources, and finding a resource among the members of
//! one.

use vstd::prelude::*;
use vstd::string::StringExecFns;
use crate::http::Response;
use crate::http::ResponseModel;
use crate::json::JsonModel;
use crate::json::JsonObject;
use crate::json::JsonValue;
use crate::json::PatchModel;
use crate::json::items_model;
use crate::json::lemma_items_index;
use crate::json::str_set;
use crate::redfish::Resource;
use crate::redfish::ResourceModel;
use crate::text::joined;
use crate::text::opt_text;
use crate::text::str_eq;

verus! {

/// A member of a family as its configuration describes it: its identifier
/// and its document.
pub struct Entry {
    pub id: String,
    pub document: JsonObject,
}

/// The mathematical value of an [`Entry`].
pub struct EntryModel {
    pub id: Seq<char>,
    pub document: Map<Seq<char>, JsonModel>,
}

impl View for Entry {
    type V = EntryModel;

    open spec fn view(&self) -> EntryModel {
        EntryModel { id: self.id@, document: self.document@ }
    }
}

/// The values of a list of entries.
pub open spec fn entry_models(entries: Seq<Entry>) -> Seq<EntryModel> {
    entries.map_values(|e: Entry| e@)
}

/// The identifiers of a list of entries, in order.
pub open spec fn entry_ids(entries: Seq<EntryModel>) -> Seq<Seq<char>> {
    entries.map_values(|e: EntryModel| e.id)
}

/// The document of the first entry with the identifier `id`; `None` where
/// no entry has it.
pub open spec fn find_document(entries: Seq<EntryModel>, id: Seq<char>) -> Option<
    Map<Seq<char>, JsonModel>,
>
    decreases entries.len(),
{
    if entries.len() == 0 {
        None
    } else if entries.first().id == id {
        Some(entries.first().document)
    } else {
        find_document(entries.drop_first(), id)
    }
}

/// A reference to the resource at `odata_id`.
pub open spec fn link(odata_id: Seq<char>) -> JsonModel {
    JsonModel::Object(
        Map::<Seq<char>, JsonModel>::empty().insert("@odata.id"@, JsonModel::String(odata_id)),
    )
}

/// The references to the members of the collection at `base`.
pub open spec fn member_links(base: Seq<char>, ids: Seq<Seq<char>>) -> Seq<JsonModel> {
    ids.map_values(|id: Seq<char>| link(base + "/"@ + id))
}

/// A count as a document holds it: the count itself, or the largest number
/// that a document can hold where the count is larger.
pub open spec fn count_number(count: nat) -> int {
    if count > i64::MAX {
        i64::MAX as int
    } else {
        count as int
    }
}

/// The document of a collection: its identity without an `Id`, the
/// references to its members, and their count.
pub open spec fn collection_document(
    resource: ResourceModel,
    ids: Seq<Seq<char>>,
) -> Map<Seq<char>, JsonModel> {
    PatchModel::start(resource.base_document()).with_patch(
        Map::<Seq<char>, JsonModel>::empty().insert(
            "Members"@,
            JsonModel::Array(member_links(resource.odata_id, ids)),
        ).insert("Members@odata.count"@, JsonModel::Number(count_number(ids.len()))),
    ).with_deleted(str_set(seq!["Id"])).document()
}

/// A document with one more field of text, where there is a text to write.
pub open spec fn with_opt_text(
    document: Map<Seq<char>, JsonModel>,
    key: Seq<char>,
    value: Option<Seq<char>>,
) -> Map<Seq<char>, JsonModel> {
    match value {
        Some(text) => document.insert(key, JsonModel::String(text)),
        None => document,
    }
}

/// Writes a field of text into a document, where there is a text to write.
pub fn with_optional(document: JsonObject, key: &str, value: &Option<String>) -> (extended:
    JsonObject)
    ensures
        extended@ == with_opt_text(document@, key@, opt_text(*value)),
{
    match value {
        Some(text) => document.with(key, JsonValue::string(text.as_str())),
        None => document,
    }
}

/// A reference to the resource at `odata_id`.
pub fn link_to(odata_id: &str) -> (reference: JsonValue)
    ensures
        reference@ == link(odata_id@),
{
    JsonValue::Object(JsonObject::new().with("@odata.id", JsonValue::string(odata_id)))
}

/// Finds the document of a member among the entries of its family.
pub fn find(entries: Vec<Entry>, id: &str) -> (document: Option<JsonObject>)
    ensures
        match document {
            Some(found) => find_document(entry_models(entries@), id@) == Some(found@),
            None => find_document(entry_models(entries@), id@) is None,
        },
{
    let mut pool = entries;
    let ghost all = entry_models(entries@);
    let n: usize = pool.len();
    let mut i: usize = 0;
    assert(all.skip(0) =~= all);
    while i < n
        invariant
            i <= n,
            n == pool@.len(),
            pool@ == entries@,
            all == entry_models(entries@),
            find_document(all, id@) == find_document(all.skip(i as int), id@),
        decreases n - i,
    {
        let ghost rest = all.skip(i as int);
        assert(rest.first() == pool@[i as int]@);
        assert(rest.drop_first() =~= all.skip(i + 1));
        if str_eq(pool[i].id.as_str(), id) {
            let entry = pool.swap_remove(i);
            assert(entry@ == rest.first());
            return Some(entry.document);
        }
        i += 1;
    }
    None
}

/// Answers a request for a collection with the references to its members.
pub fn collection(resource: &Resource, entries: &Vec<Entry>) -> (response: Response)
    ensures
        response@ == (ResponseModel {
            status: 200,
            body: JsonModel::Object(
                collection_document(resource@, entry_ids(entry_models(entries@))),
            ),
        }),
{
    let ghost ids = entry_ids(entry_models(entries@));
    let mut members: Vec<JsonValue> = Vec::new();
    let mut i: usize = 0;
    while i < entries.len()
        invariant
            i <= entries.len(),
            members@.len() == i,
            forall|j: int|
                0 <= j < i ==> (#[trigger] members@[j])@ == link(
                    resource@.odata_id + "/"@ + entries@[j].id@,
                ),
        decreases entries.len() - i,
    {
        let address = joined(resource.odata_id.as_str(), "/").concat(entries[i].id.as_str());
        members.push(link_to(address.as_str()));
        i += 1;
    }
    proof {
        lemma_items_index(members@);
        assert(items_model(members@) =~= member_links(resource@.odata_id, ids));
    }
    let n: usize = entries.len();
    let count: i64 = if n as u64 > 0x7fff_ffff_ffff_ffffu64 {
        i64::MAX
    } else {
        n as i64
    };
    let names = ["Id"];
    assert(names@ =~= seq!["Id"]);
    resource.json_patch().patch(
        JsonObject::new().with("Members", JsonValue::Array(members)).with(
            "Members@odata.count",
            JsonValue::Number(count),
        ),
    ).delete_fields(&names).into_ok_response()
}

} // verus!
