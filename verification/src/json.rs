//! JSON documents: the values a mocked resource is made of.
//!
//! A document is an ordinary tree of values. An object keeps its fields in the
//! order in which they were written; its meaning is a map from names to values
//! in which a later field of the same name overrides an earlier one.

use vstd::prelude::*;
use crate::text::str_eq;

verus! {

/// A JSON value held by the mock.
#[derive(Debug)]
pub enum JsonValue {
    Null,
    Bool(bool),
    /// A number that is an integer of 64 bits.
    Number(i64),
    /// Any other number, as the text in which it is written: a fraction, an
    /// exponent, an integer that is too large.
    NumberText(String),
    String(String),
    Array(Vec<JsonValue>),
    Object(JsonObject),
}

/// A JSON object: named fields, each name bound to one value.
#[derive(Debug)]
pub struct JsonObject {
    pub fields: Vec<(String, JsonValue)>,
}

/// The mathematical value of a JSON document.
pub enum JsonModel {
    Null,
    Bool(bool),
    Number(int),
    NumberText(Seq<char>),
    String(Seq<char>),
    Array(Seq<JsonModel>),
    Object(Map<Seq<char>, JsonModel>),
}

/// The object that a sequence of fields denotes: a later field overrides an
/// earlier one of the same name.
pub open spec fn fields_model(fields: Seq<(String, JsonValue)>) -> Map<Seq<char>, JsonModel>
    decreases fields, 0nat,
{
    if fields.len() == 0 {
        Map::empty()
    } else {
        fields_model(fields.drop_last()).insert(fields.last().0@, value_model(fields.last().1))
    }
}

/// The values that a sequence of array items denotes, in order.
pub open spec fn items_model(items: Seq<JsonValue>) -> Seq<JsonModel>
    decreases items, 0nat,
{
    if items.len() == 0 {
        Seq::empty()
    } else {
        items_model(items.drop_last()).push(value_model(items.last()))
    }
}

/// The value that a document denotes.
pub open spec fn value_model(v: JsonValue) -> JsonModel
    decreases v, 1nat,
{
    match v {
        JsonValue::Null => JsonModel::Null,
        JsonValue::Bool(b) => JsonModel::Bool(b),
        JsonValue::Number(n) => JsonModel::Number(n as int),
        JsonValue::NumberText(t) => JsonModel::NumberText(t@),
        JsonValue::String(s) => JsonModel::String(s@),
        JsonValue::Array(items) => JsonModel::Array(items_model(items@)),
        JsonValue::Object(o) => JsonModel::Object(fields_model(o.fields@)),
    }
}

impl View for JsonValue {
    type V = JsonModel;

    open spec fn view(&self) -> JsonModel {
        value_model(*self)
    }
}

impl View for JsonObject {
    type V = Map<Seq<char>, JsonModel>;

    open spec fn view(&self) -> Map<Seq<char>, JsonModel> {
        fields_model(self.fields@)
    }
}

/// The value of the last field named `key`, as it stands in the object;
/// `None` where no field has that name.
pub open spec fn spec_field(fields: Seq<(String, JsonValue)>, key: Seq<char>) -> Option<JsonValue>
    decreases fields.len(),
{
    if fields.len() == 0 {
        None
    } else if fields.last().0@ == key {
        Some(fields.last().1)
    } else {
        spec_field(fields.drop_last(), key)
    }
}

/// The value of the field named `key` of a document that is an object;
/// `None` where the document is no object or has no such field.
pub open spec fn value_field(value: JsonValue, key: Seq<char>) -> Option<JsonValue> {
    match value {
        JsonValue::Object(o) => spec_field(o.fields@, key),
        _ => None,
    }
}

/// The objects that a list of documents denotes.
pub open spec fn documents(list: Seq<JsonObject>) -> Seq<Map<Seq<char>, JsonModel>> {
    list.map_values(|o: JsonObject| o@)
}

/// The objects that an optional list of documents denotes.
pub open spec fn opt_documents(list: Option<Vec<JsonObject>>) -> Option<
    Seq<Map<Seq<char>, JsonModel>>,
> {
    match list {
        Some(l) => Some(documents(l@)),
        None => None,
    }
}

/// The names in a list, as a set.
pub open spec fn name_set(names: Seq<String>) -> Set<Seq<char>> {
    Set::new(|k: Seq<char>| exists|i: int| 0 <= i < names.len() && #[trigger] names[i]@ == k)
}

/// Appending a field binds its name, whatever was bound before.
pub proof fn lemma_fields_push(fields: Seq<(String, JsonValue)>, field: (String, JsonValue))
    ensures
        fields_model(fields.push(field)) == fields_model(fields).insert(field.0@, field.1@),
{
    assert(fields.push(field).drop_last() =~= fields);
}

/// Appending an item appends its value.
pub proof fn lemma_items_push(items: Seq<JsonValue>, item: JsonValue)
    ensures
        items_model(items.push(item)) == items_model(items).push(item@),
{
    assert(items.push(item).drop_last() =~= items);
}

/// An array's model has one value per item, in the same place.
pub proof fn lemma_items_index(items: Seq<JsonValue>)
    ensures
        items_model(items).len() == items.len(),
        forall|i: int| 0 <= i < items.len() ==> #[trigger] items_model(items)[i] == items[i]@,
    decreases items.len(),
{
    if items.len() > 0 {
        lemma_items_index(items.drop_last());
    }
}

/// A name that no field carries is not bound.
pub proof fn lemma_fields_absent(fields: Seq<(String, JsonValue)>, key: Seq<char>)
    requires
        forall|j: int| 0 <= j < fields.len() ==> #[trigger] fields[j].0@ != key,
    ensures
        !fields_model(fields).contains_key(key),
    decreases fields.len(),
{
    if fields.len() > 0 {
        assert(fields.last() == fields[fields.len() - 1]);
        lemma_fields_absent(fields.drop_last(), key);
    }
}

/// Where no field carries a name, the object has no field of that name.
pub proof fn lemma_spec_field_absent(fields: Seq<(String, JsonValue)>, key: Seq<char>)
    requires
        forall|j: int| 0 <= j < fields.len() ==> #[trigger] fields[j].0@ != key,
    ensures
        spec_field(fields, key) is None,
    decreases fields.len(),
{
    if fields.len() > 0 {
        assert(fields.last() == fields[fields.len() - 1]);
        lemma_spec_field_absent(fields.drop_last(), key);
    }
}

/// The field of a name is the last field that carries it.
pub proof fn lemma_spec_field_last(fields: Seq<(String, JsonValue)>, key: Seq<char>, i: int)
    requires
        0 <= i < fields.len(),
        fields[i].0@ == key,
        forall|j: int| i < j < fields.len() ==> #[trigger] fields[j].0@ != key,
    ensures
        spec_field(fields, key) == Some(fields[i].1),
    decreases fields.len(),
{
    if i < fields.len() - 1 {
        assert(fields.last() == fields[fields.len() - 1]);
        lemma_spec_field_last(fields.drop_last(), key, i);
    }
}

/// The name of every field is bound.
pub proof fn lemma_fields_present(fields: Seq<(String, JsonValue)>, i: int)
    requires
        0 <= i < fields.len(),
    ensures
        fields_model(fields).contains_key(fields[i].0@),
    decreases fields.len(),
{
    if i < fields.len() - 1 {
        lemma_fields_present(fields.drop_last(), i);
    }
}

/// A name is bound to the value of the last field that carries it.
pub proof fn lemma_fields_last(fields: Seq<(String, JsonValue)>, key: Seq<char>, i: int)
    requires
        0 <= i < fields.len(),
        fields[i].0@ == key,
        forall|j: int| i < j < fields.len() ==> #[trigger] fields[j].0@ != key,
    ensures
        fields_model(fields).contains_key(key),
        fields_model(fields)[key] == fields[i].1@,
    decreases fields.len(),
{
    if i < fields.len() - 1 {
        assert(fields.last() == fields[fields.len() - 1]);
        lemma_fields_last(fields.drop_last(), key, i);
    }
}

/// Replacing the last field of a name rebinds that name and nothing else.
pub proof fn lemma_fields_update(
    fields: Seq<(String, JsonValue)>,
    i: int,
    field: (String, JsonValue),
)
    requires
        0 <= i < fields.len(),
        fields[i].0@ == field.0@,
        forall|j: int| i < j < fields.len() ==> #[trigger] fields[j].0@ != field.0@,
    ensures
        fields_model(fields.update(i, field)) == fields_model(fields).insert(field.0@, field.1@),
    decreases fields.len(),
{
    let updated = fields.update(i, field);
    if i == fields.len() - 1 {
        assert(updated.drop_last() =~= fields.drop_last());
        assert(fields_model(updated) =~= fields_model(fields).insert(field.0@, field.1@));
    } else {
        assert(fields.last() == fields[fields.len() - 1]);
        assert(updated.drop_last() =~= fields.drop_last().update(i, field));
        lemma_fields_update(fields.drop_last(), i, field);
        assert(fields_model(updated) =~= fields_model(fields).insert(field.0@, field.1@));
    }
}

/// Taking out one field of a name does not change what the other names are
/// bound to.
pub proof fn lemma_fields_remove(fields: Seq<(String, JsonValue)>, i: int)
    requires
        0 <= i < fields.len(),
    ensures
        fields_model(fields.remove(i)).remove(fields[i].0@) == fields_model(fields).remove(
            fields[i].0@,
        ),
    decreases fields.len(),
{
    let key = fields[i].0@;
    let removed = fields.remove(i);
    if i == fields.len() - 1 {
        assert(removed =~= fields.drop_last());
        assert(fields_model(removed).remove(key) =~= fields_model(fields).remove(key));
    } else {
        assert(removed.drop_last() =~= fields.drop_last().remove(i));
        assert(removed.last() == fields.last());
        lemma_fields_remove(fields.drop_last(), i);
        let before = fields_model(fields.drop_last());
        let before_removed = fields_model(fields.drop_last().remove(i));
        assert(before_removed.remove(key) == before.remove(key));
        assert forall|k: Seq<char>|
            fields_model(removed).remove(key).contains_key(k) == fields_model(fields).remove(
                key,
            ).contains_key(k) by {
            assert(before_removed.remove(key).contains_key(k) == before.remove(key).contains_key(
                k,
            ));
        }
        assert forall|k: Seq<char>| fields_model(removed).remove(key).contains_key(k) implies
            fields_model(removed).remove(key)[k] == fields_model(fields).remove(key)[k] by {
            assert(before_removed.remove(key).contains_key(k) == before.remove(key).contains_key(
                k,
            ));
            if k != fields.last().0@ {
                assert(before_removed.remove(key)[k] == before.remove(key)[k]);
            }
        }
        assert(fields_model(removed).remove(key) =~= fields_model(fields).remove(key));
    }
}

/// A deep copy of an array's items.
fn clone_items(items: &Vec<JsonValue>) -> (copy: Vec<JsonValue>)
    ensures
        items_model(copy@) == items_model(items@),
    decreases items,
{
    let mut out: Vec<JsonValue> = Vec::new();
    let mut i: usize = 0;
    while i < items.len()
        invariant
            i <= items.len(),
            items_model(out@) == items_model(items@.take(i as int)),
        decreases items.len() - i,
    {
        let item = items[i].clone();
        proof {
            lemma_items_push(out@, item);
            lemma_items_push(items@.take(i as int), items@[i as int]);
            assert(items@.take(i as int).push(items@[i as int]) =~= items@.take(i + 1));
        }
        out.push(item);
        i += 1;
    }
    assert(items@.take(i as int) =~= items@);
    out
}

impl Clone for JsonValue {
    /// A deep copy: the same document.
    fn clone(&self) -> (copy: Self)
        ensures
            copy@ == self@,
        decreases self,
    {
        match self {
            JsonValue::Null => JsonValue::Null,
            JsonValue::Bool(b) => JsonValue::Bool(*b),
            JsonValue::Number(n) => JsonValue::Number(*n),
            JsonValue::NumberText(t) => JsonValue::NumberText(t.clone()),
            JsonValue::String(s) => JsonValue::String(s.clone()),
            JsonValue::Array(items) => JsonValue::Array(clone_items(items)),
            JsonValue::Object(o) => JsonValue::Object(o.clone()),
        }
    }
}

impl Clone for JsonObject {
    /// A deep copy: the same fields in the same order.
    fn clone(&self) -> (copy: Self)
        ensures
            copy@ == self@,
        decreases self,
    {
        let mut out: Vec<(String, JsonValue)> = Vec::new();
        let mut i: usize = 0;
        while i < self.fields.len()
            invariant
                i <= self.fields.len(),
                fields_model(out@) == fields_model(self.fields@.take(i as int)),
            decreases self.fields.len() - i,
        {
            let name = self.fields[i].0.clone();
            let value = self.fields[i].1.clone();
            proof {
                lemma_fields_push(out@, (name, value));
                lemma_fields_push(self.fields@.take(i as int), self.fields@[i as int]);
                assert(self.fields@.take(i as int).push(self.fields@[i as int])
                    =~= self.fields@.take(i + 1));
            }
            out.push((name, value));
            i += 1;
        }
        assert(self.fields@.take(i as int) =~= self.fields@);
        JsonObject { fields: out }
    }
}

impl JsonValue {
    /// A JSON string holding the characters of `text`.
    pub fn string(text: &str) -> (value: JsonValue)
        ensures
            value@ == JsonModel::String(text@),
    {
        JsonValue::String(text.to_owned())
    }
}

impl JsonValue {
    /// The text of a JSON string; `None` for any other value.
    pub fn as_str(&self) -> (text: Option<&str>)
        ensures
            match text {
                Some(t) => self@ == JsonModel::String(t@),
                None => !(self@ is String),
            },
    {
        match self {
            JsonValue::String(s) => Some(s.as_str()),
            _ => None,
        }
    }

    /// The object that this value is; `None` for any other value.
    pub fn as_object(&self) -> (object: Option<&JsonObject>)
        ensures
            match object {
                Some(o) => *self == JsonValue::Object(*o),
                None => !(self@ is Object),
            },
    {
        match self {
            JsonValue::Object(o) => Some(o),
            _ => None,
        }
    }

    /// The items of the array that this value is; `None` for any other
    /// value.
    pub fn as_array(&self) -> (items: Option<&Vec<JsonValue>>)
        ensures
            match items {
                Some(list) => *self == JsonValue::Array(*list),
                None => !(self@ is Array),
            },
    {
        match self {
            JsonValue::Array(items) => Some(items),
            _ => None,
        }
    }

    /// The value of the field named `key` of the object that this value is;
    /// `None` where this is no object, or has no such field.
    pub fn get(&self, key: &str) -> (value: Option<&JsonValue>)
        ensures
            match value {
                Some(v) => self@ is Object && self@->Object_0.contains_key(key@) && v@
                    == self@->Object_0[key@] && value_field(*self, key@) == Some(*v),
                None => (!(self@ is Object) || !self@->Object_0.contains_key(key@)) && value_field(
                    *self,
                    key@,
                ) is None,
            },
    {
        match self {
            JsonValue::Object(o) => o.get(key),
            _ => None,
        }
    }
}

impl JsonObject {
    /// The empty object, `{}`.
    pub fn new() -> (empty: JsonObject)
        ensures
            empty@ == Map::<Seq<char>, JsonModel>::empty(),
    {
        JsonObject { fields: Vec::new() }
    }

    /// The place of the last field named `key`, if there is one.
    fn position(&self, key: &str) -> (found: Option<usize>)
        ensures
            match found {
                Some(i) => i < self.fields.len() && self.fields@[i as int].0@ == key@
                    && forall|j: int|
                    i < j < self.fields.len() ==> #[trigger] self.fields@[j].0@ != key@,
                None => forall|j: int|
                    0 <= j < self.fields.len() ==> #[trigger] self.fields@[j].0@ != key@,
            },
    {
        let mut i: usize = self.fields.len();
        while i > 0
            invariant
                i <= self.fields.len(),
                forall|j: int| i <= j < self.fields.len() ==> #[trigger] self.fields@[j].0@ != key@,
            decreases i,
        {
            i -= 1;
            if str_eq(self.fields[i].0.as_str(), key) {
                return Some(i);
            }
        }
        None
    }

    /// Whether the object has a field named `key`.
    pub fn contains_key(&self, key: &str) -> (present: bool)
        ensures
            present == self@.contains_key(key@),
    {
        match self.position(key) {
            Some(i) => {
                proof {
                    lemma_fields_last(self.fields@, key@, i as int);
                }
                true
            },
            None => {
                proof {
                    lemma_fields_absent(self.fields@, key@);
                }
                false
            },
        }
    }

    /// The value of the field named `key`, or `None` where there is no such
    /// field.
    pub fn get(&self, key: &str) -> (value: Option<&JsonValue>)
        ensures
            match value {
                Some(v) => self@.contains_key(key@) && v@ == self@[key@] && spec_field(
                    self.fields@,
                    key@,
                ) == Some(*v),
                None => !self@.contains_key(key@) && spec_field(self.fields@, key@) is None,
            },
    {
        match self.position(key) {
            Some(i) => {
                proof {
                    lemma_fields_last(self.fields@, key@, i as int);
                    lemma_spec_field_last(self.fields@, key@, i as int);
                }
                Some(&self.fields[i].1)
            },
            None => {
                proof {
                    lemma_fields_absent(self.fields@, key@);
                    lemma_spec_field_absent(self.fields@, key@);
                }
                None
            },
        }
    }

    /// Binds `key` to `value`: an existing field of that name is overwritten
    /// in place, a new one is added at the end.
    pub fn insert(&mut self, key: &str, value: JsonValue)
        ensures
            final(self)@ == old(self)@.insert(key@, value@),
    {
        let field = (key.to_owned(), value);
        match self.position(key) {
            Some(i) => {
                proof {
                    lemma_fields_update(self.fields@, i as int, field);
                }
                self.fields[i] = field;
            },
            None => {
                proof {
                    lemma_fields_push(self.fields@, field);
                }
                self.fields.push(field);
            },
        }
    }

    /// The object with `key` bound to `value`, for building a document field
    /// by field.
    pub fn with(self, key: &str, value: JsonValue) -> (extended: JsonObject)
        ensures
            extended@ == self@.insert(key@, value@),
    {
        let mut extended = self;
        extended.insert(key, value);
        extended
    }

    /// Removes every field named `key`; an object without such a field is
    /// left as it is.
    pub fn remove(&mut self, key: &str)
        ensures
            final(self)@ == old(self)@.remove(key@),
    {
        let mut i: usize = 0;
        while i < self.fields.len()
            invariant
                i <= self.fields.len(),
                fields_model(self.fields@).remove(key@) == old(self)@.remove(key@),
                forall|j: int| 0 <= j < i ==> #[trigger] self.fields@[j].0@ != key@,
            decreases self.fields.len() - i,
        {
            if str_eq(self.fields[i].0.as_str(), key) {
                proof {
                    lemma_fields_remove(self.fields@, i as int);
                }
                self.fields.remove(i);
            } else {
                i += 1;
            }
        }
        proof {
            lemma_fields_absent(self.fields@, key@);
            assert(fields_model(self.fields@).remove(key@) =~= fields_model(self.fields@));
        }
    }

    /// Removes the fields whose names are listed in `names`.
    pub fn remove_all(&mut self, names: &Vec<String>)
        ensures
            final(self)@ == old(self)@.remove_keys(name_set(names@)),
    {
        let mut i: usize = 0;
        while i < names.len()
            invariant
                i <= names.len(),
                self@ == old(self)@.remove_keys(name_set(names@.take(i as int))),
            decreases names.len() - i,
        {
            let ghost before = self@;
            self.remove(names[i].as_str());
            proof {
                let seen = name_set(names@.take(i as int));
                let next = name_set(names@.take(i + 1));
                assert forall|k: Seq<char>| next.contains(k) == (seen.contains(k) || k
                    == names@[i as int]@) by {
                    if seen.contains(k) {
                        let j = choose|j: int|
                            0 <= j < names@.take(i as int).len() && #[trigger] names@.take(
                                i as int,
                            )[j]@ == k;
                        assert(names@.take(i + 1)[j]@ == k);
                    }
                    if k == names@[i as int]@ {
                        assert(names@.take(i + 1)[i as int]@ == k);
                    }
                    if next.contains(k) {
                        let j = choose|j: int|
                            0 <= j < names@.take(i + 1).len() && #[trigger] names@.take(i + 1)[j]@
                                == k;
                        if j < i {
                            assert(names@.take(i as int)[j]@ == k);
                        }
                    }
                }
                assert(self@ =~= old(self)@.remove_keys(next));
            }
            i += 1;
        }
        assert(names@.take(i as int) =~= names@);
    }

    /// Shallow merge: every field of `patch` is written over this object.
    /// Names that only one of the two carries survive; where both carry a
    /// name, the value of `patch` wins.
    pub fn merge(&mut self, patch: &JsonObject)
        ensures
            final(self)@ == old(self)@.union_prefer_right(patch@),
    {
        let mut i: usize = 0;
        assert(old(self)@.union_prefer_right(fields_model(patch.fields@.take(0))) =~= old(self)@);
        while i < patch.fields.len()
            invariant
                i <= patch.fields.len(),
                self@ == old(self)@.union_prefer_right(
                    fields_model(patch.fields@.take(i as int)),
                ),
            decreases patch.fields.len() - i,
        {
            let value = patch.fields[i].1.clone();
            self.insert(patch.fields[i].0.as_str(), value);
            proof {
                let done = patch.fields@.take(i as int);
                lemma_fields_push(done, patch.fields@[i as int]);
                assert(done.push(patch.fields@[i as int]) =~= patch.fields@.take(i + 1));
                assert(self@ =~= old(self)@.union_prefer_right(
                    fields_model(patch.fields@.take(i + 1)),
                ));
            }
            i += 1;
        }
        assert(patch.fields@.take(i as int) =~= patch.fields@);
    }
}

/// The names in a list of string slices, as a set.
pub open spec fn str_set(names: Seq<&str>) -> Set<Seq<char>> {
    Set::new(|k: Seq<char>| exists|i: int| 0 <= i < names.len() && #[trigger] names[i]@ == k)
}

/// What a resource's body is built from: a structural base, the fields that
/// override it, and the names of the fields that the emulated vendor omits.
pub struct JsonPatch {
    base: JsonObject,
    patch: JsonObject,
    delete: Vec<String>,
}

/// The mathematical value of a [`JsonPatch`].
pub struct PatchModel {
    pub base: Map<Seq<char>, JsonModel>,
    pub patch: Map<Seq<char>, JsonModel>,
    pub deleted: Set<Seq<char>>,
}

impl PatchModel {
    /// A builder on `base` with nothing overridden and nothing deleted.
    pub open spec fn start(base: Map<Seq<char>, JsonModel>) -> PatchModel {
        PatchModel { base, patch: Map::empty(), deleted: Set::empty() }
    }

    /// The builder after the fields of `patch` were written over it.
    pub open spec fn with_patch(self, patch: Map<Seq<char>, JsonModel>) -> PatchModel {
        PatchModel { patch: self.patch.union_prefer_right(patch), ..self }
    }

    /// The builder after `names` were added to the fields to delete.
    pub open spec fn with_deleted(self, names: Set<Seq<char>>) -> PatchModel {
        PatchModel { deleted: self.deleted.union(names), ..self }
    }

    /// The document that the builder stands for: the base, overridden key by
    /// key by the patch, and then without the deleted names. Deletion comes
    /// last, whenever it was asked for.
    pub open spec fn document(self) -> Map<Seq<char>, JsonModel> {
        self.base.union_prefer_right(self.patch).remove_keys(self.deleted)
    }
}

impl View for JsonPatch {
    type V = PatchModel;

    closed spec fn view(&self) -> PatchModel {
        PatchModel { base: self.base@, patch: self.patch@, deleted: name_set(self.delete@) }
    }
}

impl JsonPatch {
    /// Starts a document from its structural base.
    pub fn new(base: JsonObject) -> (builder: JsonPatch)
        ensures
            builder@ == PatchModel::start(base@),
    {
        let builder = JsonPatch { base, patch: JsonObject::new(), delete: Vec::new() };
        assert(name_set(builder.delete@) =~= Set::empty());
        builder
    }

    /// Overrides fields: each field of `patch` replaces the field of the same
    /// name, or is added where there is none.
    pub fn patch(self, patch: JsonObject) -> (builder: JsonPatch)
        ensures
            builder@ == self@.with_patch(patch@),
    {
        let mut builder = self;
        builder.patch.merge(&patch);
        builder
    }

    /// Marks top-level fields for removal. They are removed when the document
    /// is built, after every override, so no patch brings one back.
    pub fn delete_fields(self, names: &[&str]) -> (builder: JsonPatch)
        ensures
            builder@ == self@.with_deleted(str_set(names@)),
    {
        let mut builder = self;
        let mut i: usize = 0;
        assert(name_set(builder.delete@).union(str_set(names@.take(0))) =~= name_set(
            builder.delete@,
        ));
        while i < names.len()
            invariant
                i <= names.len(),
                builder.base == self.base,
                builder.patch == self.patch,
                name_set(builder.delete@) == name_set(self.delete@).union(
                    str_set(names@.take(i as int)),
                ),
            decreases names.len() - i,
        {
            let ghost before = builder.delete@;
            let name = names[i].to_owned();
            builder.delete.push(name);
            proof {
                let after = builder.delete@;
                let seen = str_set(names@.take(i as int));
                let next = str_set(names@.take(i + 1));
                assert forall|k: Seq<char>|
                    name_set(after).contains(k) == name_set(self.delete@).union(next).contains(
                        k,
                    ) by {
                    if name_set(after).contains(k) {
                        let j = choose|j: int| 0 <= j < after.len() && #[trigger] after[j]@ == k;
                        if j < before.len() {
                            assert(before[j]@ == k);
                            assert(name_set(before).contains(k));
                            if seen.contains(k) {
                                let m = choose|m: int|
                                    0 <= m < names@.take(i as int).len() && #[trigger] names@.take(
                                        i as int,
                                    )[m]@ == k;
                                assert(names@.take(i + 1)[m]@ == k);
                            }
                        } else {
                            assert(names@.take(i + 1)[i as int]@ == k);
                        }
                    }
                    if name_set(self.delete@).contains(k) {
                        assert(name_set(before).contains(k));
                        let j = choose|j: int| 0 <= j < before.len() && #[trigger] before[j]@ == k;
                        assert(after[j]@ == k);
                    }
                    if next.contains(k) {
                        let m = choose|m: int|
                            0 <= m < names@.take(i + 1).len() && #[trigger] names@.take(i + 1)[m]@
                                == k;
                        if m < i {
                            assert(names@.take(i as int)[m]@ == k);
                            assert(seen.contains(k));
                            assert(name_set(before).contains(k));
                            let j = choose|j: int|
                                0 <= j < before.len() && #[trigger] before[j]@ == k;
                            assert(after[j]@ == k);
                        } else {
                            assert(after[before.len() as int]@ == k);
                        }
                    }
                }
                assert(name_set(after) =~= name_set(self.delete@).union(next));
            }
            i += 1;
        }
        assert(names@.take(i as int) =~= names@);
        builder
    }

    /// Builds the document: merge first, deletion last.
    pub fn build(self) -> (document: JsonObject)
        ensures
            document@ == self@.document(),
    {
        let mut document = self.base;
        document.merge(&self.patch);
        document.remove_all(&self.delete);
        document
    }
}

/// Deleting a field that neither the base nor the patch carries changes
/// nothing in the document that is built.
pub proof fn lemma_delete_absent_field(builder: PatchModel, name: Seq<char>)
    requires
        !builder.base.contains_key(name),
        !builder.patch.contains_key(name),
    ensures
        builder.with_deleted(set![name]).document() == builder.document(),
{
    assert(builder.with_deleted(set![name]).document() =~= builder.document());
}

/// A deleted field is absent from the document that is built, also where
/// only the patch carried it, and also where the patch came after the
/// deletion was asked for.
pub proof fn lemma_deleted_field_is_absent(
    builder: PatchModel,
    name: Seq<char>,
    patch: Map<Seq<char>, JsonModel>,
)
    ensures
        !builder.with_deleted(set![name]).document().contains_key(name),
        !builder.with_deleted(set![name]).with_patch(patch).document().contains_key(name),
        !builder.with_patch(patch).with_deleted(set![name]).document().contains_key(name),
{
}

/// Patching and deleting may be asked for in either order: the document that
/// is built is the same.
pub proof fn lemma_patch_delete_commute(
    builder: PatchModel,
    patch: Map<Seq<char>, JsonModel>,
    names: Set<Seq<char>>,
)
    ensures
        builder.with_patch(patch).with_deleted(names).document() == builder.with_deleted(
            names,
        ).with_patch(patch).document(),
{
}

/// Applying the same patch and the same deletions to a document that was
/// built with them yields that document again.
pub proof fn lemma_patch_delete_idempotent(
    base: Map<Seq<char>, JsonModel>,
    patch: Map<Seq<char>, JsonModel>,
    names: Set<Seq<char>>,
)
    ensures
        ({
            let once = PatchModel::start(base).with_patch(patch).with_deleted(names).document();
            PatchModel::start(once).with_patch(patch).with_deleted(names).document() == once
        }),
{
    let once = PatchModel::start(base).with_patch(patch).with_deleted(names).document();
    let twice = PatchModel::start(once).with_patch(patch).with_deleted(names).document();
    assert(twice =~= once);
}

} // verus!
