use bmc_mock::http::{acknowledged, bad_request, not_found};
use bmc_mock::json::{JsonObject, JsonPatch, JsonValue};
use bmc_mock::redfish::Resource;

fn text(value: Option<&JsonValue>) -> Option<String> {
    match value {
        Some(JsonValue::String(s)) => Some(s.clone()),
        _ => None,
    }
}

fn names(doc: &JsonObject) -> Vec<String> {
    doc.fields.iter().map(|(name, _)| name.clone()).collect()
}

fn base() -> JsonObject {
    JsonObject::new()
        .with("Id", JsonValue::string("1"))
        .with("Name", JsonValue::string("old"))
}

#[test]
fn patch_overrides_and_adds_fields() {
    let patch = JsonObject::new()
        .with("Name", JsonValue::string("new"))
        .with("Mode", JsonValue::string("DpuMode"));
    let doc = JsonPatch::new(base()).patch(patch).build();
    assert_eq!(text(doc.get("Id")), Some("1".to_string()));
    assert_eq!(text(doc.get("Name")), Some("new".to_string()));
    assert_eq!(text(doc.get("Mode")), Some("DpuMode".to_string()));
    assert_eq!(names(&doc), vec!["Id", "Name", "Mode"]);
}

#[test]
fn later_patch_wins_over_earlier_patch() {
    let doc = JsonPatch::new(base())
        .patch(JsonObject::new().with("Name", JsonValue::string("first")))
        .patch(JsonObject::new().with("Name", JsonValue::string("second")))
        .build();
    assert_eq!(text(doc.get("Name")), Some("second".to_string()));
    assert_eq!(names(&doc), vec!["Id", "Name"]);
}

#[test]
fn delete_of_absent_field_changes_nothing() {
    let doc = JsonPatch::new(base()).delete_fields(&["Missing"]).build();
    assert_eq!(names(&doc), vec!["Id", "Name"]);
    assert_eq!(text(doc.get("Name")), Some("old".to_string()));
}

#[test]
fn delete_removes_field_that_only_the_patch_has() {
    let doc = JsonPatch::new(base())
        .patch(JsonObject::new().with("Mode", JsonValue::string("NicMode")))
        .delete_fields(&["Mode"])
        .build();
    assert!(doc.get("Mode").is_none());
    assert!(!doc.contains_key("Mode"));
    assert_eq!(names(&doc), vec!["Id", "Name"]);
}

#[test]
fn patch_after_delete_does_not_bring_the_field_back() {
    let doc = JsonPatch::new(base())
        .delete_fields(&["Name"])
        .patch(JsonObject::new().with("Name", JsonValue::string("again")))
        .build();
    assert!(doc.get("Name").is_none());
    assert_eq!(names(&doc), vec!["Id"]);
}

#[test]
fn patch_and_delete_twice_is_the_same_as_once() {
    let patch = || {
        JsonObject::new()
            .with("Mode", JsonValue::string("DpuMode"))
            .with("Name", JsonValue::string("new"))
    };
    let once = JsonPatch::new(base())
        .patch(patch())
        .delete_fields(&["Id"])
        .build();
    let twice = JsonPatch::new(once.clone())
        .patch(patch())
        .delete_fields(&["Id"])
        .build();
    assert_eq!(names(&once), names(&twice));
    assert_eq!(text(once.get("Mode")), text(twice.get("Mode")));
    assert_eq!(text(once.get("Name")), text(twice.get("Name")));
    assert_eq!(names(&twice), vec!["Name", "Mode"]);
}

#[test]
fn delete_removes_exact_names_only() {
    let doc = JsonPatch::new(base()).delete_fields(&["id", "Nam"]).build();
    assert_eq!(names(&doc), vec!["Id", "Name"]);
}

#[test]
fn object_insert_get_remove() {
    let mut doc = JsonObject::new();
    assert!(doc.get("a").is_none());
    doc.insert("a", JsonValue::Number(1));
    doc.insert("b", JsonValue::Bool(true));
    doc.insert("a", JsonValue::Number(2));
    assert!(matches!(doc.get("a"), Some(JsonValue::Number(2))));
    assert!(matches!(doc.get("b"), Some(JsonValue::Bool(true))));
    assert_eq!(names(&doc), vec!["a", "b"]);
    doc.remove("a");
    assert!(doc.get("a").is_none());
    doc.remove("a");
    assert_eq!(names(&doc), vec!["b"]);
}

#[test]
fn object_with_repeated_name_reads_the_last_field() {
    let doc = JsonObject {
        fields: vec![
            ("k".to_string(), JsonValue::Number(1)),
            ("k".to_string(), JsonValue::Number(2)),
        ],
    };
    assert!(matches!(doc.get("k"), Some(JsonValue::Number(2))));
    let mut stripped = doc.clone();
    stripped.remove("k");
    assert!(stripped.fields.is_empty());
}

#[test]
fn merge_keeps_fields_of_both() {
    let mut doc = JsonObject::new()
        .with("a", JsonValue::Number(1))
        .with("b", JsonValue::Number(2));
    doc.merge(
        &JsonObject::new()
            .with("b", JsonValue::Number(20))
            .with("c", JsonValue::Number(30)),
    );
    assert!(matches!(doc.get("a"), Some(JsonValue::Number(1))));
    assert!(matches!(doc.get("b"), Some(JsonValue::Number(20))));
    assert!(matches!(doc.get("c"), Some(JsonValue::Number(30))));
}

#[test]
fn remove_all_removes_each_listed_name() {
    let mut doc = JsonObject::new()
        .with("a", JsonValue::Null)
        .with("b", JsonValue::Null)
        .with("c", JsonValue::Null);
    doc.remove_all(&vec!["c".to_string(), "a".to_string(), "x".to_string()]);
    assert_eq!(names(&doc), vec!["b"]);
}

#[test]
fn clone_copies_nested_documents() {
    let doc = JsonValue::Object(
        JsonObject::new()
            .with(
                "list",
                JsonValue::Array(vec![
                    JsonValue::Number(1),
                    JsonValue::Object(JsonObject::new().with("x", JsonValue::string("y"))),
                ]),
            )
            .with("flag", JsonValue::Bool(false)),
    );
    let copy = doc.clone();
    let list = copy.get("list").and_then(|v| v.as_array()).expect("list");
    assert_eq!(list.len(), 2);
    assert!(matches!(list[0], JsonValue::Number(1)));
    assert_eq!(list[1].get("x").and_then(|v| v.as_str()), Some("y"));
    assert!(matches!(copy.get("flag"), Some(JsonValue::Bool(false))));
}

#[test]
fn value_accessors_tell_kinds_apart() {
    let s = JsonValue::string("t");
    assert_eq!(s.as_str(), Some("t"));
    assert!(s.as_object().is_none());
    assert!(s.as_array().is_none());
    assert!(s.get("t").is_none());
    assert!(JsonValue::Null.as_str().is_none());
    let o = JsonValue::Object(JsonObject::new().with("k", JsonValue::Null));
    assert!(o.as_object().is_some());
    assert!(matches!(o.get("k"), Some(JsonValue::Null)));
    assert!(o.get("other").is_none());
}

#[test]
fn resource_body_starts_from_its_identity() {
    let resource = Resource {
        odata_id: "/redfish/v1/Thing".to_string(),
        odata_type: "#Thing.v1_0_0.Thing".to_string(),
        id: "Thing".to_string(),
        name: "A thing".to_string(),
    };
    let doc = resource.json_patch().build();
    assert_eq!(names(&doc), vec!["@odata.id", "@odata.type", "Id", "Name"]);
    assert_eq!(text(doc.get("@odata.id")), Some("/redfish/v1/Thing".to_string()));
    assert_eq!(text(doc.get("@odata.type")), Some("#Thing.v1_0_0.Thing".to_string()));
    assert_eq!(text(doc.get("Id")), Some("Thing".to_string()));
    assert_eq!(text(doc.get("Name")), Some("A thing".to_string()));
}

#[test]
fn patch_answers_with_status_200() {
    let response = JsonPatch::new(base()).delete_fields(&["Id"]).into_ok_response();
    assert_eq!(response.status, 200);
    let body = response.body.as_object().expect("object");
    assert_eq!(names(body), vec!["Name"]);
}

#[test]
fn not_found_is_404_with_empty_json_string() {
    let response = not_found();
    assert_eq!(response.status, 404);
    assert_eq!(response.body.as_str(), Some(""));
}

#[test]
fn bad_request_is_400_with_error_field() {
    let response = bad_request("no good");
    assert_eq!(response.status, 400);
    let body = response.body.as_object().expect("object");
    assert_eq!(names(body), vec!["error"]);
    assert_eq!(text(body.get("error")), Some("no good".to_string()));
}

#[test]
fn acknowledged_is_200_with_empty_object() {
    let response = acknowledged();
    assert_eq!(response.status, 200);
    assert!(response.body.as_object().expect("object").fields.is_empty());
}

#[test]
fn into_response_keeps_status_and_body() {
    let response = JsonValue::Number(5).into_response(418);
    assert_eq!(response.status, 418);
    assert!(matches!(response.body, JsonValue::Number(5)));
    assert_eq!(JsonValue::Null.into_ok_response().status, 200);
}

#[test]
fn number_that_is_no_integer_keeps_its_text() {
    let doc = JsonObject::new()
        .with("ratio", JsonValue::NumberText("1.5e3".to_string()))
        .with("count", JsonValue::Number(7));
    let copy = doc.clone();
    assert!(matches!(copy.get("ratio"), Some(JsonValue::NumberText(t)) if t == "1.5e3"));
    assert!(matches!(copy.get("count"), Some(JsonValue::Number(7))));
    assert!(JsonValue::NumberText("2.5".to_string()).as_str().is_none());
}
