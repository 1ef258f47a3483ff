use bmc_mock::json::{JsonObject, JsonValue};
use bmc_mock::rack_firmware::args::{Apply, Create};
use bmc_mock::rack_firmware::cmds::{
    api_error, apply, apply_banner, bool_text, check_config_json, config_json_verdict, create,
    create_request, delete, get, get_job_status, list, not_found_error, read_failure, ApiFailure,
    ApplyResponse, Block, CliError, DeviceResult, JobStatus, NodeJob, OutputFormat, RackFirmware,
};

fn firmware(id: &str, available: bool, parsed_components: &str) -> RackFirmware {
    RackFirmware {
        id: id.to_string(),
        available,
        created: "2025-01-01".to_string(),
        updated: "2025-01-02".to_string(),
        parsed_components: parsed_components.to_string(),
    }
}

fn lines(report: &[Block]) -> Vec<String> {
    report
        .iter()
        .map(|block| match block {
            Block::Line(text) => text.clone(),
            Block::Table {
                titles,
                rows,
                indent,
            } => format!("table {titles:?} {rows:?} {indent}"),
            Block::Json(_) => "json".to_string(),
        })
        .collect()
}

fn generic(err: CliError) -> String {
    match err {
        CliError::GenericError(text) => text,
        CliError::ApiError(text) => panic!("api error: {text}"),
    }
}

fn obj(fields: &[(&str, JsonValue)]) -> JsonValue {
    let mut o = JsonObject::new();
    for (name, value) in fields {
        o.insert(name, value.clone());
    }
    JsonValue::Object(o)
}

#[test]
fn firmware_type_is_dev_or_prod() {
    let args = |firmware_type: &str| Apply {
        rack_id: "r".to_string(),
        firmware_id: "f".to_string(),
        firmware_type: firmware_type.to_string(),
    };
    assert!(args("dev").has_valid_firmware_type());
    assert!(args("prod").has_valid_firmware_type());
    assert!(!args("Dev").has_valid_firmware_type());
    assert!(!args("").has_valid_firmware_type());
    assert!(!args("production").has_valid_firmware_type());
}

#[test]
fn config_json_is_checked_by_the_json_reader() {
    assert!(check_config_json("{\"a\": [1, 2, {\"b\": null}]}").is_ok());
    assert!(check_config_json("  7 ").is_ok());
    assert_eq!(
        generic(check_config_json("{\"a\": }").unwrap_err()),
        "Invalid JSON in file: expected value at line 1 column 7"
    );
    assert_eq!(
        generic(check_config_json("").unwrap_err()),
        "Invalid JSON in file: EOF while parsing a value at line 1 column 0"
    );
    assert_eq!(
        generic(check_config_json("{} x").unwrap_err()),
        "Invalid JSON in file: trailing characters at line 1 column 4"
    );
}

#[test]
fn config_json_verdict_uses_the_readers_words() {
    assert!(config_json_verdict(None).is_ok());
    assert_eq!(
        generic(config_json_verdict(Some("bad".to_string())).unwrap_err()),
        "Invalid JSON in file: bad"
    );
}

#[test]
fn create_request_from_a_good_file() {
    let given = String::from("abc");
    let opts = Create {
        json_file: "fw.json".to_string(),
        artifactory_token: given.clone(),
    };
    let request = create_request(opts, Ok("{\"x\": 1}".to_string())).unwrap();
    assert_eq!(request.config_json, "{\"x\": 1}");
    assert_eq!(request.artifactory_token, given);
}

#[test]
fn create_request_from_an_unreadable_file() {
    let opts = Create {
        json_file: "/no/such.json".to_string(),
        artifactory_token: String::from("abc"),
    };
    let err = create_request(opts, Err("No such file or directory (os error 2)".to_string()))
        .unwrap_err();
    assert_eq!(
        generic(err),
        "Failed to read file /no/such.json: No such file or directory (os error 2)"
    );
}

#[test]
fn create_request_from_a_file_that_is_no_json() {
    let opts = Create {
        json_file: "fw.json".to_string(),
        artifactory_token: String::from("abc"),
    };
    let err = create_request(opts, Ok("[1,".to_string())).unwrap_err();
    assert_eq!(
        generic(err),
        "Invalid JSON in file: EOF while parsing a value at line 1 column 3"
    );
}

#[test]
fn error_texts() {
    assert_eq!(
        generic(read_failure("a.json", "denied")),
        "Failed to read file a.json: denied"
    );
    assert_eq!(
        generic(not_found_error("fw-1")),
        "Rack firmware configuration not found: fw-1"
    );
    assert_eq!(
        generic(api_error("fw-2", ApiFailure::NotFound)),
        "Rack firmware configuration not found: fw-2"
    );
    assert!(matches!(
        api_error("fw-2", ApiFailure::Other("unavailable".to_string())),
        CliError::ApiError(text) if text == "unavailable"
    ));
    assert_eq!(bool_text(true), "true");
    assert_eq!(bool_text(false), "false");
}

#[test]
fn create_report_as_text() {
    let report = create(OutputFormat::AsciiTable, &firmware("fw-1", false, ""));
    assert_eq!(
        lines(&report),
        vec![
            "Created Rack firmware configuration:",
            "  ID: fw-1",
            "  Available: false",
            "  Created: 2025-01-01",
        ]
    );
}

#[test]
fn create_report_as_json() {
    let report = create(OutputFormat::Json, &firmware("fw-1", true, "{}"));
    assert_eq!(report.len(), 1);
    let Block::Json(document) = &report[0] else {
        panic!("json expected")
    };
    assert_eq!(document.get("id").and_then(|v| v.as_str()), Some("fw-1"));
    assert!(matches!(document.get("available"), Some(JsonValue::Bool(true))));
    assert_eq!(document.get("created").and_then(|v| v.as_str()), Some("2025-01-01"));
    assert_eq!(document.get("updated").and_then(|v| v.as_str()), Some("2025-01-02"));
    assert_eq!(
        document.get("parsed_components").and_then(|v| v.as_str()),
        Some("{}")
    );
}

#[test]
fn delete_report() {
    let report = delete("fw-1", Ok(())).unwrap();
    assert_eq!(lines(&report), vec!["Deleted Rack firmware configuration: fw-1"]);
    assert_eq!(
        generic(delete("fw-1", Err(ApiFailure::NotFound)).unwrap_err()),
        "Rack firmware configuration not found: fw-1"
    );
    assert!(matches!(
        delete("fw-1", Err(ApiFailure::Other("boom".to_string()))),
        Err(CliError::ApiError(text)) if text == "boom"
    ));
}

#[test]
fn list_report_without_configurations() {
    let report = list(OutputFormat::AsciiTable, &vec![]);
    assert_eq!(lines(&report), vec!["No Rack firmware configurations found."]);
    let report = list(OutputFormat::Json, &vec![]);
    assert!(matches!(&report[..], [Block::Json(JsonValue::Array(items))] if items.is_empty()));
}

#[test]
fn list_report_as_table() {
    let configs = vec![firmware("a", true, ""), firmware("b", false, "")];
    let report = list(OutputFormat::AsciiTable, &configs);
    assert_eq!(report.len(), 1);
    let Block::Table {
        titles,
        rows,
        indent,
    } = &report[0]
    else {
        panic!("table expected")
    };
    assert_eq!(titles, &vec!["ID", "Available", "Created", "Updated"]);
    assert_eq!(
        rows,
        &vec![
            vec!["a", "true", "2025-01-01", "2025-01-02"],
            vec!["b", "false", "2025-01-01", "2025-01-02"],
        ]
    );
    assert!(!indent);
}

#[test]
fn list_report_as_json() {
    let configs = vec![firmware("a", true, ""), firmware("b", false, "")];
    let report = list(OutputFormat::Json, &configs);
    let [Block::Json(JsonValue::Array(items))] = &report[..] else {
        panic!("json array expected")
    };
    assert_eq!(items.len(), 2);
    assert_eq!(items[0].get("id").and_then(|v| v.as_str()), Some("a"));
    assert_eq!(items[1].get("id").and_then(|v| v.as_str()), Some("b"));
}

#[test]
fn get_report_of_components_not_yet_downloaded() {
    for components in ["", "{}"] {
        let report = get(OutputFormat::AsciiTable, &firmware("fw", true, components), None);
        assert_eq!(
            lines(&report),
            vec![
                "Rack Firmware Configuration:",
                "  ID: fw",
                "  Available: true",
                "  Created: 2025-01-01",
                "  Updated: 2025-01-02",
                "\nFirmware Components: (not yet downloaded)",
            ]
        );
    }
}

#[test]
fn get_report_of_components_that_are_no_json_shows_none() {
    let report = get(OutputFormat::AsciiTable, &firmware("fw", true, "garbage"), None);
    assert_eq!(report.len(), 5);
    // A document without a `devices` object shows none either.
    let parsed = obj(&[("devices", JsonValue::Array(vec![]))]);
    let report = get(
        OutputFormat::AsciiTable,
        &firmware("fw", true, "{\"devices\": []}"),
        Some(&parsed),
    );
    assert_eq!(report.len(), 5);
    let parsed = JsonValue::Number(3);
    let report = get(OutputFormat::AsciiTable, &firmware("fw", true, "3"), Some(&parsed));
    assert_eq!(report.len(), 5);
}

#[test]
fn get_report_with_devices_and_subcomponents() {
    let sub = |name: &str, version: &str| {
        obj(&[
            ("component", JsonValue::string(name)),
            ("version", JsonValue::string(version)),
        ])
    };
    let bmc = obj(&[
        ("component", JsonValue::string("BMC")),
        ("bundle", JsonValue::string("bmc.fwpkg")),
        ("firmware_type", JsonValue::string("prod")),
        ("target", JsonValue::string("/redfish/v1/a")),
        (
            "subcomponents",
            JsonValue::Array(vec![sub("ERoT", "1.2"), JsonValue::Null]),
        ),
    ]);
    let bios = obj(&[
        ("component", JsonValue::string("BIOS")),
        ("firmware_type", JsonValue::Number(1)),
        ("subcomponents", JsonValue::Array(vec![])),
    ]);
    let parsed = obj(&[(
        "devices",
        obj(&[
            ("compute", obj(&[("0", bmc), ("1", bios)])),
            ("switch", JsonValue::string("none")),
        ]),
    )]);
    let report = get(
        OutputFormat::AsciiTable,
        &firmware("fw", true, "{...}"),
        Some(&parsed),
    );
    let shown = lines(&report);
    assert_eq!(shown.len(), 11);
    assert_eq!(shown[5], "\n[compute]");
    let Block::Table {
        titles,
        rows,
        indent,
    } = &report[6]
    else {
        panic!("table expected")
    };
    assert_eq!(titles, &vec!["Component", "Type", "Bundle", "Target"]);
    assert_eq!(
        rows,
        &vec![
            vec!["BMC", "PROD", "bmc.fwpkg", "/redfish/v1/a"],
            vec!["BIOS", "-", "-", "-"],
        ]
    );
    assert!(!indent);
    assert_eq!(shown[7], "\n  BMC Subcomponents:");
    let Block::Table {
        titles,
        rows,
        indent,
    } = &report[8]
    else {
        panic!("table expected")
    };
    assert_eq!(titles, &vec!["Component", "Version", "SKUID"]);
    assert_eq!(rows, &vec![vec!["ERoT", "1.2", "-"], vec!["-", "-", "-"]]);
    assert!(indent);
    assert_eq!(shown[9], "\n[switch]");
    let Block::Table { rows, .. } = &report[10] else {
        panic!("table expected")
    };
    assert!(rows.is_empty());
}

#[test]
fn get_report_as_json_ignores_components() {
    let report = get(OutputFormat::Json, &firmware("fw", true, "x"), None);
    assert_eq!(lines(&report), vec!["json"]);
}

#[test]
fn apply_banner_names_firmware_and_rack() {
    let opts = Apply {
        rack_id: "rack-7".to_string(),
        firmware_id: "fw-1".to_string(),
        firmware_type: "prod".to_string(),
    };
    assert_eq!(
        apply_banner(&opts),
        "Applying firmware ID 'fw-1' (prod) to rack 'rack-7'..."
    );
}

fn device(device_type: &str, success: bool, job_id: &str, nodes: &[(&str, &str)]) -> DeviceResult {
    DeviceResult {
        device_id: format!("{device_type}-id"),
        device_type: device_type.to_string(),
        success,
        message: "m".to_string(),
        job_id: job_id.to_string(),
        node_jobs: nodes
            .iter()
            .map(|(node_id, job_id)| NodeJob {
                node_id: node_id.to_string(),
                job_id: job_id.to_string(),
            })
            .collect(),
    }
}

#[test]
fn apply_report_without_node_jobs() {
    let response = ApplyResponse {
        total_updates: 2,
        successful_updates: 2,
        failed_updates: 0,
        device_results: vec![device("compute", true, "job-1", &[]), device("switch", true, "", &[])],
    };
    let (report, verdict) = apply(OutputFormat::AsciiTable, &response);
    assert!(verdict.is_ok());
    let rule = "=".repeat(80);
    let shown = lines(&report);
    assert_eq!(shown.len(), 7);
    assert_eq!(shown[0], format!("\n{rule}"));
    assert_eq!(shown[1], "Firmware Update Summary");
    assert_eq!(shown[2], rule);
    let Block::Table {
        titles,
        rows,
        indent,
    } = &report[3]
    else {
        panic!("table expected")
    };
    assert_eq!(titles, &vec!["Device Type", "Status", "Job ID"]);
    assert_eq!(
        rows,
        &vec![
            vec!["compute", "INITIATED", "job-1"],
            vec!["switch", "INITIATED", "-"],
        ]
    );
    assert!(!indent);
    assert_eq!(shown[4], "\nTotal updates: 2");
    assert_eq!(shown[5], "Successfully initiated: 2");
    assert_eq!(shown[6], "Failed to initiate: 0");
}

#[test]
fn apply_report_with_node_jobs_and_failures() {
    let response = ApplyResponse {
        total_updates: 13,
        successful_updates: 10,
        failed_updates: 3,
        device_results: vec![
            device("compute", true, "", &[("n1", "j1"), ("n2", "j2")]),
            device("switch", false, "", &[]),
            device("power", true, "j9", &[("pw1", "j3")]),
        ],
    };
    let (report, verdict) = apply(OutputFormat::AsciiTable, &response);
    assert_eq!(generic(verdict.unwrap_err()), "3 firmware updates failed");
    let rule = "-".repeat(80);
    let shown = lines(&report);
    assert_eq!(shown.len(), 11);
    assert_eq!(shown[4], "\nTotal updates: 13");
    assert_eq!(shown[5], "Successfully initiated: 10");
    assert_eq!(shown[6], "Failed to initiate: 3");
    assert_eq!(shown[7], format!("\n{rule}"));
    assert_eq!(
        shown[8],
        "Per-Node Job IDs (use with GetFirmwareJobStatus to track progress)"
    );
    assert_eq!(shown[9], rule);
    let Block::Table { rows, .. } = &report[3] else {
        panic!("table expected")
    };
    assert_eq!(rows[1], vec!["switch", "FAILED", "-"]);
    let Block::Table {
        titles,
        rows,
        indent,
    } = &report[10]
    else {
        panic!("table expected")
    };
    assert_eq!(titles, &vec!["Device Type", "Node ID", "Job ID"]);
    assert_eq!(
        rows,
        &vec![
            vec!["compute", "n1", "j1"],
            vec!["compute", "n2", "j2"],
            vec!["power", "pw1", "j3"],
        ]
    );
    assert!(!indent);
}

#[test]
fn apply_report_as_json() {
    let response = ApplyResponse {
        total_updates: 1,
        successful_updates: 0,
        failed_updates: 1,
        device_results: vec![device("compute", false, "j", &[("n1", "j1")])],
    };
    let (report, verdict) = apply(OutputFormat::Json, &response);
    assert_eq!(generic(verdict.unwrap_err()), "1 firmware updates failed");
    let [Block::Json(document)] = &report[..] else {
        panic!("json expected")
    };
    assert!(matches!(document.get("total_updates"), Some(JsonValue::Number(1))));
    assert!(matches!(document.get("successful_updates"), Some(JsonValue::Number(0))));
    assert!(matches!(document.get("failed_updates"), Some(JsonValue::Number(1))));
    let results = document
        .get("device_results")
        .and_then(|v| v.as_array())
        .expect("results");
    assert_eq!(results.len(), 1);
    assert_eq!(results[0].get("device_id").and_then(|v| v.as_str()), Some("compute-id"));
    assert_eq!(results[0].get("device_type").and_then(|v| v.as_str()), Some("compute"));
    assert!(matches!(results[0].get("success"), Some(JsonValue::Bool(false))));
    assert_eq!(results[0].get("message").and_then(|v| v.as_str()), Some("m"));
    assert_eq!(results[0].get("job_id").and_then(|v| v.as_str()), Some("j"));
    let jobs = results[0]
        .get("node_jobs")
        .and_then(|v| v.as_array())
        .expect("jobs");
    assert_eq!(jobs[0].get("node_id").and_then(|v| v.as_str()), Some("n1"));
    assert_eq!(jobs[0].get("job_id").and_then(|v| v.as_str()), Some("j1"));
}

fn status(error_message: &str, result_json: &str) -> JobStatus {
    JobStatus {
        job_id: "j1".to_string(),
        state: "2".to_string(),
        state_description: "running".to_string(),
        rack_id: "rack".to_string(),
        node_id: "node".to_string(),
        error_message: error_message.to_string(),
        result_json: result_json.to_string(),
    }
}

#[test]
fn job_status_report_shows_error_and_result_only_where_there_is_one() {
    let head = vec![
        "Firmware Job Status",
        "  Job ID:      j1",
        "  State:       2",
        "  Description: running",
        "  Rack:        rack",
        "  Node:        node",
    ];
    assert_eq!(
        lines(&get_job_status(OutputFormat::AsciiTable, &status("", ""))),
        head
    );
    let mut with_error = head.clone();
    with_error.push("  Error:       broke");
    assert_eq!(
        lines(&get_job_status(OutputFormat::AsciiTable, &status("broke", ""))),
        with_error
    );
    let mut with_both = with_error.clone();
    with_both.push("  Result:      {}");
    assert_eq!(
        lines(&get_job_status(OutputFormat::AsciiTable, &status("broke", "{}"))),
        with_both
    );
    let mut with_result = head.clone();
    with_result.push("  Result:      ok");
    assert_eq!(
        lines(&get_job_status(OutputFormat::AsciiTable, &status("", "ok"))),
        with_result
    );
}

#[test]
fn job_status_report_as_json() {
    let report = get_job_status(OutputFormat::Json, &status("e", "r"));
    let [Block::Json(document)] = &report[..] else {
        panic!("json expected")
    };
    for (key, value) in [
        ("job_id", "j1"),
        ("state", "2"),
        ("state_description", "running"),
        ("rack_id", "rack"),
        ("node_id", "node"),
        ("error_message", "e"),
        ("result_json", "r"),
    ] {
        assert_eq!(document.get(key).and_then(|v| v.as_str()), Some(value));
    }
}
