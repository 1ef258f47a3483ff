use bmc_mock::combined_service::{CombinedService, Dispatch};
use bmc_mock::forwarded::{forwarded_host_of, normalize_path};

#[test]
fn forwarded_host_alone() {
    assert_eq!(forwarded_host_of("host=192.0.2.7"), "192.0.2.7");
}

#[test]
fn forwarded_host_among_other_parameters() {
    assert_eq!(
        forwarded_host_of("for=198.51.100.1;host=bmc-a;proto=https"),
        "bmc-a"
    );
    assert_eq!(forwarded_host_of("for=x;host=last"), "last");
    assert_eq!(forwarded_host_of("host=first;for=x"), "first");
}

#[test]
fn forwarded_first_host_parameter_counts() {
    assert_eq!(forwarded_host_of("host=a;host=b"), "a");
}

#[test]
fn forwarded_without_host_is_empty_key() {
    assert_eq!(forwarded_host_of(""), "");
    assert_eq!(forwarded_host_of("for=198.51.100.1"), "");
    assert_eq!(forwarded_host_of(";;"), "");
    assert_eq!(forwarded_host_of("proto=https;by=x"), "");
}

#[test]
fn forwarded_host_must_start_its_parameter() {
    // Neither another case nor a space before the name makes a `host=`
    // parameter.
    assert_eq!(forwarded_host_of("Host=a"), "");
    assert_eq!(forwarded_host_of("for=x; host=a"), "");
    assert_eq!(forwarded_host_of("xhost=a"), "");
    assert_eq!(forwarded_host_of("host"), "");
    assert_eq!(forwarded_host_of("hos=a"), "");
}

#[test]
fn forwarded_empty_host_value() {
    assert_eq!(forwarded_host_of("host="), "");
    assert_eq!(forwarded_host_of("host=;for=x"), "");
}

#[test]
fn forwarded_only_the_prefix_is_stripped() {
    assert_eq!(forwarded_host_of("host=host=a"), "host=a");
    assert_eq!(forwarded_host_of("host=a=b"), "a=b");
}

#[test]
fn forwarded_non_ascii_header_is_malformed() {
    assert_eq!(forwarded_host_of("host=b\u{e9}ta"), "");
    assert_eq!(forwarded_host_of("for=\u{4e2d};host=a"), "");
}

#[test]
fn normalize_path_takes_one_trailing_slash_off() {
    assert_eq!(normalize_path("/redfish/v1/Chassis/"), "/redfish/v1/Chassis");
    assert_eq!(normalize_path("/redfish/v1/Chassis"), "/redfish/v1/Chassis");
    assert_eq!(normalize_path("/a//"), "/a/");
}

#[test]
fn normalize_path_leaves_root_and_empty_alone() {
    assert_eq!(normalize_path("/"), "/");
    assert_eq!(normalize_path(""), "");
}

#[test]
fn normalize_path_counts_characters_not_bytes() {
    assert_eq!(normalize_path("/\u{e9}/"), "/\u{e9}");
    assert_eq!(normalize_path("\u{e9}"), "\u{e9}");
}

fn service() -> CombinedService<u32> {
    let mut service = CombinedService::new();
    service.insert("a".to_string(), 1);
    service.insert("b".to_string(), 2);
    service
}

#[test]
fn registered_key_reaches_its_router_and_no_other() {
    let service = service();
    match service.call("/redfish/v1/", Some("host=a")) {
        Dispatch::Forward { router, path } => {
            assert_eq!(*router, 1);
            assert_eq!(path, "/redfish/v1");
        }
        Dispatch::NotFound { .. } => panic!("a is registered"),
    }
    match service.call("/x", Some("for=c;host=b")) {
        Dispatch::Forward { router, path } => {
            assert_eq!(*router, 2);
            assert_eq!(path, "/x");
        }
        Dispatch::NotFound { .. } => panic!("b is registered"),
    }
}

#[test]
fn unregistered_key_is_not_found_and_named() {
    let service = service();
    match service.call("/x", Some("host=c")) {
        Dispatch::NotFound { status, body } => {
            assert_eq!(status, 404);
            assert_eq!(body, "no router configured for host: c");
        }
        Dispatch::Forward { .. } => panic!("c is not registered"),
    }
}

#[test]
fn missing_header_routes_to_the_empty_key() {
    let mut service = service();
    match service.call("/x", None) {
        Dispatch::NotFound { status, body } => {
            assert_eq!(status, 404);
            assert_eq!(body, "no router configured for host: ");
        }
        Dispatch::Forward { .. } => panic!("the empty key is not registered"),
    }
    assert!(matches!(
        service.call("/x", Some("for=1")),
        Dispatch::NotFound { .. }
    ));
    service.insert(String::new(), 9);
    assert!(matches!(
        service.call("/x", None),
        Dispatch::Forward { router: &9, .. }
    ));
    assert!(matches!(
        service.call("/x", Some("proto=http")),
        Dispatch::Forward { router: &9, .. }
    ));
}

#[test]
fn insert_replaces_and_remove_unregisters() {
    let mut service = service();
    service.insert("a".to_string(), 10);
    assert_eq!(service.get("a"), Some(&10));
    assert_eq!(service.get("b"), Some(&2));
    service.remove("a");
    assert_eq!(service.get("a"), None);
    assert!(matches!(
        service.call("/", Some("host=a")),
        Dispatch::NotFound { .. }
    ));
    service.remove("a");
    assert_eq!(service.get("b"), Some(&2));
}
