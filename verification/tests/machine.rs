use bmc_mock::bmc_state::{BmcState, JobState};
use bmc_mock::bug::InjectedBugs;
use bmc_mock::combined_service::{CombinedService, Dispatch};
use bmc_mock::json::{JsonObject, JsonValue};
use bmc_mock::mock_machine_router::{
    handle, machine_router, observe_reply, BmcCommand, BuildError, Delivery, MachineConfig,
    MachineRouter, SetSystemPowerError,
};
use bmc_mock::power::SystemPowerControl;
use bmc_mock::redfish::chassis::ChassisConfig;
use bmc_mock::redfish::computer_system::SystemConfig;
use bmc_mock::redfish::manager::Config;
use bmc_mock::redfish::oem::dell::idrac::{create_bios_job, get_job, IdracState};
use bmc_mock::redfish::oem::nvidia::bluefield::{
    get_oem_nvidia, hostrshim_set, patch_managers_oem_nvidia, resource, BluefieldState,
};
use bmc_mock::redfish::oem::{BmcVendor, State};
use bmc_mock::redfish::task_service::{get_task, update_firmware_simple_update_task};
use bmc_mock::redfish::update_service::UpdateServiceConfig;
use bmc_mock::router::{Handler, Method, Router};

fn config(fault_names: &[&str]) -> MachineConfig<()> {
    MachineConfig {
        manager: Config {
            id: "bmc".to_string(),
            eth_interfaces: vec![],
            firmware_version: "1.0".to_string(),
        },
        system: SystemConfig { systems: vec![] },
        chassis: ChassisConfig { chassis: vec![] },
        update_service: UpdateServiceConfig {
            firmware_inventory: vec![],
        },
        fault_names: fault_names.iter().map(|n| n.to_string()).collect(),
    }
}

fn dpu(nic_mode: bool) -> MachineRouter<()> {
    machine_router(
        config(&["slow"]),
        BmcVendor::Nvidia,
        State::NvidiaBluefield(BluefieldState::new(nic_mode)),
    )
    .expect("dpu")
}

fn host() -> MachineRouter<()> {
    machine_router(
        config(&["slow"]),
        BmcVendor::Dell,
        State::DellIdrac(IdracState::new()),
    )
    .expect("host")
}

fn names(value: &JsonValue) -> Vec<String> {
    value
        .as_object()
        .expect("object")
        .fields
        .iter()
        .map(|(name, _)| name.clone())
        .collect()
}

fn text<'a>(value: &'a JsonValue, key: &str) -> Option<&'a str> {
    value.get(key).and_then(|v| v.as_str())
}

fn routes(router: &Router) -> Vec<(Method, String, Handler)> {
    router
        .routes
        .iter()
        .map(|r| (r.method, r.path.clone(), r.handler))
        .collect()
}

/// The handler of a request whose path has no parameter, as the server's
/// router would find it.
fn lookup(router: &Router, method: Method, path: &str) -> Option<Handler> {
    router
        .routes
        .iter()
        .find(|r| r.method == method && r.path == path)
        .map(|r| r.handler)
}

fn common_routes() -> Vec<(Method, String, Handler)> {
    [
        (Method::Get, "/InjectedBugs", Handler::GetInjectedBugs),
        (Method::Post, "/InjectedBugs", Handler::PostInjectedBugs),
        (Method::Get, "/redfish/v1", Handler::GetServiceRoot),
        (Method::Get, "/redfish/v1/Chassis", Handler::GetChassisCollection),
        (Method::Get, "/redfish/v1/Chassis/{chassis_id}", Handler::GetChassis),
        (Method::Patch, "/redfish/v1/Chassis/{chassis_id}", Handler::PatchChassis),
        (Method::Get, "/redfish/v1/Managers", Handler::GetManagerCollection),
        (Method::Get, "/redfish/v1/Managers/{manager_id}", Handler::GetManager),
        (Method::Patch, "/redfish/v1/Managers/{manager_id}", Handler::PatchManager),
        (Method::Get, "/redfish/v1/UpdateService", Handler::GetUpdateService),
        (
            Method::Post,
            "/redfish/v1/UpdateService/Actions/UpdateService.SimpleUpdate",
            Handler::SimpleUpdate,
        ),
        (
            Method::Get,
            "/redfish/v1/TaskService/Tasks/{task_id}",
            Handler::GetTask,
        ),
        (
            Method::Get,
            "/redfish/v1/AccountService/Accounts",
            Handler::GetAccountCollection,
        ),
        (
            Method::Get,
            "/redfish/v1/AccountService/Accounts/{account_id}",
            Handler::GetAccount,
        ),
        (Method::Get, "/redfish/v1/Systems", Handler::GetSystemCollection),
        (Method::Get, "/redfish/v1/Systems/{system_id}", Handler::GetSystem),
        (Method::Patch, "/redfish/v1/Systems/{system_id}", Handler::PatchSystem),
    ]
    .into_iter()
    .map(|(method, path, handler)| (method, path.to_string(), handler))
    .collect()
}

#[test]
fn dpu_instance_has_common_and_bluefield_routes() {
    let machine = dpu(false);
    let mut expected = common_routes();
    expected.extend([
        (
            Method::Get,
            "/redfish/v1/Systems/Bluefield/Oem/Nvidia".to_string(),
            Handler::GetOemNvidia,
        ),
        (
            Method::Post,
            "/redfish/v1/Systems/Bluefield/Oem/Nvidia/Actions/HostRshim.Set".to_string(),
            Handler::HostRshimSet,
        ),
        (
            Method::Patch,
            "/redfish/v1/Managers/Bluefield_BMC/Oem/Nvidia".to_string(),
            Handler::PatchManagersOemNvidia,
        ),
    ]);
    assert_eq!(routes(&machine.router), expected);
    assert_eq!(machine.state.bmc_vendor, BmcVendor::Nvidia);
}

#[test]
fn host_instance_has_common_and_idrac_routes() {
    let machine = host();
    let mut expected = common_routes();
    expected.extend([
        (
            Method::Get,
            "/redfish/v1/Managers/iDRAC.Embedded.1/Oem/Dell/Jobs/{job_id}".to_string(),
            Handler::GetDellJob,
        ),
        (
            Method::Post,
            "/redfish/v1/Managers/iDRAC.Embedded.1/Oem/Dell/Jobs".to_string(),
            Handler::CreateDellBiosJob,
        ),
    ]);
    assert_eq!(routes(&machine.router), expected);
    assert_eq!(machine.state.bmc_vendor, BmcVendor::Dell);
}

#[test]
fn instance_with_state_of_another_vendor_is_not_built() {
    let err = machine_router(
        config(&[]),
        BmcVendor::Nvidia,
        State::DellIdrac(IdracState::new()),
    )
    .err()
    .expect("mismatch");
    assert_eq!(
        err,
        BuildError::VendorMismatch {
            vendor: BmcVendor::Nvidia,
            state_vendor: BmcVendor::Dell
        }
    );
    let err = machine_router(
        config(&[]),
        BmcVendor::Dell,
        State::NvidiaBluefield(BluefieldState::new(true)),
    )
    .err()
    .expect("mismatch");
    assert_eq!(
        err,
        BuildError::VendorMismatch {
            vendor: BmcVendor::Dell,
            state_vendor: BmcVendor::Nvidia
        }
    );
}

#[test]
fn new_instance_state_comes_from_its_configuration() {
    let machine = dpu(true);
    assert_eq!(machine.state.manager.config().id, "bmc");
    assert_eq!(machine.state.manager.config().firmware_version, "1.0");
    assert!(machine.state.manager.overrides_of("bmc").fields.is_empty());
    assert!(machine.state.chassis_state.config().chassis.is_empty());
    assert!(machine.state.system_state.config().systems.is_empty());
    assert!(machine
        .state
        .update_service_state
        .config()
        .firmware_inventory
        .is_empty());
    assert!(names(&machine.state.injected_bugs.get()).is_empty());
    assert_eq!(BmcVendor::of(&machine.state.oem_state), BmcVendor::Nvidia);
}

#[test]
fn family_state_takes_patches_and_keeps_its_configuration() {
    let mut machine = dpu(true);
    machine
        .state
        .manager
        .apply_patch("bmc", &JsonObject::new().with("DateTime", JsonValue::string("now")));
    machine
        .state
        .manager
        .apply_patch("bmc", &JsonObject::new().with("DateTime", JsonValue::string("later")));
    machine
        .state
        .manager
        .apply_patch("other", &JsonObject::new().with("X", JsonValue::Null));
    assert_eq!(
        machine
            .state
            .manager
            .overrides_of("bmc")
            .get("DateTime")
            .and_then(|v| v.as_str()),
        Some("later")
    );
    assert!(machine.state.manager.overrides_of("bmc").get("X").is_none());
    assert!(machine.state.manager.overrides_of("none").fields.is_empty());
    assert_eq!(machine.state.manager.config().id, "bmc");
    // The other families were not touched.
    assert!(machine.state.chassis_state.overrides_of("bmc").fields.is_empty());
    assert!(machine.state.system_state.overrides_of("bmc").fields.is_empty());
}

#[test]
fn scenario_dpu_and_host_behind_one_endpoint() {
    let mut service: CombinedService<MachineRouter<()>> = CombinedService::new();
    service.insert("A".to_string(), dpu(false));
    service.insert("B".to_string(), host());
    let path = "/redfish/v1/Systems/Bluefield/Oem/Nvidia";

    // host=A: the DPU answers with its mode.
    let a = match service.call(path, Some("host=A")) {
        Dispatch::Forward { router, path: normal } => {
            assert_eq!(normal, path);
            router
        }
        Dispatch::NotFound { .. } => panic!("A is registered"),
    };
    assert_eq!(a.state.bmc_vendor, BmcVendor::Nvidia);
    assert_eq!(lookup(&a.router, Method::Get, path), Some(Handler::GetOemNvidia));
    let response = get_oem_nvidia(&a.state.oem_state);
    assert_eq!(response.status, 200);
    assert_eq!(text(&response.body, "Mode"), Some("DpuMode"));

    // host=B: the host has no such resource, so the request gets the
    // answer for an absent route.
    let b = match service.call(path, Some("host=B")) {
        Dispatch::Forward { router, .. } => router,
        Dispatch::NotFound { .. } => panic!("B is registered"),
    };
    assert_eq!(b.state.bmc_vendor, BmcVendor::Dell);
    assert_eq!(lookup(&b.router, Method::Get, path), None);
    let response = bmc_mock::http::not_found();
    assert_eq!(response.status, 404);
    assert_eq!(response.body.as_str(), Some(""));
    // Even if the handler were reached on the host, it would say the same.
    let response = get_oem_nvidia(&b.state.oem_state);
    assert_eq!(response.status, 404);
    assert_eq!(response.body.as_str(), Some(""));

    // A trailing slash makes no difference to where the request goes.
    assert!(matches!(
        service.call("/redfish/v1/Systems/Bluefield/Oem/Nvidia/", Some("host=A")),
        Dispatch::Forward { path: normal, .. } if normal == path
    ));
}

#[test]
fn oem_nvidia_document_of_a_dpu() {
    let response = get_oem_nvidia(&State::NvidiaBluefield(BluefieldState::new(false)));
    assert_eq!(response.status, 200);
    assert_eq!(names(&response.body), vec!["@odata.id", "@odata.type", "Mode"]);
    assert_eq!(
        text(&response.body, "@odata.id"),
        Some("/redfish/v1/Systems/Bluefield/Oem/Nvidia")
    );
    assert_eq!(
        text(&response.body, "@odata.type"),
        Some("#NvidiaComputerSystem.v1_0_0.NvidiaComputerSystem")
    );
    assert_eq!(text(&response.body, "Mode"), Some("DpuMode"));
}

#[test]
fn oem_nvidia_document_of_a_nic() {
    let state = BluefieldState::new(true);
    assert!(state.is_nic_mode());
    let response = get_oem_nvidia(&State::NvidiaBluefield(state));
    assert_eq!(text(&response.body, "Mode"), Some("NicMode"));
    assert!(response.body.get("Id").is_none());
    assert!(response.body.get("Name").is_none());
}

#[test]
fn oem_nvidia_on_a_host_is_not_found() {
    let response = get_oem_nvidia(&State::DellIdrac(IdracState::new()));
    assert_eq!(response.status, 404);
    assert_eq!(response.body.as_str(), Some(""));
}

#[test]
fn bluefield_resource_identity() {
    let resource = resource();
    assert_eq!(resource.odata_id, "/redfish/v1/Systems/Bluefield/Oem/Nvidia");
    assert_eq!(
        resource.odata_type,
        "#NvidiaComputerSystem.v1_0_0.NvidiaComputerSystem"
    );
    assert_eq!(resource.id, "");
    assert_eq!(resource.name, "");
}

#[test]
fn bluefield_actions_are_acknowledged() {
    for response in [hostrshim_set(), patch_managers_oem_nvidia()] {
        assert_eq!(response.status, 200);
        assert!(names(&response.body).is_empty());
    }
}

#[test]
fn task_is_always_completed() {
    let response = get_task();
    assert_eq!(response.status, 200);
    assert_eq!(
        names(&response.body),
        vec![
            "@odata.id",
            "@odata.type",
            "Id",
            "PercentComplete",
            "StartTime",
            "TaskMonitor",
            "TaskState",
            "TaskStatus"
        ]
    );
    assert_eq!(text(&response.body, "@odata.id"), Some("/redfish/v1/TaskService/Tasks/0"));
    assert_eq!(text(&response.body, "@odata.type"), Some("#Task.v1_4_3.Task"));
    assert_eq!(text(&response.body, "Id"), Some("0"));
    assert!(matches!(
        response.body.get("PercentComplete"),
        Some(JsonValue::Number(100))
    ));
    assert_eq!(text(&response.body, "StartTime"), Some("2024-01-30T09:00:52+00:00"));
    assert_eq!(
        text(&response.body, "TaskMonitor"),
        Some("/redfish/v1/TaskService/Tasks/0/Monitor")
    );
    assert_eq!(text(&response.body, "TaskState"), Some("Completed"));
    assert_eq!(text(&response.body, "TaskStatus"), Some("OK"));
}

#[test]
fn simple_update_task_names_the_task() {
    let response = update_firmware_simple_update_task();
    assert_eq!(response.status, 200);
    assert_eq!(names(&response.body), vec!["@odata.id", "@odata.type", "Id"]);
    assert_eq!(text(&response.body, "@odata.id"), Some("/redfish/v1/TaskService/Tasks/0"));
    assert_eq!(text(&response.body, "Id"), Some("0"));
}

#[test]
fn handle_runs_the_fault_handlers_on_the_fault_store() {
    let mut machine = dpu(false);
    let body = JsonValue::Object(JsonObject::new().with("slow", JsonValue::Number(1)));
    let response = handle(Handler::PostInjectedBugs, &mut machine.state, None, Some(body));
    assert_eq!(response.status, 200);
    assert_eq!(names(&response.body), vec!["slow"]);
    let response = handle(Handler::PostInjectedBugs, &mut machine.state, None, None);
    assert_eq!(response.status, 400);
    let response = handle(Handler::GetInjectedBugs, &mut machine.state, None, None);
    assert_eq!(response.status, 200);
    assert_eq!(names(&response.body), vec!["slow"]);
    assert_eq!(handle(Handler::GetTask, &mut machine.state, Some("7"), None).status, 200);
    assert_eq!(handle(Handler::HostRshimSet, &mut machine.state, None, None).status, 200);
    assert_eq!(
        handle(Handler::PatchManagersOemNvidia, &mut machine.state, None, None).status,
        200
    );
}

#[test]
fn bios_jobs_move_from_scheduled_to_completed() {
    let mut machine = host();
    let created = handle(Handler::CreateDellBiosJob, &mut machine.state, None, None);
    assert_eq!(created.status, 200);
    assert_eq!(text(&created.body, "Id"), Some("0"));
    assert_eq!(text(&created.body, "JobState"), Some("Scheduled"));
    assert_eq!(
        text(&created.body, "@odata.id"),
        Some("/redfish/v1/Managers/iDRAC.Embedded.1/Oem/Dell/Jobs/0")
    );
    assert_eq!(text(&created.body, "@odata.type"), Some("#DellJob.v1_0_0.DellJob"));
    assert!(matches!(
        created.body.get("PercentComplete"),
        Some(JsonValue::Number(0))
    ));
    let second = handle(Handler::CreateDellBiosJob, &mut machine.state, None, None);
    assert_eq!(text(&second.body, "Id"), Some("1"));

    let polled = handle(Handler::GetDellJob, &mut machine.state, Some("1"), None);
    assert_eq!(text(&polled.body, "JobState"), Some("Scheduled"));

    machine.state.complete_all_bios_jobs();
    for job in ["0", "1"] {
        let polled = handle(Handler::GetDellJob, &mut machine.state, Some(job), None);
        assert_eq!(polled.status, 200);
        assert_eq!(text(&polled.body, "Id"), Some(job));
        assert_eq!(text(&polled.body, "JobState"), Some("Completed"));
        assert!(matches!(
            polled.body.get("PercentComplete"),
            Some(JsonValue::Number(100))
        ));
    }
    // Completing again changes nothing.
    machine.state.complete_all_bios_jobs();
    let polled = handle(Handler::GetDellJob, &mut machine.state, Some("0"), None);
    assert_eq!(text(&polled.body, "JobState"), Some("Completed"));
}

#[test]
fn unknown_bios_job_is_not_found() {
    let mut state = State::DellIdrac(IdracState::new());
    create_bios_job(&mut state);
    for job in ["1", "", "x", "-0", "99999999999999999999999999"] {
        let response = get_job(&state, job);
        assert_eq!(response.status, 404, "job {job:?}");
        assert_eq!(response.body.as_str(), Some(""));
    }
    assert_eq!(get_job(&state, "0").status, 200);
    assert_eq!(get_job(&state, "000").status, 200);
}

#[test]
fn bios_jobs_on_a_dpu_are_not_found() {
    let mut machine = dpu(false);
    let response = handle(Handler::CreateDellBiosJob, &mut machine.state, None, None);
    assert_eq!(response.status, 404);
    let response = handle(Handler::GetDellJob, &mut machine.state, Some("0"), None);
    assert_eq!(response.status, 404);
    let response = handle(Handler::GetDellJob, &mut machine.state, None, None);
    assert_eq!(response.status, 404);
}

#[test]
fn complete_all_bios_jobs_leaves_other_vendors_alone() {
    let mut machine = dpu(true);
    machine.state.complete_all_bios_jobs();
    assert!(matches!(
        &machine.state.oem_state,
        State::NvidiaBluefield(s) if s.is_nic_mode()
    ));
}

#[test]
fn idrac_state_tracks_jobs() {
    let mut idrac = IdracState::new();
    assert_eq!(idrac.job_count(), 0);
    assert_eq!(idrac.job_state(0), None);
    assert_eq!(idrac.schedule_bios_job(), 0);
    assert_eq!(idrac.schedule_bios_job(), 1);
    assert_eq!(idrac.job_count(), 2);
    assert_eq!(idrac.job_state(1), Some(JobState::Scheduled));
    idrac.complete_all_bios_jobs();
    assert_eq!(idrac.job_state(0), Some(JobState::Completed));
    assert_eq!(idrac.job_state(1), Some(JobState::Completed));
    assert_eq!(idrac.schedule_bios_job(), 2);
    assert_eq!(idrac.job_state(2), Some(JobState::Scheduled));
    assert_eq!(idrac.job_state(1), Some(JobState::Completed));
    assert_eq!(idrac.job_state(3), None);
}

#[test]
fn bmc_state_new_takes_its_parts() {
    let state: BmcState<()> = BmcState::new(
        BmcVendor::Dell,
        State::DellIdrac(IdracState::new()),
        Config {
            id: "m".to_string(),
            eth_interfaces: vec![],
            firmware_version: "v".to_string(),
        },
        SystemConfig { systems: vec![] },
        ChassisConfig { chassis: vec![] },
        UpdateServiceConfig {
            firmware_inventory: vec![JsonObject::new()],
        },
        InjectedBugs::new(vec![]),
    );
    assert_eq!(state.bmc_vendor, BmcVendor::Dell);
    assert_eq!(state.manager.config().id, "m");
    assert_eq!(state.update_service_state.config().firmware_inventory.len(), 1);
}

#[test]
fn set_system_power_error_messages() {
    assert_eq!(
        SetSystemPowerError::BadRequest("already on".to_string()).message(),
        "Mock BMC reported bad request when setting system power: already on"
    );
    assert_eq!(
        SetSystemPowerError::CommandSendError("queue closed".to_string()).message(),
        "Mock BMC failed to send power command: queue closed"
    );
}

#[test]
fn dropped_reply_channel_is_a_send_error() {
    let (sender, mut receiver) = tokio::sync::oneshot::channel();
    let command = BmcCommand::SetSystemPower {
        request: SystemPowerControl::ForceOff,
        reply: Some(sender),
    };
    assert_eq!(command.request(), SystemPowerControl::ForceOff);
    // The command is dropped before anything was sent.
    drop(command);
    let received = receiver.try_recv().ok();
    match observe_reply(received) {
        Err(SetSystemPowerError::CommandSendError(reason)) => {
            assert_eq!(reason, "reply channel closed before the command completed")
        }
        other => panic!("unexpected: {other:?}"),
    }
}

#[test]
fn completed_command_delivers_its_outcome() {
    let (sender, mut receiver) = tokio::sync::oneshot::channel();
    let command = BmcCommand::SetSystemPower {
        request: SystemPowerControl::On,
        reply: Some(sender),
    };
    let delivery = command.complete(Err(SetSystemPowerError::BadRequest("no".to_string())));
    assert_eq!(delivery, Delivery::Delivered);
    match observe_reply(receiver.try_recv().ok()) {
        Err(SetSystemPowerError::BadRequest(reason)) => assert_eq!(reason, "no"),
        other => panic!("unexpected: {other:?}"),
    }
}

#[test]
fn completed_command_delivers_success() {
    let (sender, mut receiver) = tokio::sync::oneshot::channel();
    let command = BmcCommand::SetSystemPower {
        request: SystemPowerControl::GracefulRestart,
        reply: Some(sender),
    };
    assert_eq!(command.complete(Ok(())), Delivery::Delivered);
    assert!(observe_reply(receiver.try_recv().ok()).is_ok());
}

#[test]
fn command_without_reply_channel_sends_nothing() {
    let command = BmcCommand::SetSystemPower {
        request: SystemPowerControl::PowerCycle,
        reply: None,
    };
    assert_eq!(command.complete(Ok(())), Delivery::NoOneWaiting);
}

#[test]
fn command_whose_caller_gave_up() {
    let (sender, receiver) = tokio::sync::oneshot::channel();
    drop(receiver);
    let command = BmcCommand::SetSystemPower {
        request: SystemPowerControl::ACPowercycle,
        reply: Some(sender),
    };
    assert_eq!(command.complete(Ok(())), Delivery::ReceiverGone);
}

fn card_machine() -> MachineRouter<u8> {
    let card = bmc_mock::hw::bluefield3::Bluefield3 {
        product_serial_number: "SN1".to_string(),
        bmc_mac_address: [2, 0, 0, 0, 0, 1],
        oob_mac_address: None,
        nic_mode: false,
    };
    machine_router(
        MachineConfig {
            manager: card.manager_config(),
            system: card.system_config(7),
            chassis: card.chassis_config(),
            update_service: UpdateServiceConfig {
                firmware_inventory: vec![
                    JsonObject::new().with("Id", JsonValue::string("BMC_Firmware"))
                ],
            },
            fault_names: vec![],
        },
        BmcVendor::Nvidia,
        State::NvidiaBluefield(BluefieldState::new(false)),
    )
    .expect("card")
}

fn links(value: &JsonValue) -> Vec<String> {
    value
        .get("Members")
        .and_then(|v| v.as_array())
        .expect("members")
        .iter()
        .map(|m| text(m, "@odata.id").expect("link").to_string())
        .collect()
}

#[test]
fn service_root_refers_to_each_family() {
    let mut machine = dpu(false);
    let response = handle(Handler::GetServiceRoot, &mut machine.state, None, None);
    assert_eq!(response.status, 200);
    assert_eq!(
        names(&response.body),
        vec![
            "@odata.id",
            "@odata.type",
            "Id",
            "Name",
            "Chassis",
            "Managers",
            "Systems",
            "UpdateService"
        ]
    );
    assert_eq!(text(&response.body, "@odata.id"), Some("/redfish/v1"));
    assert_eq!(text(&response.body, "Id"), Some("RootService"));
    for (name, address) in [
        ("Chassis", "/redfish/v1/Chassis"),
        ("Managers", "/redfish/v1/Managers"),
        ("Systems", "/redfish/v1/Systems"),
        ("UpdateService", "/redfish/v1/UpdateService"),
    ] {
        let link = response.body.get(name).expect("link");
        assert_eq!(text(link, "@odata.id"), Some(address));
    }
}

#[test]
fn chassis_collection_lists_its_members() {
    let mut machine = card_machine();
    let response = handle(Handler::GetChassisCollection, &mut machine.state, None, None);
    assert_eq!(response.status, 200);
    assert_eq!(
        names(&response.body),
        vec![
            "@odata.id",
            "@odata.type",
            "Name",
            "Members",
            "Members@odata.count"
        ]
    );
    assert_eq!(text(&response.body, "@odata.id"), Some("/redfish/v1/Chassis"));
    assert_eq!(
        text(&response.body, "@odata.type"),
        Some("#ChassisCollection.ChassisCollection")
    );
    assert_eq!(text(&response.body, "Name"), Some("Chassis Collection"));
    assert_eq!(
        links(&response.body),
        vec![
            "/redfish/v1/Chassis/Bluefield_BMC",
            "/redfish/v1/Chassis/Bluefield_ERoT",
            "/redfish/v1/Chassis/CPU_0",
            "/redfish/v1/Chassis/Card1",
        ]
    );
    assert!(matches!(
        response.body.get("Members@odata.count"),
        Some(JsonValue::Number(4))
    ));
}

#[test]
fn chassis_member_shows_what_it_reports() {
    let mut machine = card_machine();
    let response = handle(Handler::GetChassis, &mut machine.state, Some("Card1"), None);
    assert_eq!(response.status, 200);
    assert_eq!(
        names(&response.body),
        vec![
            "@odata.id",
            "@odata.type",
            "Id",
            "Name",
            "Manufacturer",
            "Model",
            "PartNumber",
            "SerialNumber"
        ]
    );
    assert_eq!(text(&response.body, "@odata.id"), Some("/redfish/v1/Chassis/Card1"));
    assert_eq!(text(&response.body, "@odata.type"), Some("#Chassis.v1_23_0.Chassis"));
    assert_eq!(text(&response.body, "Id"), Some("Card1"));
    assert_eq!(text(&response.body, "Manufacturer"), Some("Nvidia"));
    assert_eq!(text(&response.body, "PartNumber"), Some("900-9D3B6-00CV-AA0"));
    assert_eq!(text(&response.body, "SerialNumber"), Some("SN1"));

    // A chassis reports only what it has.
    let response = handle(Handler::GetChassis, &mut machine.state, Some("Bluefield_ERoT"), None);
    assert_eq!(
        names(&response.body),
        vec!["@odata.id", "@odata.type", "Id", "Name", "Manufacturer", "SerialNumber"]
    );
    assert_eq!(text(&response.body, "SerialNumber"), Some(""));
}

#[test]
fn unknown_member_is_not_found() {
    let mut machine = card_machine();
    for handler in [Handler::GetChassis, Handler::GetSystem, Handler::GetManager] {
        for id in [Some("nope"), Some(""), None] {
            let response = handle(handler, &mut machine.state, id, None);
            assert_eq!(response.status, 404);
            assert_eq!(response.body.as_str(), Some(""));
        }
    }
    let body = || Some(JsonValue::Object(JsonObject::new().with("a", JsonValue::Null)));
    for handler in [Handler::PatchChassis, Handler::PatchSystem, Handler::PatchManager] {
        let response = handle(handler, &mut machine.state, Some("nope"), body());
        assert_eq!(response.status, 404);
    }
    assert!(machine.state.chassis_state.overrides_of("nope").fields.is_empty());
}

#[test]
fn patch_of_a_member_shows_in_later_reads_of_that_member_only() {
    let mut machine = card_machine();
    let body = JsonValue::Object(
        JsonObject::new()
            .with("AssetTag", JsonValue::string("rack 7"))
            .with("Model", JsonValue::string("renamed")),
    );
    let response = handle(Handler::PatchChassis, &mut machine.state, Some("Card1"), Some(body));
    assert_eq!(response.status, 200);
    assert_eq!(text(&response.body, "AssetTag"), Some("rack 7"));
    assert_eq!(text(&response.body, "Model"), Some("renamed"));
    assert_eq!(text(&response.body, "Manufacturer"), Some("Nvidia"));

    let read = handle(Handler::GetChassis, &mut machine.state, Some("Card1"), None);
    assert_eq!(text(&read.body, "AssetTag"), Some("rack 7"));
    assert_eq!(text(&read.body, "Model"), Some("renamed"));

    let other = handle(Handler::GetChassis, &mut machine.state, Some("CPU_0"), None);
    assert!(other.body.get("AssetTag").is_none());
    assert_eq!(
        text(&other.body, "Model"),
        Some("Mellanox BlueField-3 [A1] A78(D42) 16 Cores r0p1")
    );
    // The other families do not see it either.
    let system = handle(Handler::GetSystem, &mut machine.state, Some("Bluefield"), None);
    assert!(system.body.get("AssetTag").is_none());
    assert!(machine.state.system_state.overrides_of("Card1").fields.is_empty());
    assert!(machine.state.manager.overrides_of("Card1").fields.is_empty());

    // A second patch is written over the first.
    let body = JsonValue::Object(JsonObject::new().with("AssetTag", JsonValue::string("rack 8")));
    handle(Handler::PatchChassis, &mut machine.state, Some("Card1"), Some(body));
    let read = handle(Handler::GetChassis, &mut machine.state, Some("Card1"), None);
    assert_eq!(text(&read.body, "AssetTag"), Some("rack 8"));
    assert_eq!(text(&read.body, "Model"), Some("renamed"));
}

#[test]
fn patch_with_a_body_that_is_no_object_is_refused() {
    let mut machine = card_machine();
    for body in [None, Some(JsonValue::Null), Some(JsonValue::Array(vec![]))] {
        let response = handle(Handler::PatchSystem, &mut machine.state, Some("Bluefield"), body);
        assert_eq!(response.status, 400);
        assert_eq!(text(&response.body, "error"), Some("patch is not a JSON object"));
    }
    assert!(machine.state.system_state.overrides_of("Bluefield").fields.is_empty());
}

#[test]
fn systems_and_managers_of_a_card() {
    let mut machine = card_machine();
    let systems = handle(Handler::GetSystemCollection, &mut machine.state, None, None);
    assert_eq!(links(&systems.body), vec!["/redfish/v1/Systems/Bluefield"]);
    assert_eq!(
        text(&systems.body, "@odata.type"),
        Some("#ComputerSystemCollection.ComputerSystemCollection")
    );
    let system = handle(Handler::GetSystem, &mut machine.state, Some("Bluefield"), None);
    assert_eq!(system.status, 200);
    assert_eq!(text(&system.body, "@odata.id"), Some("/redfish/v1/Systems/Bluefield"));
    assert_eq!(
        text(&system.body, "@odata.type"),
        Some("#ComputerSystem.v1_20_0.ComputerSystem")
    );
    assert_eq!(text(&system.body, "Manufacturer"), Some("Nvidia"));
    assert_eq!(text(&system.body, "Model"), Some("BlueField-3 DPU"));
    assert_eq!(text(&system.body, "SerialNumber"), Some("SN1"));

    let managers = handle(Handler::GetManagerCollection, &mut machine.state, None, None);
    assert_eq!(links(&managers.body), vec!["/redfish/v1/Managers/Bluefield_BMC"]);
    assert!(matches!(
        managers.body.get("Members@odata.count"),
        Some(JsonValue::Number(1))
    ));
    let manager = handle(Handler::GetManager, &mut machine.state, Some("Bluefield_BMC"), None);
    assert_eq!(manager.status, 200);
    assert_eq!(text(&manager.body, "@odata.type"), Some("#Manager.v1_19_0.Manager"));
    assert_eq!(text(&manager.body, "FirmwareVersion"), Some("BF-23.10-4"));
    let body = JsonValue::Object(
        JsonObject::new().with("FirmwareVersion", JsonValue::string("BF-24.01-1")),
    );
    let patched = handle(
        Handler::PatchManager,
        &mut machine.state,
        Some("Bluefield_BMC"),
        Some(body),
    );
    assert_eq!(text(&patched.body, "FirmwareVersion"), Some("BF-24.01-1"));
    assert_eq!(machine.state.manager.config().firmware_version, "BF-23.10-4");
}

#[test]
fn power_control_handle_stays_with_its_system() {
    let machine = card_machine();
    let systems = &machine.state.system_state.config().systems;
    assert_eq!(systems.len(), 1);
    assert_eq!(systems[0].power_control, Some(7));
}

#[test]
fn update_service_and_simple_update() {
    let mut machine = card_machine();
    let response = handle(Handler::GetUpdateService, &mut machine.state, None, None);
    assert_eq!(response.status, 200);
    assert_eq!(text(&response.body, "@odata.id"), Some("/redfish/v1/UpdateService"));
    assert_eq!(
        text(&response.body, "@odata.type"),
        Some("#UpdateService.v1_9_0.UpdateService")
    );
    let inventory = response
        .body
        .get("FirmwareInventory")
        .and_then(|v| v.as_array())
        .expect("inventory");
    assert_eq!(inventory.len(), 1);
    assert_eq!(text(&inventory[0], "Id"), Some("BMC_Firmware"));

    let response = handle(Handler::SimpleUpdate, &mut machine.state, None, None);
    assert_eq!(response.status, 200);
    assert_eq!(text(&response.body, "@odata.id"), Some("/redfish/v1/TaskService/Tasks/0"));
}

#[test]
fn accounts_collection_is_empty() {
    let mut machine = dpu(false);
    let response = handle(Handler::GetAccountCollection, &mut machine.state, None, None);
    assert_eq!(response.status, 200);
    assert!(links(&response.body).is_empty());
    assert!(matches!(
        response.body.get("Members@odata.count"),
        Some(JsonValue::Number(0))
    ));
    assert_eq!(
        text(&response.body, "@odata.id"),
        Some("/redfish/v1/AccountService/Accounts")
    );
    let response = handle(Handler::GetAccount, &mut machine.state, Some("1"), None);
    assert_eq!(response.status, 404);
}
