//! Building one instance: its routing table and its state. Also the commands
//! by which power control reaches an instance from outside its handlers.

use vstd::prelude::*;
use tokio::sync::oneshot::Sender;
use crate::bmc_state::BmcState;
use crate::bug::InjectedBugs;
use crate::bug::body_model;
use crate::bug::get_injected_bugs;
use crate::bug::injected_bugs_response;
use crate::bug::post_injected_bugs;
use crate::bug::posted;
use crate::http::Response;
use crate::http::ResponseModel;
use crate::json::JsonModel;
use crate::json::JsonValue;
use crate::json::name_set;
use crate::power::SystemPowerControl;
use crate::redfish::account_service;
use crate::redfish::chassis;
use crate::redfish::chassis::ChassisConfig;
use crate::redfish::chassis::ChassisState;
use crate::redfish::collection::collection_document;
use crate::redfish::collection::entry_ids;
use crate::redfish::collection::find_document;
use crate::redfish::computer_system;
use crate::redfish::computer_system::SystemConfig;
use crate::redfish::computer_system::SystemState;
use crate::redfish::family::member_response;
use crate::redfish::family::opt_value;
use crate::redfish::family::overrides_after_patch;
use crate::redfish::family::patch_response;
use crate::redfish::manager;
use crate::redfish::manager::Config;
use crate::redfish::manager::ManagerState;
use crate::redfish::oem::BmcVendor;
use crate::redfish::oem::State;
use crate::redfish::oem::dell::idrac::create_bios_job;
use crate::redfish::oem::dell::idrac::create_job_response;
use crate::redfish::oem::dell::idrac::get_job;
use crate::redfish::oem::dell::idrac::job_response;
use crate::redfish::oem::dell::idrac::with_bios_job_scheduled;
use crate::redfish::oem::nvidia::bluefield::get_oem_nvidia;
use crate::redfish::oem::nvidia::bluefield::hostrshim_set;
use crate::redfish::oem::nvidia::bluefield::oem_nvidia_response;
use crate::redfish::oem::nvidia::bluefield::patch_managers_oem_nvidia;
use crate::redfish::service_root::service_root_document;
use crate::redfish::task_service::completed_task;
use crate::redfish::task_service::get_task;
use crate::redfish::task_service::task_identity;
use crate::redfish::update_service::UpdateServiceConfig;
use crate::redfish::update_service::UpdateServiceState;
use crate::redfish::update_service::update_service_document;
use crate::router::Handler;
use crate::router::Method;
use crate::router::RouteModel;
use crate::router::Router;
use crate::text::joined;

verus! {

/// `tokio::sync::oneshot::Sender`: the sending half of a channel that
/// carries one value. Nothing is known of the state of the channel.
#[verifier::external_type_specification]
#[verifier::external_body]
#[verifier::reject_recursive_types(T)]
pub struct ExSender<T>(Sender<T>);

/// What comes back from a power command.
pub type SetSystemPowerResult = Result<(), SetSystemPowerError>;

/// A command to an instance, with the channel on which its outcome is
/// awaited. `reply` is `None` where nobody waits.
#[derive(Debug)]
pub enum BmcCommand {
    SetSystemPower { request: SystemPowerControl, reply: Option<Sender<SetSystemPowerResult>> },
}

/// Why a power command failed.
#[derive(Debug)]
pub enum SetSystemPowerError {
    /// The instance refused the request.
    BadRequest(String),
    /// The command did not reach the instance, or its outcome did not come
    /// back.
    CommandSendError(String),
}

/// The mathematical value of a power command's failure.
pub enum SetSystemPowerErrorModel {
    BadRequest(Seq<char>),
    CommandSendError(Seq<char>),
}

impl View for SetSystemPowerError {
    type V = SetSystemPowerErrorModel;

    open spec fn view(&self) -> SetSystemPowerErrorModel {
        match self {
            SetSystemPowerError::BadRequest(reason) => SetSystemPowerErrorModel::BadRequest(
                reason@,
            ),
            SetSystemPowerError::CommandSendError(reason) =>
                SetSystemPowerErrorModel::CommandSendError(reason@),
        }
    }
}

impl SetSystemPowerErrorModel {
    /// The text that describes a failure.
    pub open spec fn message(self) -> Seq<char> {
        match self {
            SetSystemPowerErrorModel::BadRequest(reason) =>
                "Mock BMC reported bad request when setting system power: "@ + reason,
            SetSystemPowerErrorModel::CommandSendError(reason) =>
                "Mock BMC failed to send power command: "@ + reason,
        }
    }
}

impl SetSystemPowerError {
    /// The text that describes this failure.
    pub fn message(&self) -> (text: String)
        ensures
            text@ == self@.message(),
    {
        match self {
            SetSystemPowerError::BadRequest(reason) => joined(
                "Mock BMC reported bad request when setting system power: ",
                reason.as_str(),
            ),
            SetSystemPowerError::CommandSendError(reason) => joined(
                "Mock BMC failed to send power command: ",
                reason.as_str(),
            ),
        }
    }
}

/// The outcome of a power command, as far as contracts speak of it.
pub open spec fn outcome_model(outcome: SetSystemPowerResult) -> Result<
    (),
    SetSystemPowerErrorModel,
> {
    match outcome {
        Ok(()) => Ok(()),
        Err(e) => Err(e@),
    }
}

/// The reason given to a caller whose reply channel was closed before any
/// outcome was sent.
pub open spec fn reply_dropped_reason() -> Seq<char> {
    "reply channel closed before the command completed"@
}

/// What the caller of a power command observes. `received` is what came out
/// of the reply channel: the outcome that was sent, or `None` where the
/// channel was closed without one. A closed channel counts as a failure to
/// send, so the caller always gets an answer.
pub fn observe_reply(received: Option<SetSystemPowerResult>) -> (outcome: SetSystemPowerResult)
    ensures
        outcome_model(outcome) == match received {
            Some(sent) => outcome_model(sent),
            None => Err(SetSystemPowerErrorModel::CommandSendError(reply_dropped_reason())),
        },
{
    match received {
        Some(sent) => sent,
        None => Err(
            SetSystemPowerError::CommandSendError(
                "reply channel closed before the command completed".to_owned(),
            ),
        ),
    }
}

/// What became of the outcome of a command.
#[derive(Debug, Clone, Copy, PartialEq, Eq, Structural)]
pub enum Delivery {
    /// Nobody was waiting: the command carried no reply channel.
    NoOneWaiting,
    /// The outcome was handed to the reply channel.
    Delivered,
    /// The caller had given up before the outcome was there.
    ReceiverGone,
}

/// What became of an outcome that was handed to a reply channel. `sent` is
/// what the channel said: it took the outcome, or it gave it back because
/// the caller had given up.
pub fn delivery(sent: Result<(), SetSystemPowerResult>) -> (delivery: Delivery)
    ensures
        delivery == match sent {
            Ok(()) => Delivery::Delivered,
            Err(_) => Delivery::ReceiverGone,
        },
{
    match sent {
        Ok(()) => Delivery::Delivered,
        Err(_) => Delivery::ReceiverGone,
    }
}

/// Calls `tokio::sync::oneshot::Sender::send`. Claimed: an outcome that
/// could not be sent comes back as it was given.
#[verifier::external_body]
fn send_reply(sender: Sender<SetSystemPowerResult>, outcome: SetSystemPowerResult) -> (res: Result<
    (),
    SetSystemPowerResult,
>)
    ensures
        res matches Err(back) ==> back == outcome,
{
    sender.send(outcome)
}

impl BmcCommand {
    /// The request that the command carries.
    pub fn request(&self) -> (request: SystemPowerControl)
        ensures
            self matches BmcCommand::SetSystemPower { request: r, .. } && request == r,
    {
        match self {
            BmcCommand::SetSystemPower { request, .. } => *request,
        }
    }

    /// Whether somebody waits for the outcome.
    pub open spec fn awaited(self) -> bool {
        self matches BmcCommand::SetSystemPower { reply: Some(_), .. }
    }

    /// Ends the command with its outcome. The command is used up, so a
    /// command is answered at most once; where it carries a reply channel
    /// the outcome is sent on it, and where it carries none nothing is
    /// sent.
    pub fn complete(self, outcome: SetSystemPowerResult) -> (delivery: Delivery)
        ensures
            delivery is NoOneWaiting <==> !self.awaited(),
    {
        match self {
            BmcCommand::SetSystemPower { request: _, reply } => match reply {
                None => Delivery::NoOneWaiting,
                Some(sender) => delivery(send_reply(sender, outcome)),
            },
        }
    }
}

/// What one instance is configured with. `P` is the handle through which
/// the power of a system is controlled.
pub struct MachineConfig<P> {
    pub manager: Config,
    pub system: SystemConfig<P>,
    pub chassis: ChassisConfig,
    pub update_service: UpdateServiceConfig,
    /// The names of the faults that tests may inject.
    pub fault_names: Vec<String>,
}

/// One instance, ready to serve: its routing table and its state.
pub struct MachineRouter<P> {
    pub router: Router,
    pub state: BmcState<P>,
}

/// Why an instance could not be built.
#[derive(Debug, Clone, Copy, PartialEq, Eq, Structural)]
pub enum BuildError {
    /// The vendor state belongs to another vendor than the instance.
    VendorMismatch { vendor: BmcVendor, state_vendor: BmcVendor },
}

/// The routes of the injected faults.
pub open spec fn injected_bugs_routes() -> Seq<RouteModel> {
    seq![
        RouteModel { method: Method::Get, path: "/InjectedBugs"@, handler: Handler::GetInjectedBugs },
        RouteModel {
            method: Method::Post,
            path: "/InjectedBugs"@,
            handler: Handler::PostInjectedBugs,
        },
    ]
}

/// The routes that every instance has: the injected faults, the service
/// root, and each family of resources.
pub open spec fn common_routes() -> Seq<RouteModel> {
    injected_bugs_routes() + crate::redfish::service_root::routes()
        + crate::redfish::chassis::routes() + crate::redfish::manager::routes()
        + crate::redfish::update_service::routes() + crate::redfish::task_service::routes()
        + crate::redfish::account_service::routes() + crate::redfish::computer_system::routes()
}

/// The routes that only the instances of one vendor have.
pub open spec fn vendor_routes(vendor: BmcVendor) -> Seq<RouteModel> {
    match vendor {
        BmcVendor::Nvidia => crate::redfish::oem::nvidia::bluefield::routes(),
        BmcVendor::Dell => crate::redfish::oem::dell::idrac::routes(),
    }
}

/// The whole routing table of an instance of the given vendor.
pub open spec fn machine_routes(vendor: BmcVendor) -> Seq<RouteModel> {
    common_routes() + vendor_routes(vendor)
}

/// Builds one instance: the routing table for its vendor, and its state,
/// derived from the configuration.
///
/// The vendor state must be that of the instance's vendor. Where it is not,
/// nothing is built: an instance is never brought up with routes that its
/// state cannot serve.
pub fn machine_router<P>(config: MachineConfig<P>, bmc_vendor: BmcVendor, oem_state: State) -> (res:
    Result<MachineRouter<P>, BuildError>)
    ensures
        match res {
            Ok(machine) => {
                &&& BmcVendor::spec_of(oem_state@) == bmc_vendor
                &&& machine.router@ == machine_routes(bmc_vendor)
                &&& machine.state.bmc_vendor == bmc_vendor
                &&& machine.state.oem_state == oem_state
                &&& machine.state.manager@ == ManagerState::initial(config.manager)
                &&& machine.state.system_state@ == SystemState::<P>::initial(config.system)
                &&& machine.state.chassis_state@ == ChassisState::initial(config.chassis)
                &&& machine.state.update_service_state@ == UpdateServiceState::initial(
                    config.update_service,
                )
                &&& machine.state.injected_bugs.known() == name_set(config.fault_names@)
                &&& machine.state.injected_bugs.active() == Map::<Seq<char>, JsonModel>::empty()
            },
            Err(e) => BmcVendor::spec_of(oem_state@) != bmc_vendor && e
                == (BuildError::VendorMismatch {
                vendor: bmc_vendor,
                state_vendor: BmcVendor::spec_of(oem_state@),
            }),
        },
{
    let router = Router::new().route(Method::Get, "/InjectedBugs", Handler::GetInjectedBugs).route(
        Method::Post,
        "/InjectedBugs",
        Handler::PostInjectedBugs,
    );
    assert(router@ =~= injected_bugs_routes());
    let router = crate::redfish::service_root::add_routes(router);
    let router = crate::redfish::chassis::add_routes(router);
    let router = crate::redfish::manager::add_routes(router);
    let router = crate::redfish::update_service::add_routes(router);
    let router = crate::redfish::task_service::add_routes(router);
    let router = crate::redfish::account_service::add_routes(router);
    let router = crate::redfish::computer_system::add_routes(router);
    assert(router@ =~= common_routes());
    let router = match bmc_vendor {
        BmcVendor::Nvidia => crate::redfish::oem::nvidia::bluefield::add_routes(router, &oem_state),
        BmcVendor::Dell => crate::redfish::oem::dell::idrac::add_routes(router, &oem_state),
    };
    let router = match router {
        Ok(router) => router,
        Err(e) => {
            return Err(e);
        },
    };
    assert(router@ =~= machine_routes(bmc_vendor));
    let state = BmcState::new(
        bmc_vendor,
        oem_state,
        config.manager,
        config.system,
        config.chassis,
        config.update_service,
        InjectedBugs::new(config.fault_names),
    );
    Ok(MachineRouter { router, state })
}

/// Whether two states differ at most in their injected faults.
pub open spec fn same_but_faults<P>(a: BmcState<P>, b: BmcState<P>) -> bool {
    &&& a.bmc_vendor == b.bmc_vendor
    &&& a.oem_state == b.oem_state
    &&& a.manager == b.manager
    &&& a.system_state == b.system_state
    &&& a.chassis_state == b.chassis_state
    &&& a.update_service_state == b.update_service_state
}

/// Whether two states differ at most in their vendor state.
pub open spec fn same_but_vendor_state<P>(a: BmcState<P>, b: BmcState<P>) -> bool {
    &&& a.bmc_vendor == b.bmc_vendor
    &&& a.manager == b.manager
    &&& a.system_state == b.system_state
    &&& a.chassis_state == b.chassis_state
    &&& a.update_service_state == b.update_service_state
    &&& a.injected_bugs == b.injected_bugs
}

/// Whether two states differ at most in their chassis.
pub open spec fn same_but_chassis<P>(a: BmcState<P>, b: BmcState<P>) -> bool {
    &&& a.bmc_vendor == b.bmc_vendor
    &&& a.oem_state == b.oem_state
    &&& a.manager == b.manager
    &&& a.system_state == b.system_state
    &&& a.update_service_state == b.update_service_state
    &&& a.injected_bugs == b.injected_bugs
}

/// Whether two states differ at most in their manager.
pub open spec fn same_but_manager<P>(a: BmcState<P>, b: BmcState<P>) -> bool {
    &&& a.bmc_vendor == b.bmc_vendor
    &&& a.oem_state == b.oem_state
    &&& a.system_state == b.system_state
    &&& a.chassis_state == b.chassis_state
    &&& a.update_service_state == b.update_service_state
    &&& a.injected_bugs == b.injected_bugs
}

/// Whether two states differ at most in their systems.
pub open spec fn same_but_systems<P>(a: BmcState<P>, b: BmcState<P>) -> bool {
    &&& a.bmc_vendor == b.bmc_vendor
    &&& a.oem_state == b.oem_state
    &&& a.manager == b.manager
    &&& a.chassis_state == b.chassis_state
    &&& a.update_service_state == b.update_service_state
    &&& a.injected_bugs == b.injected_bugs
}

/// The path parameter of a request, or the empty text where its route has
/// none.
pub open spec fn param_text(param: Option<&str>) -> Seq<char> {
    match param {
        Some(text) => text@,
        None => Seq::empty(),
    }
}

/// The path parameter of a request, or the empty text where its route has
/// none.
fn param_str<'a>(param: Option<&'a str>) -> (text: &'a str)
    ensures
        text@ == param_text(param),
{
    match param {
        Some(text) => text,
        None => {
            proof {
                reveal_strlit("");
                assert(""@ =~= Seq::<char>::empty());
            }
            ""
        },
    }
}

/// Runs one handler on the state of its instance.
///
/// `param` is the segment of the request's path that stands in the place of
/// the route's parameter, and `body` the request's body as a JSON document,
/// `None` where the body is not JSON.
///
/// A handler reads or changes only its own part of the state: the fault
/// store for the injected faults, the vendor state for the vendor's
/// resources. A handler of another vendor's resource answers "not found".
pub fn handle<P>(
    handler: Handler,
    state: &mut BmcState<P>,
    param: Option<&str>,
    body: Option<JsonValue>,
) -> (response: Response)
    ensures
        match handler {
            Handler::GetInjectedBugs => *final(state) == *old(state) && response@
                == injected_bugs_response(old(state).injected_bugs.active()),
            Handler::PostInjectedBugs => {
                &&& same_but_faults(*final(state), *old(state))
                &&& final(state).injected_bugs.known() == old(state).injected_bugs.known()
                &&& posted(
                    old(state).injected_bugs.known(),
                    old(state).injected_bugs.active(),
                    body_model(body),
                    final(state).injected_bugs.active(),
                    response@,
                )
            },
            Handler::GetServiceRoot => *final(state) == *old(state) && response@
                == (ResponseModel { status: 200, body: JsonModel::Object(service_root_document()) }),
            Handler::GetChassisCollection => *final(state) == *old(state) && response@
                == (ResponseModel {
                status: 200,
                body: JsonModel::Object(
                    collection_document(
                        chassis::spec_collection_resource(),
                        entry_ids(chassis::spec_entries(old(state).chassis_state@.config@)),
                    ),
                ),
            }),
            Handler::GetChassis => *final(state) == *old(state) && response@ == member_response(
                find_document(
                    chassis::spec_entries(old(state).chassis_state@.config@),
                    param_text(param),
                ),
                old(state).chassis_state@.overrides,
                param_text(param),
            ),
            Handler::PatchChassis => {
                &&& same_but_chassis(*final(state), *old(state))
                &&& final(state).chassis_state@.config == old(state).chassis_state@.config
                &&& final(state).chassis_state@.overrides == overrides_after_patch(
                    find_document(
                        chassis::spec_entries(old(state).chassis_state@.config@),
                        param_text(param),
                    ),
                    old(state).chassis_state@.overrides,
                    param_text(param),
                    opt_value(body),
                )
                &&& response@ == patch_response(
                    find_document(
                        chassis::spec_entries(old(state).chassis_state@.config@),
                        param_text(param),
                    ),
                    old(state).chassis_state@.overrides,
                    param_text(param),
                    opt_value(body),
                )
            },
            Handler::GetManagerCollection => *final(state) == *old(state) && response@
                == (ResponseModel {
                status: 200,
                body: JsonModel::Object(
                    collection_document(
                        manager::spec_collection_resource(),
                        entry_ids(manager::spec_entries(old(state).manager@.config@)),
                    ),
                ),
            }),
            Handler::GetManager => *final(state) == *old(state) && response@ == member_response(
                find_document(
                    manager::spec_entries(old(state).manager@.config@),
                    param_text(param),
                ),
                old(state).manager@.overrides,
                param_text(param),
            ),
            Handler::PatchManager => {
                &&& same_but_manager(*final(state), *old(state))
                &&& final(state).manager@.config == old(state).manager@.config
                &&& final(state).manager@.overrides == overrides_after_patch(
                    find_document(
                        manager::spec_entries(old(state).manager@.config@),
                        param_text(param),
                    ),
                    old(state).manager@.overrides,
                    param_text(param),
                    opt_value(body),
                )
                &&& response@ == patch_response(
                    find_document(
                        manager::spec_entries(old(state).manager@.config@),
                        param_text(param),
                    ),
                    old(state).manager@.overrides,
                    param_text(param),
                    opt_value(body),
                )
            },
            Handler::GetSystemCollection => *final(state) == *old(state) && response@
                == (ResponseModel {
                status: 200,
                body: JsonModel::Object(
                    collection_document(
                        computer_system::spec_collection_resource(),
                        entry_ids(computer_system::spec_entries(old(state).system_state@.config@)),
                    ),
                ),
            }),
            Handler::GetSystem => *final(state) == *old(state) && response@ == member_response(
                find_document(
                    computer_system::spec_entries(old(state).system_state@.config@),
                    param_text(param),
                ),
                old(state).system_state@.overrides,
                param_text(param),
            ),
            Handler::PatchSystem => {
                &&& same_but_systems(*final(state), *old(state))
                &&& final(state).system_state@.config == old(state).system_state@.config
                &&& final(state).system_state@.overrides == overrides_after_patch(
                    find_document(
                        computer_system::spec_entries(old(state).system_state@.config@),
                        param_text(param),
                    ),
                    old(state).system_state@.overrides,
                    param_text(param),
                    opt_value(body),
                )
                &&& response@ == patch_response(
                    find_document(
                        computer_system::spec_entries(old(state).system_state@.config@),
                        param_text(param),
                    ),
                    old(state).system_state@.overrides,
                    param_text(param),
                    opt_value(body),
                )
            },
            Handler::GetUpdateService => *final(state) == *old(state) && response@
                == member_response(
                Some(update_service_document(old(state).update_service_state@.config@)),
                old(state).update_service_state@.overrides,
                "UpdateService"@,
            ),
            Handler::SimpleUpdate => *final(state) == *old(state) && response@ == (ResponseModel {
                status: 200,
                body: JsonModel::Object(task_identity()),
            }),
            Handler::GetAccountCollection => *final(state) == *old(state) && response@
                == (ResponseModel {
                status: 200,
                body: JsonModel::Object(
                    collection_document(
                        account_service::spec_collection_resource(),
                        Seq::empty(),
                    ),
                ),
            }),
            Handler::GetAccount => *final(state) == *old(state) && response@ == (ResponseModel {
                status: 404,
                body: JsonModel::String(Seq::empty()),
            }),
            Handler::GetTask => *final(state) == *old(state) && response@ == (ResponseModel {
                status: 200,
                body: JsonModel::Object(completed_task()),
            }),
            Handler::GetOemNvidia => *final(state) == *old(state) && response@
                == oem_nvidia_response(old(state).oem_state@),
            Handler::HostRshimSet | Handler::PatchManagersOemNvidia => *final(state) == *old(state)
                && response@ == (ResponseModel {
                status: 200,
                body: JsonModel::Object(Map::<Seq<char>, JsonModel>::empty()),
            }),
            Handler::GetDellJob => *final(state) == *old(state) && response@ == job_response(
                old(state).oem_state@,
                param_text(param),
            ),
            Handler::CreateDellBiosJob => {
                &&& same_but_vendor_state(*final(state), *old(state))
                &&& final(state).oem_state@ == with_bios_job_scheduled(old(state).oem_state@)
                &&& response@ == create_job_response(old(state).oem_state@)
            },
        },
{
    match handler {
        Handler::GetInjectedBugs => get_injected_bugs(&state.injected_bugs),
        Handler::PostInjectedBugs => post_injected_bugs(&mut state.injected_bugs, body),
        Handler::GetServiceRoot => crate::redfish::service_root::get(),
        Handler::GetChassisCollection => chassis::get_collection(&state.chassis_state),
        Handler::GetChassis => chassis::get(&state.chassis_state, param_str(param)),
        Handler::PatchChassis => chassis::patch(&mut state.chassis_state, param_str(param), body),
        Handler::GetManagerCollection => manager::get_collection(&state.manager),
        Handler::GetManager => manager::get(&state.manager, param_str(param)),
        Handler::PatchManager => manager::patch(&mut state.manager, param_str(param), body),
        Handler::GetSystemCollection => computer_system::get_collection(&state.system_state),
        Handler::GetSystem => computer_system::get(&state.system_state, param_str(param)),
        Handler::PatchSystem => computer_system::patch(
            &mut state.system_state,
            param_str(param),
            body,
        ),
        Handler::GetUpdateService => crate::redfish::update_service::get(
            &state.update_service_state,
        ),
        Handler::SimpleUpdate => crate::redfish::update_service::simple_update(),
        Handler::GetAccountCollection => account_service::get_collection(),
        Handler::GetAccount => account_service::get(),
        Handler::GetTask => get_task(),
        Handler::GetOemNvidia => get_oem_nvidia(&state.oem_state),
        Handler::HostRshimSet => hostrshim_set(),
        Handler::PatchManagersOemNvidia => patch_managers_oem_nvidia(),
        Handler::GetDellJob => get_job(&state.oem_state, param_str(param)),
        Handler::CreateDellBiosJob => create_bios_job(&mut state.oem_state),
    }
}

/// Whether a handler answers for a resource that only a BlueField has.
pub open spec fn is_bluefield_handler(handler: Handler) -> bool {
    handler == Handler::GetOemNvidia || handler == Handler::HostRshimSet || handler
        == Handler::PatchManagersOemNvidia
}

/// Whether a handler answers for a resource that only an iDRAC has.
pub open spec fn is_idrac_handler(handler: Handler) -> bool {
    handler == Handler::GetDellJob || handler == Handler::CreateDellBiosJob
}

/// The routing table of an instance leads to the handlers of its own vendor
/// only: no route of a host leads to a handler of the BlueField, and no
/// route of a DPU to a handler of the iDRAC.
pub proof fn lemma_vendor_routes_are_apart(vendor: BmcVendor, i: int)
    requires
        0 <= i < machine_routes(vendor).len(),
    ensures
        vendor == BmcVendor::Dell ==> !is_bluefield_handler(machine_routes(vendor)[i].handler),
        vendor == BmcVendor::Nvidia ==> !is_idrac_handler(machine_routes(vendor)[i].handler),
{
    let common = common_routes();
    if i < common.len() {
        assert(machine_routes(vendor)[i] == common[i]);
        assert(!is_bluefield_handler(common[i].handler) && !is_idrac_handler(common[i].handler));
    } else {
        assert(machine_routes(vendor)[i] == vendor_routes(vendor)[i - common.len()]);
    }
}

} // verus!
