//! NVIDIA BlueField: the resources that only a DPU's controller has.

use vstd::prelude::*;
use crate::http::Response;
use crate::http::ResponseModel;
use crate::http::acknowledged;
use crate::http::not_found;
use crate::json::JsonModel;
use crate::json::JsonObject;
use crate::json::JsonValue;
use crate::json::PatchModel;
use crate::json::str_set;
use crate::mock_machine_router::BuildError;
use crate::redfish::Resource;
use crate::redfish::ResourceModel;
use crate::redfish::oem::BmcVendor;
use crate::redfish::oem::State;
use crate::redfish::oem::StateModel;
use crate::router::Handler;
use crate::router::Method;
use crate::router::RouteModel;
use crate::router::Router;

verus! {

/// What the mock keeps of a BlueField: whether the card runs as a plain NIC
/// or as a DPU.
#[derive(Debug, Clone, Copy)]
pub struct BluefieldState {
    nic_mode: bool,
}

impl BluefieldState {
    /// Whether the card runs as a plain NIC.
    pub closed spec fn nic_mode(&self) -> bool {
        self.nic_mode
    }

    /// The state of a card in the given mode.
    pub fn new(nic_mode: bool) -> (state: Self)
        ensures
            state.nic_mode() == nic_mode,
    {
        Self { nic_mode }
    }

    /// Whether the card runs as a plain NIC.
    pub fn is_nic_mode(&self) -> (nic_mode: bool)
        ensures
            nic_mode == self.nic_mode(),
    {
        self.nic_mode
    }
}

/// The identity of the vendor extension of the system resource.
pub open spec fn spec_resource() -> ResourceModel {
    ResourceModel {
        odata_id: "/redfish/v1/Systems/Bluefield/Oem/Nvidia"@,
        odata_type: "#NvidiaComputerSystem.v1_0_0.NvidiaComputerSystem"@,
        id: ""@,
        name: ""@,
    }
}

/// The identity of the vendor extension of the system resource. The cards
/// give it neither an `Id` nor a `Name`.
pub fn resource() -> (resource: Resource)
    ensures
        resource@ == spec_resource(),
{
    Resource {
        odata_id: "/redfish/v1/Systems/Bluefield/Oem/Nvidia".to_owned(),
        odata_type: "#NvidiaComputerSystem.v1_0_0.NvidiaComputerSystem".to_owned(),
        id: "".to_owned(),
        name: "".to_owned(),
    }
}

/// The routes that only a BlueField has.
pub open spec fn routes() -> Seq<RouteModel> {
    seq![
        RouteModel {
            method: Method::Get,
            path: "/redfish/v1/Systems/Bluefield/Oem/Nvidia"@,
            handler: Handler::GetOemNvidia,
        },
        RouteModel {
            method: Method::Post,
            path: "/redfish/v1/Systems/Bluefield/Oem/Nvidia/Actions/HostRshim.Set"@,
            handler: Handler::HostRshimSet,
        },
        RouteModel {
            method: Method::Patch,
            path: "/redfish/v1/Managers/Bluefield_BMC/Oem/Nvidia"@,
            handler: Handler::PatchManagersOemNvidia,
        },
    ]
}

/// Registers the routes that only a BlueField has. They are refused for an
/// instance whose vendor state is not that of a BlueField.
pub fn add_routes(r: Router, oem_state: &State) -> (res: Result<Router, BuildError>)
    ensures
        match res {
            Ok(router) => oem_state@ is NvidiaBluefield && router@ == r@ + routes(),
            Err(e) => !(oem_state@ is NvidiaBluefield) && e == (BuildError::VendorMismatch {
                vendor: BmcVendor::Nvidia,
                state_vendor: BmcVendor::spec_of(oem_state@),
            }),
        },
{
    match oem_state {
        State::NvidiaBluefield(_) => {
            let router = r.route(
                Method::Get,
                "/redfish/v1/Systems/Bluefield/Oem/Nvidia",
                Handler::GetOemNvidia,
            ).route(
                Method::Post,
                "/redfish/v1/Systems/Bluefield/Oem/Nvidia/Actions/HostRshim.Set",
                Handler::HostRshimSet,
            ).route(
                Method::Patch,
                "/redfish/v1/Managers/Bluefield_BMC/Oem/Nvidia",
                Handler::PatchManagersOemNvidia,
            );
            assert(router@ =~= r@ + routes());
            Ok(router)
        },
        _ => Err(
            BuildError::VendorMismatch {
                vendor: BmcVendor::Nvidia,
                state_vendor: BmcVendor::of(oem_state),
            },
        ),
    }
}

/// The name of the mode that the card runs in.
pub open spec fn mode_name(nic_mode: bool) -> Seq<char> {
    if nic_mode {
        "NicMode"@
    } else {
        "DpuMode"@
    }
}

/// The body of the vendor extension: the resource's identity with the mode
/// written over it, and then without `Id` and `Name`.
pub open spec fn oem_document(nic_mode: bool) -> Map<Seq<char>, JsonModel> {
    PatchModel::start(spec_resource().base_document()).with_patch(
        Map::<Seq<char>, JsonModel>::empty().insert("Mode"@, JsonModel::String(mode_name(nic_mode))),
    ).with_deleted(str_set(seq!["Id", "Name"])).document()
}

/// The answer to a request for the vendor extension of the system resource:
/// the extension on a BlueField, and "not found" on an instance of any other
/// vendor.
pub open spec fn oem_nvidia_response(state: StateModel) -> ResponseModel {
    match state {
        StateModel::NvidiaBluefield { nic_mode } => ResponseModel {
            status: 200,
            body: JsonModel::Object(oem_document(nic_mode)),
        },
        _ => ResponseModel { status: 404, body: JsonModel::String(Seq::empty()) },
    }
}

/// Answers `GET /redfish/v1/Systems/Bluefield/Oem/Nvidia`.
pub fn get_oem_nvidia(oem_state: &State) -> (response: Response)
    ensures
        response@ == oem_nvidia_response(oem_state@),
{
    let state = match oem_state {
        State::NvidiaBluefield(state) => state,
        _ => {
            return not_found();
        },
    };
    let mode = if state.is_nic_mode() {
        "NicMode"
    } else {
        "DpuMode"
    };
    let names = ["Id", "Name"];
    assert(names@ =~= seq!["Id", "Name"]);
    resource().json_patch().patch(
        JsonObject::new().with("Mode", JsonValue::string(mode)),
    ).delete_fields(&names).into_ok_response()
}

/// Answers `POST .../Actions/HostRshim.Set`: acknowledged, nothing changes.
pub fn hostrshim_set() -> (response: Response)
    ensures
        response@ == (ResponseModel {
            status: 200,
            body: JsonModel::Object(Map::<Seq<char>, JsonModel>::empty()),
        }),
{
    acknowledged()
}

/// Answers `PATCH /redfish/v1/Managers/Bluefield_BMC/Oem/Nvidia`, with which
/// clients switch on the RShim of the controller: acknowledged, nothing
/// changes.
pub fn patch_managers_oem_nvidia() -> (response: Response)
    ensures
        response@ == (ResponseModel {
            status: 200,
            body: JsonModel::Object(Map::<Seq<char>, JsonModel>::empty()),
        }),
{
    acknowledged()
}

/// The extension holds the resource's address, its type and the mode, and
/// nothing else.
pub proof fn lemma_oem_document_fields(nic_mode: bool)
    ensures
        oem_document(nic_mode) == Map::<Seq<char>, JsonModel>::empty().insert(
            "@odata.id"@,
            JsonModel::String("/redfish/v1/Systems/Bluefield/Oem/Nvidia"@),
        ).insert(
            "@odata.type"@,
            JsonModel::String("#NvidiaComputerSystem.v1_0_0.NvidiaComputerSystem"@),
        ).insert("Mode"@, JsonModel::String(mode_name(nic_mode))),
{
    reveal_strlit("@odata.id");
    reveal_strlit("@odata.type");
    reveal_strlit("Id");
    reveal_strlit("Name");
    reveal_strlit("Mode");
    let names: Seq<&str> = seq!["Id", "Name"];
    assert(names[0]@ == "Id"@);
    assert(names[1]@ == "Name"@);
    assert(str_set(names).contains("Id"@));
    assert(str_set(names).contains("Name"@));
    assert("@odata.id"@[0] == '@');
    assert("@odata.type"@[7] == 't');
    assert("@odata.id"@[7] == 'i');
    assert("Id"@[0] == 'I');
    assert("Name"@[0] == 'N');
    assert("Mode"@[0] == 'M');
    assert(!str_set(names).contains("@odata.id"@));
    assert(!str_set(names).contains("@odata.type"@));
    assert(!str_set(names).contains("Mode"@));
    let expected = Map::<Seq<char>, JsonModel>::empty().insert(
        "@odata.id"@,
        JsonModel::String("/redfish/v1/Systems/Bluefield/Oem/Nvidia"@),
    ).insert(
        "@odata.type"@,
        JsonModel::String("#NvidiaComputerSystem.v1_0_0.NvidiaComputerSystem"@),
    ).insert("Mode"@, JsonModel::String(mode_name(nic_mode)));
    assert(oem_document(nic_mode) =~= expected);
}

} // verus!
