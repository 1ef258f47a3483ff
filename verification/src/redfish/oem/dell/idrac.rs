//! Dell iDRAC: BIOS settings take effect through jobs, which the mock
//! tracks.

use vstd::prelude::*;
use crate::bmc_state::JobState;
use crate::http::Response;
use crate::http::ResponseModel;
use crate::http::not_found;
use crate::json::JsonModel;
use crate::json::JsonObject;
use crate::json::JsonValue;
use crate::mock_machine_router::BuildError;
use crate::redfish::oem::BmcVendor;
use crate::redfish::oem::State;
use crate::redfish::oem::StateModel;
use crate::router::Handler;
use crate::router::Method;
use crate::router::RouteModel;
use crate::router::Router;
use crate::text::decimal;
use crate::text::decimal_digits;
use crate::text::decimal_value;
use crate::text::is_number;
use crate::text::joined;
use crate::text::parse_decimal;

verus! {

/// The BIOS jobs of an iDRAC instance, in the order in which they were
/// scheduled. A job is known by its place in that order.
pub struct IdracState {
    bios_jobs: Vec<JobState>,
}

impl View for IdracState {
    type V = Seq<JobState>;

    closed spec fn view(&self) -> Seq<JobState> {
        self.bios_jobs@
    }
}

impl IdracState {
    /// An instance without jobs.
    pub fn new() -> (state: IdracState)
        ensures
            state@ == Seq::<JobState>::empty(),
    {
        IdracState { bios_jobs: Vec::new() }
    }

    /// How many jobs have been scheduled.
    pub fn job_count(&self) -> (count: usize)
        ensures
            count == self@.len(),
    {
        self.bios_jobs.len()
    }

    /// Schedules a BIOS job and returns the number it is known by. The jobs
    /// scheduled before keep their numbers and their states.
    pub fn schedule_bios_job(&mut self) -> (job: usize)
        ensures
            job == old(self)@.len(),
            final(self)@ == old(self)@.push(JobState::Scheduled),
    {
        let job: usize = self.bios_jobs.len();
        self.bios_jobs.push(JobState::Scheduled);
        job
    }

    /// The state of a job, or `None` where no job has that number.
    pub fn job_state(&self, job: usize) -> (state: Option<JobState>)
        ensures
            state == if job < self@.len() {
                Some(self@[job as int])
            } else {
                None
            },
    {
        if job < self.bios_jobs.len() {
            Some(self.bios_jobs[job])
        } else {
            None
        }
    }

    /// Completes every job. No job is lost, and none falls back.
    pub fn complete_all_bios_jobs(&mut self)
        ensures
            final(self)@ == Seq::new(old(self)@.len(), |i: int| JobState::Completed),
    {
        let n: usize = self.bios_jobs.len();
        let mut i: usize = 0;
        while i < n
            invariant
                i <= n,
                self.bios_jobs@.len() == n,
                n == old(self)@.len(),
                forall|j: int| 0 <= j < i ==> self.bios_jobs@[j] == JobState::Completed,
            decreases n - i,
        {
            self.bios_jobs[i] = JobState::Completed;
            i += 1;
        }
        assert(self.bios_jobs@ =~= Seq::new(n as nat, |i: int| JobState::Completed));
    }
}

/// Whatever is done to the jobs of an instance, a job that a client has seen
/// never falls back: scheduling another job and completing all of them leave
/// each earlier job in the state it had or in a later one.
pub proof fn lemma_bios_jobs_never_regress(jobs: Seq<JobState>, job: int)
    requires
        0 <= job < jobs.len(),
    ensures
        jobs.push(JobState::Scheduled)[job].rank() >= jobs[job].rank(),
        Seq::new(jobs.len(), |i: int| JobState::Completed)[job].rank() >= jobs[job].rank(),
{
}

/// The routes that only an iDRAC has.
pub open spec fn routes() -> Seq<RouteModel> {
    seq![
        RouteModel {
            method: Method::Get,
            path: "/redfish/v1/Managers/iDRAC.Embedded.1/Oem/Dell/Jobs/{job_id}"@,
            handler: Handler::GetDellJob,
        },
        RouteModel {
            method: Method::Post,
            path: "/redfish/v1/Managers/iDRAC.Embedded.1/Oem/Dell/Jobs"@,
            handler: Handler::CreateDellBiosJob,
        },
    ]
}

/// Registers the routes that only an iDRAC has. They are refused for an
/// instance whose vendor state is not that of an iDRAC.
pub fn add_routes(r: Router, oem_state: &State) -> (res: Result<Router, BuildError>)
    ensures
        match res {
            Ok(router) => oem_state@ is DellIdrac && router@ == r@ + routes(),
            Err(e) => !(oem_state@ is DellIdrac) && e == (BuildError::VendorMismatch {
                vendor: BmcVendor::Dell,
                state_vendor: BmcVendor::spec_of(oem_state@),
            }),
        },
{
    match oem_state {
        State::DellIdrac(_) => {
            let router = r.route(
                Method::Get,
                "/redfish/v1/Managers/iDRAC.Embedded.1/Oem/Dell/Jobs/{job_id}",
                Handler::GetDellJob,
            ).route(
                Method::Post,
                "/redfish/v1/Managers/iDRAC.Embedded.1/Oem/Dell/Jobs",
                Handler::CreateDellBiosJob,
            );
            assert(router@ =~= r@ + routes());
            Ok(router)
        },
        _ => Err(
            BuildError::VendorMismatch {
                vendor: BmcVendor::Dell,
                state_vendor: BmcVendor::of(oem_state),
            },
        ),
    }
}

/// How a job's state is written in its document.
pub open spec fn job_state_name(state: JobState) -> Seq<char> {
    match state {
        JobState::Scheduled => "Scheduled"@,
        JobState::Completed => "Completed"@,
    }
}

/// How much of a job is done, in percent.
pub open spec fn job_percent(state: JobState) -> int {
    match state {
        JobState::Scheduled => 0,
        JobState::Completed => 100,
    }
}

/// The document of a job.
pub open spec fn job_document(job: nat, state: JobState) -> Map<Seq<char>, JsonModel> {
    Map::<Seq<char>, JsonModel>::empty().insert(
        "@odata.id"@,
        JsonModel::String(
            "/redfish/v1/Managers/iDRAC.Embedded.1/Oem/Dell/Jobs/"@ + decimal_digits(job),
        ),
    ).insert("@odata.type"@, JsonModel::String("#DellJob.v1_0_0.DellJob"@)).insert(
        "Id"@,
        JsonModel::String(decimal_digits(job)),
    ).insert("JobState"@, JsonModel::String(job_state_name(state))).insert(
        "PercentComplete"@,
        JsonModel::Number(job_percent(state)),
    )
}

/// The answer to a request for a job: its document where the instance is an
/// iDRAC and has a job of that number, "not found" otherwise.
pub open spec fn job_response(state: StateModel, job_id: Seq<char>) -> ResponseModel {
    match state {
        StateModel::DellIdrac { bios_jobs } if is_number(job_id) && decimal_value(job_id)
            < bios_jobs.len() => ResponseModel {
            status: 200,
            body: JsonModel::Object(
                job_document(decimal_value(job_id), bios_jobs[decimal_value(job_id) as int]),
            ),
        },
        _ => ResponseModel { status: 404, body: JsonModel::String(Seq::empty()) },
    }
}

/// The vendor state after a request for a new BIOS job: one more job on an
/// iDRAC, no change on anything else.
pub open spec fn with_bios_job_scheduled(state: StateModel) -> StateModel {
    match state {
        StateModel::DellIdrac { bios_jobs } => StateModel::DellIdrac {
            bios_jobs: bios_jobs.push(JobState::Scheduled),
        },
        _ => state,
    }
}

/// The answer to a request for a new BIOS job: the document of the new job
/// on an iDRAC, "not found" on anything else.
pub open spec fn create_job_response(state: StateModel) -> ResponseModel {
    match state {
        StateModel::DellIdrac { bios_jobs } => ResponseModel {
            status: 200,
            body: JsonModel::Object(job_document(bios_jobs.len(), JobState::Scheduled)),
        },
        _ => ResponseModel { status: 404, body: JsonModel::String(Seq::empty()) },
    }
}

/// Writes the document of a job.
fn job_json(job: usize, state: JobState) -> (document: JsonObject)
    ensures
        document@ == job_document(job as nat, state),
{
    let number = decimal(job);
    let address = joined("/redfish/v1/Managers/iDRAC.Embedded.1/Oem/Dell/Jobs/", number.as_str());
    let (name, percent): (&str, i64) = match state {
        JobState::Scheduled => ("Scheduled", 0i64),
        JobState::Completed => ("Completed", 100i64),
    };
    JsonObject::new().with("@odata.id", JsonValue::String(address)).with(
        "@odata.type",
        JsonValue::string("#DellJob.v1_0_0.DellJob"),
    ).with("Id", JsonValue::String(number)).with("JobState", JsonValue::string(name)).with(
        "PercentComplete",
        JsonValue::Number(percent),
    )
}

/// Answers `GET .../Oem/Dell/Jobs/{job_id}`.
pub fn get_job(oem_state: &State, job_id: &str) -> (response: Response)
    ensures
        response@ == job_response(oem_state@, job_id@),
{
    let idrac = match oem_state {
        State::DellIdrac(idrac) => idrac,
        _ => {
            return not_found();
        },
    };
    let count: usize = idrac.job_count();
    let job = match parse_decimal(job_id) {
        Some(job) if job < count => job,
        _ => {
            return not_found();
        },
    };
    match idrac.job_state(job) {
        Some(state) => JsonValue::Object(job_json(job, state)).into_ok_response(),
        None => not_found(),
    }
}

/// Answers `POST .../Oem/Dell/Jobs`: schedules a BIOS job.
pub fn create_bios_job(oem_state: &mut State) -> (response: Response)
    ensures
        final(oem_state)@ == with_bios_job_scheduled(old(oem_state)@),
        response@ == create_job_response(old(oem_state)@),
{
    match oem_state {
        State::DellIdrac(idrac) => {
            let job = idrac.schedule_bios_job();
            JsonValue::Object(job_json(job, JobState::Scheduled)).into_ok_response()
        },
        _ => not_found(),
    }
}

} // verus!
