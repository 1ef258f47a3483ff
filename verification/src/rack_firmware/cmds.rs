//! What the rack firmware commands make of the answers of the service: the
//! lines and tables that are printed, and the error that a command ends
//! with.
//!
//! Talking to the service and printing are done by the caller. Each function
//! here takes what came back and returns what is to be shown.

use vstd::prelude::*;
use vstd::string::StringExecFns;
use crate::json::JsonModel;
use crate::json::JsonObject;
use crate::json::JsonValue;
use crate::json::items_model;
use crate::json::lemma_items_index;
use crate::json::lemma_items_push;
use crate::json::value_field;
use crate::rack_firmware::args::Apply;
use crate::rack_firmware::args::Create;
use crate::text::decimal;
use crate::text::decimal_digits;
use crate::text::joined;
use crate::text::str_eq;
use crate::text::text_list;

verus! {

/// How a command shows its result.
#[derive(Debug, Clone, Copy, PartialEq, Eq, Structural)]
pub enum OutputFormat {
    Json,
    AsciiTable,
}

/// Why a command failed.
#[derive(Debug)]
pub enum CliError {
    /// The command itself found something wrong.
    GenericError(String),
    /// The service refused the request, with this message.
    ApiError(String),
}

/// The mathematical value of a command's failure.
pub enum CliErrorModel {
    GenericError(Seq<char>),
    ApiError(Seq<char>),
}

impl View for CliError {
    type V = CliErrorModel;

    open spec fn view(&self) -> CliErrorModel {
        match self {
            CliError::GenericError(text) => CliErrorModel::GenericError(text@),
            CliError::ApiError(text) => CliErrorModel::ApiError(text@),
        }
    }
}

/// How a call of the service failed.
#[derive(Debug)]
pub enum ApiFailure {
    /// The service does not know what was asked for.
    NotFound,
    /// Anything else, with the service's message.
    Other(String),
}

/// One piece of what a command prints.
#[derive(Debug)]
pub enum Block {
    /// A line of text.
    Line(String),
    /// A table with a title row. `indent` asks for two spaces before each
    /// line of the table.
    Table { titles: Vec<String>, rows: Vec<Vec<String>>, indent: bool },
    /// A document, printed as indented JSON.
    Json(JsonValue),
}

/// The mathematical value of a [`Block`].
pub enum BlockModel {
    Line(Seq<char>),
    Table { titles: Seq<Seq<char>>, rows: Seq<Seq<Seq<char>>>, indent: bool },
    Json(JsonModel),
}

/// The texts of the rows of a table.
pub open spec fn row_texts(rows: Seq<Vec<String>>) -> Seq<Seq<Seq<char>>> {
    rows.map_values(|r: Vec<String>| text_list(r@))
}

impl View for Block {
    type V = BlockModel;

    open spec fn view(&self) -> BlockModel {
        match self {
            Block::Line(text) => BlockModel::Line(text@),
            Block::Table { titles, rows, indent } => BlockModel::Table {
                titles: text_list(titles@),
                rows: row_texts(rows@),
                indent: *indent,
            },
            Block::Json(document) => BlockModel::Json(document@),
        }
    }
}

/// The values of a list of blocks.
pub open spec fn blocks(list: Seq<Block>) -> Seq<BlockModel> {
    list.map_values(|b: Block| b@)
}

/// One stored rack firmware configuration, as the service reports it.
#[derive(Debug)]
pub struct RackFirmware {
    pub id: String,
    pub available: bool,
    pub created: String,
    pub updated: String,
    pub parsed_components: String,
}

/// The job that updates one node of a device.
#[derive(Debug)]
pub struct NodeJob {
    pub node_id: String,
    pub job_id: String,
}

/// What became of the update of one device.
#[derive(Debug)]
pub struct DeviceResult {
    pub device_id: String,
    pub device_type: String,
    pub success: bool,
    pub message: String,
    pub job_id: String,
    pub node_jobs: Vec<NodeJob>,
}

/// What became of applying firmware to a rack.
#[derive(Debug)]
pub struct ApplyResponse {
    pub total_updates: u32,
    pub successful_updates: u32,
    pub failed_updates: u32,
    pub device_results: Vec<DeviceResult>,
}

/// The status of a firmware update job.
#[derive(Debug)]
pub struct JobStatus {
    pub job_id: String,
    pub state: String,
    pub state_description: String,
    pub rack_id: String,
    pub node_id: String,
    pub error_message: String,
    pub result_json: String,
}

/// How a truth value is written.
pub open spec fn bool_name(b: bool) -> Seq<char> {
    if b {
        "true"@
    } else {
        "false"@
    }
}

/// Writes a truth value.
pub fn bool_text(b: bool) -> (text: &'static str)
    ensures
        text@ == bool_name(b),
{
    if b {
        "true"
    } else {
        "false"
    }
}

/// A line of text as a block.
fn line(text: String) -> (block: Block)
    ensures
        block@ == BlockModel::Line(text@),
{
    Block::Line(text)
}

/// A line made of a label and a value.
fn labelled(label: &str, value: &str) -> (block: Block)
    ensures
        block@ == BlockModel::Line(label@ + value@),
{
    Block::Line(joined(label, value))
}

/// What `serde_json::from_str` finds wrong with a text that is to be a JSON
/// document, in the words of its error; `None` where the text is one.
pub uninterp spec fn json_syntax_error(text: Seq<char>) -> Option<Seq<char>>;

/// Calls `serde_json::from_str` to read a text as a JSON value, and keeps
/// the error's text. Claimed: the outcome is that of `json_syntax_error` on
/// the same text.
#[verifier::external_body]
fn json_error(text: &str) -> (error: Option<String>)
    ensures
        match error {
            Some(e) => json_syntax_error(text@) == Some(e@),
            None => json_syntax_error(text@) is None,
        },
{
    serde_json::from_str::<serde_json::Value>(text).err().map(|e| e.to_string())
}

/// The error of a command that could not read its file.
pub fn read_failure(path: &str, error: &str) -> (failure: CliError)
    ensures
        failure@ == CliErrorModel::GenericError(
            "Failed to read file "@ + path@ + ": "@ + error@,
        ),
{
    CliError::GenericError(joined("Failed to read file ", path).concat(": ").concat(error))
}

/// The error of a command that asked for a configuration which the service
/// does not have.
pub fn not_found_error(id: &str) -> (failure: CliError)
    ensures
        failure@ == CliErrorModel::GenericError("Rack firmware configuration not found: "@ + id@),
{
    CliError::GenericError(joined("Rack firmware configuration not found: ", id))
}

/// What a failed call of the service means for a command about the
/// configuration `id`: an unknown configuration is reported as such, any
/// other failure in the service's own words.
pub fn api_error(id: &str, failure: ApiFailure) -> (error: CliError)
    ensures
        error@ == match failure {
            ApiFailure::NotFound => CliErrorModel::GenericError(
                "Rack firmware configuration not found: "@ + id@,
            ),
            ApiFailure::Other(message) => CliErrorModel::ApiError(message@),
        },
{
    match failure {
        ApiFailure::NotFound => not_found_error(id),
        ApiFailure::Other(message) => CliError::ApiError(message),
    }
}

/// The verdict on a configuration file, given what the JSON reader found
/// wrong with it: nothing, or an error with the reader's words.
pub fn config_json_verdict(error: Option<String>) -> (verdict: Result<(), CliError>)
    ensures
        match error {
            None => verdict is Ok,
            Some(e) => verdict matches Err(failure) && failure@ == CliErrorModel::GenericError(
                "Invalid JSON in file: "@ + e@,
            ),
        },
{
    match error {
        None => Ok(()),
        Some(e) => Err(CliError::GenericError(joined("Invalid JSON in file: ", e.as_str()))),
    }
}

/// Checks that the contents of a configuration file are a JSON document.
pub fn check_config_json(config_json: &str) -> (verdict: Result<(), CliError>)
    ensures
        match json_syntax_error(config_json@) {
            None => verdict is Ok,
            Some(e) => verdict matches Err(failure) && failure@ == CliErrorModel::GenericError(
                "Invalid JSON in file: "@ + e,
            ),
        },
{
    config_json_verdict(json_error(config_json))
}

/// What is sent to the service to create a configuration.
#[derive(Debug)]
pub struct CreateRequest {
    pub config_json: String,
    pub artifactory_token: String,
}

/// Prepares the request to create a configuration. `contents` is what
/// reading the file gave: its text, or the words of the error.
///
/// A file that could not be read, or that holds no JSON document, ends the
/// command with an error; nothing is sent then.
pub fn create_request(opts: Create, contents: Result<String, String>) -> (request: Result<
    CreateRequest,
    CliError,
>)
    ensures
        match contents {
            Err(e) => request matches Err(failure) && failure@ == CliErrorModel::GenericError(
                "Failed to read file "@ + opts.json_file@ + ": "@ + e@,
            ),
            Ok(text) => match json_syntax_error(text@) {
                Some(e) => request matches Err(failure) && failure@
                    == CliErrorModel::GenericError("Invalid JSON in file: "@ + e),
                None => request matches Ok(r) && r.config_json == text && r.artifactory_token
                    == opts.artifactory_token,
            },
        },
{
    let config_json = match contents {
        Ok(text) => text,
        Err(e) => {
            return Err(read_failure(opts.json_file.as_str(), e.as_str()));
        },
    };
    match check_config_json(config_json.as_str()) {
        Ok(()) => Ok(CreateRequest { config_json, artifactory_token: opts.artifactory_token }),
        Err(failure) => Err(failure),
    }
}

/// A stored configuration as a document.
pub open spec fn firmware_document(
    id: Seq<char>,
    available: bool,
    created: Seq<char>,
    updated: Seq<char>,
    parsed_components: Seq<char>,
) -> JsonModel {
    JsonModel::Object(
        Map::<Seq<char>, JsonModel>::empty().insert("id"@, JsonModel::String(id)).insert(
            "available"@,
            JsonModel::Bool(available),
        ).insert("created"@, JsonModel::String(created)).insert(
            "updated"@,
            JsonModel::String(updated),
        ).insert("parsed_components"@, JsonModel::String(parsed_components)),
    )
}

impl RackFirmware {
    /// This configuration as a document.
    pub open spec fn document(self) -> JsonModel {
        firmware_document(
            self.id@,
            self.available,
            self.created@,
            self.updated@,
            self.parsed_components@,
        )
    }

    /// This configuration as a document.
    pub fn to_json(&self) -> (document: JsonValue)
        ensures
            document@ == self.document(),
    {
        JsonValue::Object(
            JsonObject::new().with("id", JsonValue::string(self.id.as_str())).with(
                "available",
                JsonValue::Bool(self.available),
            ).with("created", JsonValue::string(self.created.as_str())).with(
                "updated",
                JsonValue::string(self.updated.as_str()),
            ).with("parsed_components", JsonValue::string(self.parsed_components.as_str())),
        )
    }
}

/// What `create` prints for the configuration that was created.
pub open spec fn create_report(result: RackFirmware, format: OutputFormat) -> Seq<BlockModel> {
    if format == OutputFormat::Json {
        seq![BlockModel::Json(result.document())]
    } else {
        seq![
            BlockModel::Line("Created Rack firmware configuration:"@),
            BlockModel::Line("  ID: "@ + result.id@),
            BlockModel::Line("  Available: "@ + bool_name(result.available)),
            BlockModel::Line("  Created: "@ + result.created@),
        ]
    }
}

/// Reports the configuration that was created.
pub fn create(format: OutputFormat, result: &RackFirmware) -> (report: Vec<Block>)
    ensures
        blocks(report@) == create_report(*result, format),
{
    let mut report: Vec<Block> = Vec::new();
    match format {
        OutputFormat::Json => {
            report.push(Block::Json(result.to_json()));
        },
        _ => {
            report.push(line("Created Rack firmware configuration:".to_owned()));
            report.push(labelled("  ID: ", result.id.as_str()));
            report.push(labelled("  Available: ", bool_text(result.available)));
            report.push(labelled("  Created: ", result.created.as_str()));
        },
    }
    assert(blocks(report@) =~= create_report(*result, format));
    report
}

/// What `delete` prints, or the error it ends with.
pub fn delete(id: &str, outcome: Result<(), ApiFailure>) -> (report: Result<Vec<Block>, CliError>)
    ensures
        match outcome {
            Ok(()) => report matches Ok(shown) && blocks(shown@) == seq![
                BlockModel::Line("Deleted Rack firmware configuration: "@ + id@),
            ],
            Err(ApiFailure::NotFound) => report matches Err(failure) && failure@
                == CliErrorModel::GenericError("Rack firmware configuration not found: "@ + id@),
            Err(ApiFailure::Other(message)) => report matches Err(failure) && failure@
                == CliErrorModel::ApiError(message@),
        },
{
    match outcome {
        Ok(()) => {
            let mut shown: Vec<Block> = Vec::new();
            shown.push(labelled("Deleted Rack firmware configuration: ", id));
            assert(blocks(shown@) =~= seq![
                BlockModel::Line("Deleted Rack firmware configuration: "@ + id@),
            ]);
            Ok(shown)
        },
        Err(failure) => Err(api_error(id, failure)),
    }
}

/// A row of table cells.
fn row(cells: &[&str]) -> (row: Vec<String>)
    ensures
        text_list(row@) == cells@.map_values(|c: &str| c@),
{
    let mut row: Vec<String> = Vec::new();
    let mut i: usize = 0;
    while i < cells.len()
        invariant
            i <= cells.len(),
            row@.len() == i,
            forall|j: int| 0 <= j < i ==> (#[trigger] row@[j])@ == cells@[j]@,
        decreases cells.len() - i,
    {
        row.push(cells[i].to_owned());
        i += 1;
    }
    assert(text_list(row@) =~= cells@.map_values(|c: &str| c@));
    row
}

/// The documents of a list of configurations.
pub open spec fn firmware_documents(configs: Seq<RackFirmware>) -> Seq<JsonModel> {
    configs.map_values(|c: RackFirmware| c.document())
}

/// The row that stands for a configuration in the list.
pub open spec fn firmware_row(config: RackFirmware) -> Seq<Seq<char>> {
    seq![config.id@, bool_name(config.available), config.created@, config.updated@]
}

/// What `list` prints for the configurations that the service has.
pub open spec fn list_report(configs: Seq<RackFirmware>, format: OutputFormat) -> Seq<BlockModel> {
    if format == OutputFormat::Json {
        seq![BlockModel::Json(JsonModel::Array(firmware_documents(configs)))]
    } else if configs.len() == 0 {
        seq![BlockModel::Line("No Rack firmware configurations found."@)]
    } else {
        seq![
            BlockModel::Table {
                titles: seq!["ID"@, "Available"@, "Created"@, "Updated"@],
                rows: configs.map_values(|c: RackFirmware| firmware_row(c)),
                indent: false,
            },
        ]
    }
}

/// Reports the configurations that the service has: as a JSON array, as a
/// table with one row for each, or in a line that says that there are none.
pub fn list(format: OutputFormat, configs: &Vec<RackFirmware>) -> (report: Vec<Block>)
    ensures
        blocks(report@) == list_report(configs@, format),
{
    let mut report: Vec<Block> = Vec::new();
    match format {
        OutputFormat::Json => {
            let mut documents: Vec<JsonValue> = Vec::new();
            let mut i: usize = 0;
            while i < configs.len()
                invariant
                    i <= configs.len(),
                    items_model(documents@) == firmware_documents(configs@.take(i as int)),
                decreases configs.len() - i,
            {
                let document = configs[i].to_json();
                proof {
                    lemma_items_push(documents@, document);
                    assert(configs@.take(i + 1) =~= configs@.take(i as int).push(
                        configs@[i as int],
                    ));
                    assert(firmware_documents(configs@.take(i + 1)) =~= firmware_documents(
                        configs@.take(i as int),
                    ).push(document@));
                }
                documents.push(document);
                i += 1;
            }
            assert(configs@.take(i as int) =~= configs@);
            report.push(Block::Json(JsonValue::Array(documents)));
        },
        _ => {
            if configs.len() == 0 {
                report.push(line("No Rack firmware configurations found.".to_owned()));
            } else {
                let mut rows: Vec<Vec<String>> = Vec::new();
                let mut i: usize = 0;
                while i < configs.len()
                    invariant
                        i <= configs.len(),
                        rows@.len() == i,
                        forall|j: int|
                            0 <= j < i ==> text_list((#[trigger] rows@[j])@) == firmware_row(
                                configs@[j],
                            ),
                    decreases configs.len() - i,
                {
                    let config = &configs[i];
                    let cells = [
                        config.id.as_str(),
                        bool_text(config.available),
                        config.created.as_str(),
                        config.updated.as_str(),
                    ];
                    let cells_row = row(&cells);
                    assert(text_list(cells_row@) =~= firmware_row(*config));
                    rows.push(cells_row);
                    i += 1;
                }
                assert(row_texts(rows@) =~= configs@.map_values(
                    |c: RackFirmware| firmware_row(c),
                ));
                let titles = ["ID", "Available", "Created", "Updated"];
                let title_row = row(&titles);
                assert(text_list(title_row@) =~= seq!["ID"@, "Available"@, "Created"@, "Updated"@]);
                report.push(Block::Table { titles: title_row, rows, indent: false });
            }
        },
    }
    assert(blocks(report@) =~= list_report(configs@, format));
    report
}

impl JobStatus {
    /// This status as a document.
    pub open spec fn document(self) -> JsonModel {
        JsonModel::Object(
            Map::<Seq<char>, JsonModel>::empty().insert(
                "job_id"@,
                JsonModel::String(self.job_id@),
            ).insert("state"@, JsonModel::String(self.state@)).insert(
                "state_description"@,
                JsonModel::String(self.state_description@),
            ).insert("rack_id"@, JsonModel::String(self.rack_id@)).insert(
                "node_id"@,
                JsonModel::String(self.node_id@),
            ).insert("error_message"@, JsonModel::String(self.error_message@)).insert(
                "result_json"@,
                JsonModel::String(self.result_json@),
            ),
        )
    }

    /// This status as a document.
    pub fn to_json(&self) -> (document: JsonValue)
        ensures
            document@ == self.document(),
    {
        JsonValue::Object(
            JsonObject::new().with("job_id", JsonValue::string(self.job_id.as_str())).with(
                "state",
                JsonValue::string(self.state.as_str()),
            ).with("state_description", JsonValue::string(self.state_description.as_str())).with(
                "rack_id",
                JsonValue::string(self.rack_id.as_str()),
            ).with("node_id", JsonValue::string(self.node_id.as_str())).with(
                "error_message",
                JsonValue::string(self.error_message.as_str()),
            ).with("result_json", JsonValue::string(self.result_json.as_str())),
        )
    }
}

/// A line with a label, or nothing where there is no value to show.
pub open spec fn optional_line(label: Seq<char>, value: Seq<char>) -> Seq<BlockModel> {
    if value.len() == 0 {
        Seq::empty()
    } else {
        seq![BlockModel::Line(label + value)]
    }
}

/// What `status` prints for a job.
pub open spec fn job_status_report(response: JobStatus, format: OutputFormat) -> Seq<BlockModel> {
    if format == OutputFormat::Json {
        seq![BlockModel::Json(response.document())]
    } else {
        seq![
            BlockModel::Line("Firmware Job Status"@),
            BlockModel::Line("  Job ID:      "@ + response.job_id@),
            BlockModel::Line("  State:       "@ + response.state@),
            BlockModel::Line("  Description: "@ + response.state_description@),
            BlockModel::Line("  Rack:        "@ + response.rack_id@),
            BlockModel::Line("  Node:        "@ + response.node_id@),
        ] + optional_line("  Error:       "@, response.error_message@) + optional_line(
            "  Result:      "@,
            response.result_json@,
        )
    }
}

/// Reports the status of a job. The error and the result are shown only
/// where the job has one.
pub fn get_job_status(format: OutputFormat, response: &JobStatus) -> (report: Vec<Block>)
    ensures
        blocks(report@) == job_status_report(*response, format),
{
    let mut report: Vec<Block> = Vec::new();
    match format {
        OutputFormat::Json => {
            report.push(Block::Json(response.to_json()));
        },
        _ => {
            report.push(line("Firmware Job Status".to_owned()));
            report.push(labelled("  Job ID:      ", response.job_id.as_str()));
            report.push(labelled("  State:       ", response.state.as_str()));
            report.push(labelled("  Description: ", response.state_description.as_str()));
            report.push(labelled("  Rack:        ", response.rack_id.as_str()));
            report.push(labelled("  Node:        ", response.node_id.as_str()));
            if !response.error_message.as_str().is_empty() {
                report.push(labelled("  Error:       ", response.error_message.as_str()));
            }
            if !response.result_json.as_str().is_empty() {
                report.push(labelled("  Result:      ", response.result_json.as_str()));
            }
        },
    }
    assert(blocks(report@) =~= job_status_report(*response, format));
    report
}

/// How the table shows whether the update of a device was started.
pub open spec fn status_name(success: bool) -> Seq<char> {
    if success {
        "INITIATED"@
    } else {
        "FAILED"@
    }
}

/// How the table shows a job ID: a dash where there is none.
pub open spec fn job_id_display(job_id: Seq<char>) -> Seq<char> {
    if job_id.len() == 0 {
        "-"@
    } else {
        job_id
    }
}

/// The row that stands for a device in the summary.
pub open spec fn device_row(result: DeviceResult) -> Seq<Seq<char>> {
    seq![result.device_type@, status_name(result.success), job_id_display(result.job_id@)]
}

/// The row that stands for the job of one node of a device.
pub open spec fn node_row(result: DeviceResult, job: NodeJob) -> Seq<Seq<char>> {
    seq![result.device_type@, job.node_id@, job.job_id@]
}

/// The rows of the jobs of one device's nodes.
pub open spec fn device_node_rows(result: DeviceResult) -> Seq<Seq<Seq<char>>> {
    result.node_jobs@.map_values(|job: NodeJob| node_row(result, job))
}

/// The rows of the jobs of all nodes, device after device.
pub open spec fn node_rows(results: Seq<DeviceResult>) -> Seq<Seq<Seq<char>>>
    decreases results.len(),
{
    if results.len() == 0 {
        Seq::empty()
    } else {
        node_rows(results.drop_last()) + device_node_rows(results.last())
    }
}

/// The line drawn above and below the summary's heading.
pub open spec fn double_rule() -> Seq<char> {
    "================================================================================"@
}

/// The line drawn above and below the heading of the jobs of the nodes.
pub open spec fn single_rule() -> Seq<char> {
    "--------------------------------------------------------------------------------"@
}

impl NodeJob {
    /// This job as a document.
    pub open spec fn document(self) -> JsonModel {
        JsonModel::Object(
            Map::<Seq<char>, JsonModel>::empty().insert(
                "node_id"@,
                JsonModel::String(self.node_id@),
            ).insert("job_id"@, JsonModel::String(self.job_id@)),
        )
    }

    /// This job as a document.
    pub fn to_json(&self) -> (document: JsonValue)
        ensures
            document@ == self.document(),
    {
        JsonValue::Object(
            JsonObject::new().with("node_id", JsonValue::string(self.node_id.as_str())).with(
                "job_id",
                JsonValue::string(self.job_id.as_str()),
            ),
        )
    }
}

impl DeviceResult {
    /// This result as a document.
    pub open spec fn document(self) -> JsonModel {
        JsonModel::Object(
            Map::<Seq<char>, JsonModel>::empty().insert(
                "device_id"@,
                JsonModel::String(self.device_id@),
            ).insert("device_type"@, JsonModel::String(self.device_type@)).insert(
                "success"@,
                JsonModel::Bool(self.success),
            ).insert("message"@, JsonModel::String(self.message@)).insert(
                "job_id"@,
                JsonModel::String(self.job_id@),
            ).insert(
                "node_jobs"@,
                JsonModel::Array(self.node_jobs@.map_values(|job: NodeJob| job.document())),
            ),
        )
    }

    /// This result as a document.
    pub fn to_json(&self) -> (document: JsonValue)
        ensures
            document@ == self.document(),
    {
        let mut jobs: Vec<JsonValue> = Vec::new();
        let mut i: usize = 0;
        while i < self.node_jobs.len()
            invariant
                i <= self.node_jobs.len(),
                jobs@.len() == i,
                forall|j: int| 0 <= j < i ==> (#[trigger] jobs@[j])@ == self.node_jobs@[j].document(),
            decreases self.node_jobs.len() - i,
        {
            jobs.push(self.node_jobs[i].to_json());
            i += 1;
        }
        proof {
            lemma_items_index(jobs@);
            assert(items_model(jobs@) =~= self.node_jobs@.map_values(
                |job: NodeJob| job.document(),
            ));
        }
        JsonValue::Object(
            JsonObject::new().with("device_id", JsonValue::string(self.device_id.as_str())).with(
                "device_type",
                JsonValue::string(self.device_type.as_str()),
            ).with("success", JsonValue::Bool(self.success)).with(
                "message",
                JsonValue::string(self.message.as_str()),
            ).with("job_id", JsonValue::string(self.job_id.as_str())).with(
                "node_jobs",
                JsonValue::Array(jobs),
            ),
        )
    }
}

impl ApplyResponse {
    /// This response as a document.
    pub open spec fn document(self) -> JsonModel {
        JsonModel::Object(
            Map::<Seq<char>, JsonModel>::empty().insert(
                "total_updates"@,
                JsonModel::Number(self.total_updates as int),
            ).insert("successful_updates"@, JsonModel::Number(self.successful_updates as int)).insert(
                "failed_updates"@,
                JsonModel::Number(self.failed_updates as int),
            ).insert(
                "device_results"@,
                JsonModel::Array(
                    self.device_results@.map_values(|result: DeviceResult| result.document()),
                ),
            ),
        )
    }

    /// This response as a document.
    pub fn to_json(&self) -> (document: JsonValue)
        ensures
            document@ == self.document(),
    {
        let mut results: Vec<JsonValue> = Vec::new();
        let mut i: usize = 0;
        while i < self.device_results.len()
            invariant
                i <= self.device_results.len(),
                results@.len() == i,
                forall|j: int|
                    0 <= j < i ==> (#[trigger] results@[j])@ == self.device_results@[j].document(),
            decreases self.device_results.len() - i,
        {
            results.push(self.device_results[i].to_json());
            i += 1;
        }
        proof {
            lemma_items_index(results@);
            assert(items_model(results@) =~= self.device_results@.map_values(
                |result: DeviceResult| result.document(),
            ));
        }
        JsonValue::Object(
            JsonObject::new().with(
                "total_updates",
                JsonValue::Number(self.total_updates as i64),
            ).with("successful_updates", JsonValue::Number(self.successful_updates as i64)).with(
                "failed_updates",
                JsonValue::Number(self.failed_updates as i64),
            ).with("device_results", JsonValue::Array(results)),
        )
    }
}

/// The line that `apply` prints before it asks the service.
pub fn apply_banner(opts: &Apply) -> (banner: String)
    ensures
        banner@ == "Applying firmware ID '"@ + opts.firmware_id@ + "' ("@ + opts.firmware_type@
            + ") to rack '"@ + opts.rack_id@ + "'..."@,
{
    joined("Applying firmware ID '", opts.firmware_id.as_str()).concat("' (").concat(
        opts.firmware_type.as_str(),
    ).concat(") to rack '").concat(opts.rack_id.as_str()).concat("'...")
}

/// The part of the summary that lists the jobs of the nodes; nothing where
/// no device has any.
pub open spec fn node_jobs_report(results: Seq<DeviceResult>) -> Seq<BlockModel> {
    if node_rows(results).len() == 0 {
        Seq::empty()
    } else {
        seq![
            BlockModel::Line("\n"@ + single_rule()),
            BlockModel::Line(
                "Per-Node Job IDs (use with GetFirmwareJobStatus to track progress)"@,
            ),
            BlockModel::Line(single_rule()),
            BlockModel::Table {
                titles: seq!["Device Type"@, "Node ID"@, "Job ID"@],
                rows: node_rows(results),
                indent: false,
            },
        ]
    }
}

/// What `apply` prints for the service's response.
pub open spec fn apply_report(response: ApplyResponse, format: OutputFormat) -> Seq<BlockModel> {
    if format == OutputFormat::Json {
        seq![BlockModel::Json(response.document())]
    } else {
        seq![
            BlockModel::Line("\n"@ + double_rule()),
            BlockModel::Line("Firmware Update Summary"@),
            BlockModel::Line(double_rule()),
            BlockModel::Table {
                titles: seq!["Device Type"@, "Status"@, "Job ID"@],
                rows: response.device_results@.map_values(|r: DeviceResult| device_row(r)),
                indent: false,
            },
            BlockModel::Line("\nTotal updates: "@ + decimal_digits(response.total_updates as nat)),
            BlockModel::Line(
                "Successfully initiated: "@ + decimal_digits(response.successful_updates as nat),
            ),
            BlockModel::Line(
                "Failed to initiate: "@ + decimal_digits(response.failed_updates as nat),
            ),
        ] + node_jobs_report(response.device_results@)
    }
}

/// What `apply` ends with: an error where any update failed to start.
pub open spec fn apply_verdict(response: ApplyResponse) -> Result<(), CliErrorModel> {
    if response.failed_updates > 0 {
        Err(
            CliErrorModel::GenericError(
                decimal_digits(response.failed_updates as nat) + " firmware updates failed"@,
            ),
        )
    } else {
        Ok(())
    }
}

/// The rows of the jobs of all nodes.
fn node_job_rows(results: &Vec<DeviceResult>) -> (rows: Vec<Vec<String>>)
    ensures
        row_texts(rows@) == node_rows(results@),
{
    let mut rows: Vec<Vec<String>> = Vec::new();
    let mut i: usize = 0;
    assert(results@.take(0) =~= Seq::<DeviceResult>::empty());
    assert(row_texts(rows@) =~= node_rows(results@.take(0)));
    while i < results.len()
        invariant
            i <= results.len(),
            row_texts(rows@) == node_rows(results@.take(i as int)),
        decreases results.len() - i,
    {
        let result = &results[i];
        let ghost before = row_texts(rows@);
        let mut k: usize = 0;
        assert(result.node_jobs@.take(0) =~= Seq::<NodeJob>::empty());
        assert(row_texts(rows@) =~= before + result.node_jobs@.take(0).map_values(
            |job: NodeJob| node_row(*result, job),
        ));
        while k < result.node_jobs.len()
            invariant
                k <= result.node_jobs.len(),
                row_texts(rows@) == before + result.node_jobs@.take(k as int).map_values(
                    |job: NodeJob| node_row(*result, job),
                ),
            decreases result.node_jobs.len() - k,
        {
            let job = &result.node_jobs[k];
            let cells = [result.device_type.as_str(), job.node_id.as_str(), job.job_id.as_str()];
            let cells_row = row(&cells);
            assert(text_list(cells_row@) =~= node_row(*result, *job));
            let ghost shown = row_texts(rows@);
            rows.push(cells_row);
            proof {
                assert(row_texts(rows@) =~= shown.push(node_row(*result, *job)));
                assert(result.node_jobs@.take(k + 1) =~= result.node_jobs@.take(k as int).push(
                    *job,
                ));
                assert(result.node_jobs@.take(k + 1).map_values(
                    |job: NodeJob| node_row(*result, job),
                ) =~= result.node_jobs@.take(k as int).map_values(
                    |job: NodeJob| node_row(*result, job),
                ).push(node_row(*result, *job)));
                assert(row_texts(rows@) =~= before + result.node_jobs@.take(k + 1).map_values(
                    |job: NodeJob| node_row(*result, job),
                ));
            }
            k += 1;
        }
        proof {
            assert(result.node_jobs@.take(k as int) =~= result.node_jobs@);
            assert(results@.take(i + 1).drop_last() =~= results@.take(i as int));
            assert(results@.take(i + 1).last() == *result);
        }
        i += 1;
    }
    assert(results@.take(i as int) =~= results@);
    rows
}

/// Reports what became of applying firmware to a rack, and says how the
/// command ends. The report is printed in any case; the command fails where
/// any update failed to start.
pub fn apply(format: OutputFormat, response: &ApplyResponse) -> (shown: (
    Vec<Block>,
    Result<(), CliError>,
))
    ensures
        blocks(shown.0@) == apply_report(*response, format),
        match apply_verdict(*response) {
            Ok(()) => shown.1 is Ok,
            Err(failure) => shown.1 matches Err(e) && e@ == failure,
        },
{
    let mut report: Vec<Block> = Vec::new();
    match format {
        OutputFormat::Json => {
            report.push(Block::Json(response.to_json()));
        },
        _ => {
            let mut rows: Vec<Vec<String>> = Vec::new();
            let mut i: usize = 0;
            while i < response.device_results.len()
                invariant
                    i <= response.device_results.len(),
                    rows@.len() == i,
                    forall|j: int|
                        0 <= j < i ==> text_list((#[trigger] rows@[j])@) == device_row(
                            response.device_results@[j],
                        ),
                decreases response.device_results.len() - i,
            {
                let result = &response.device_results[i];
                let status = if result.success {
                    "INITIATED"
                } else {
                    "FAILED"
                };
                let job_id = if result.job_id.as_str().is_empty() {
                    "-"
                } else {
                    result.job_id.as_str()
                };
                let cells = [result.device_type.as_str(), status, job_id];
                let cells_row = row(&cells);
                assert(text_list(cells_row@) =~= device_row(*result));
                rows.push(cells_row);
                i += 1;
            }
            assert(row_texts(rows@) =~= response.device_results@.map_values(
                |r: DeviceResult| device_row(r),
            ));
            let titles = ["Device Type", "Status", "Job ID"];
            let title_row = row(&titles);
            assert(text_list(title_row@) =~= seq!["Device Type"@, "Status"@, "Job ID"@]);
            report.push(
                labelled(
                    "\n",
                    "================================================================================",
                ),
            );
            report.push(line("Firmware Update Summary".to_owned()));
            report.push(
                line(
                    "================================================================================".to_owned(),
                ),
            );
            report.push(Block::Table { titles: title_row, rows, indent: false });
            report.push(
                labelled("\nTotal updates: ", decimal(response.total_updates as usize).as_str()),
            );
            report.push(
                labelled(
                    "Successfully initiated: ",
                    decimal(response.successful_updates as usize).as_str(),
                ),
            );
            report.push(
                labelled("Failed to initiate: ", decimal(response.failed_updates as usize).as_str()),
            );
            let ghost summary = blocks(report@);
            let node_rows = node_job_rows(&response.device_results);
            if node_rows.len() > 0 {
                let titles = ["Device Type", "Node ID", "Job ID"];
                let title_row = row(&titles);
                assert(text_list(title_row@) =~= seq!["Device Type"@, "Node ID"@, "Job ID"@]);
                report.push(
                    labelled(
                        "\n",
                        "--------------------------------------------------------------------------------",
                    ),
                );
                report.push(
                    line(
                        "Per-Node Job IDs (use with GetFirmwareJobStatus to track progress)".to_owned(),
                    ),
                );
                report.push(
                    line(
                        "--------------------------------------------------------------------------------".to_owned(),
                    ),
                );
                report.push(Block::Table { titles: title_row, rows: node_rows, indent: false });
            }
            assert(blocks(report@) =~= summary + node_jobs_report(response.device_results@));
        },
    }
    assert(blocks(report@) =~= apply_report(*response, format));
    let verdict = if response.failed_updates > 0 {
        Err(
            CliError::GenericError(
                decimal(response.failed_updates as usize).concat(" firmware updates failed"),
            ),
        )
    } else {
        Ok(())
    };
    (report, verdict)
}

/// What `str::to_uppercase` makes of a text.
pub uninterp spec fn uppercase(text: Seq<char>) -> Seq<char>;

/// Calls `str::to_uppercase`. Claimed: the result is that of `uppercase` on
/// the same text.
#[verifier::external_body]
fn to_uppercase(text: &str) -> (upper: String)
    ensures
        upper@ == uppercase(text@),
{
    text.to_uppercase()
}

/// The text of the field `key` of an entry; a dash where the entry has no
/// such field, or the field is no text.
pub open spec fn field_text(entry: JsonValue, key: Seq<char>) -> Seq<char> {
    match value_field(entry, key) {
        Some(JsonValue::String(text)) => text@,
        _ => "-"@,
    }
}

/// The row that stands for a firmware component, given its firmware type in
/// upper case.
pub open spec fn component_row(entry: JsonValue, upper_type: Seq<char>) -> Seq<Seq<char>> {
    seq![
        field_text(entry, "component"@),
        upper_type,
        field_text(entry, "bundle"@),
        field_text(entry, "target"@),
    ]
}

/// The row that stands for a subcomponent.
pub open spec fn subcomponent_row(entry: JsonValue) -> Seq<Seq<char>> {
    seq![
        field_text(entry, "component"@),
        field_text(entry, "version"@),
        field_text(entry, "skuid"@),
    ]
}

/// The subcomponents that an entry lists; none where it has no such list.
pub open spec fn subcomponents(entry: JsonValue) -> Seq<JsonValue> {
    match value_field(entry, "subcomponents"@) {
        Some(JsonValue::Array(items)) => items@,
        _ => Seq::empty(),
    }
}

/// What is printed for the subcomponents of a component: a heading and a
/// table, or nothing where it has none.
pub open spec fn subcomponent_blocks(entry: JsonValue) -> Seq<BlockModel> {
    if subcomponents(entry).len() == 0 {
        Seq::empty()
    } else {
        seq![
            BlockModel::Line("\n  "@ + field_text(entry, "component"@) + " Subcomponents:"@),
            BlockModel::Table {
                titles: seq!["Component"@, "Version"@, "SKUID"@],
                rows: subcomponents(entry).map_values(|sub: JsonValue| subcomponent_row(sub)),
                indent: true,
            },
        ]
    }
}

/// The entries of a device's components, in the order in which the document
/// lists them; none where the components are no object.
pub open spec fn entries(components: JsonValue) -> Seq<(String, JsonValue)> {
    match components {
        JsonValue::Object(o) => o.fields@,
        _ => Seq::empty(),
    }
}

/// The rows of a device's component table.
pub open spec fn component_rows(list: Seq<(String, JsonValue)>) -> Seq<Seq<Seq<char>>> {
    list.map_values(
        |e: (String, JsonValue)| component_row(e.1, uppercase(field_text(e.1, "firmware_type"@))),
    )
}

/// What is printed for the subcomponents of a device's components, one
/// component after the other.
pub open spec fn all_subcomponent_blocks(list: Seq<(String, JsonValue)>) -> Seq<BlockModel>
    decreases list.len(),
{
    if list.len() == 0 {
        Seq::empty()
    } else {
        all_subcomponent_blocks(list.drop_last()) + subcomponent_blocks(list.last().1)
    }
}

/// What is printed for one type of device: its name in brackets, the table
/// of its components, and then the subcomponents of each component that
/// has any.
pub open spec fn device_blocks(device_type: Seq<char>, components: JsonValue) -> Seq<BlockModel> {
    seq![
        BlockModel::Line("\n["@ + device_type + "]"@),
        BlockModel::Table {
            titles: seq!["Component"@, "Type"@, "Bundle"@, "Target"@],
            rows: component_rows(entries(components)),
            indent: false,
        },
    ] + all_subcomponent_blocks(entries(components))
}

/// What is printed for all types of device, in the order in which the
/// document lists them.
pub open spec fn all_device_blocks(devices: Seq<(String, JsonValue)>) -> Seq<BlockModel>
    decreases devices.len(),
{
    if devices.len() == 0 {
        Seq::empty()
    } else {
        all_device_blocks(devices.drop_last()) + device_blocks(
            devices.last().0@,
            devices.last().1,
        )
    }
}

/// What is printed for the firmware components of a configuration.
/// `parsed` is the text of the components read as JSON, `None` where it is
/// no JSON.
///
/// Components that are empty or `{}` have not been downloaded yet. Of
/// components that were downloaded, the devices are shown where the
/// document has an object named `devices`; anything else shows nothing.
pub open spec fn components_report(
    parsed_components: Seq<char>,
    parsed: Option<JsonValue>,
) -> Seq<BlockModel> {
    if parsed_components.len() == 0 || parsed_components == "{}"@ {
        seq![BlockModel::Line("\nFirmware Components: (not yet downloaded)"@)]
    } else {
        match parsed {
            Some(document) => match value_field(document, "devices"@) {
                Some(JsonValue::Object(devices)) => all_device_blocks(devices.fields@),
                _ => Seq::empty(),
            },
            None => Seq::empty(),
        }
    }
}

/// What `get` prints for a configuration.
pub open spec fn get_report(
    result: RackFirmware,
    parsed: Option<JsonValue>,
    format: OutputFormat,
) -> Seq<BlockModel> {
    if format == OutputFormat::Json {
        seq![BlockModel::Json(result.document())]
    } else {
        seq![
            BlockModel::Line("Rack Firmware Configuration:"@),
            BlockModel::Line("  ID: "@ + result.id@),
            BlockModel::Line("  Available: "@ + bool_name(result.available)),
            BlockModel::Line("  Created: "@ + result.created@),
            BlockModel::Line("  Updated: "@ + result.updated@),
        ] + components_report(result.parsed_components@, parsed)
    }
}

/// The text of a field of an entry, or a dash.
fn text_of<'a>(entry: &'a JsonValue, key: &str) -> (text: &'a str)
    ensures
        text@ == field_text(*entry, key@),
{
    match entry.get(key) {
        Some(value) => match value.as_str() {
            Some(text) => text,
            None => "-",
        },
        None => "-",
    }
}

/// The rows of the table of a component's subcomponents.
fn subcomponent_rows(items: &Vec<JsonValue>) -> (rows: Vec<Vec<String>>)
    ensures
        row_texts(rows@) == items@.map_values(|sub: JsonValue| subcomponent_row(sub)),
{
    let mut rows: Vec<Vec<String>> = Vec::new();
    let mut i: usize = 0;
    while i < items.len()
        invariant
            i <= items.len(),
            rows@.len() == i,
            forall|j: int|
                0 <= j < i ==> text_list((#[trigger] rows@[j])@) == subcomponent_row(items@[j]),
        decreases items.len() - i,
    {
        let item = &items[i];
        let cells = [text_of(item, "component"), text_of(item, "version"), text_of(item, "skuid")];
        let cells_row = row(&cells);
        assert(text_list(cells_row@) =~= subcomponent_row(*item));
        rows.push(cells_row);
        i += 1;
    }
    assert(row_texts(rows@) =~= items@.map_values(|sub: JsonValue| subcomponent_row(sub)));
    rows
}

/// Adds to `report` what is printed for the subcomponents of one
/// component.
fn push_subcomponents(report: &mut Vec<Block>, entry: &JsonValue)
    ensures
        blocks(final(report)@) == blocks(old(report)@) + subcomponent_blocks(*entry),
{
    let ghost before = blocks(report@);
    if let Some(listed) = entry.get("subcomponents") {
        if let Some(items) = listed.as_array() {
            if items.len() > 0 {
                let heading = joined("\n  ", text_of(entry, "component")).concat(
                    " Subcomponents:",
                );
                let titles = ["Component", "Version", "SKUID"];
                let title_row = row(&titles);
                assert(text_list(title_row@) =~= seq!["Component"@, "Version"@, "SKUID"@]);
                report.push(line(heading));
                report.push(
                    Block::Table { titles: title_row, rows: subcomponent_rows(items), indent: true },
                );
            }
        }
    }
    assert(blocks(report@) =~= before + subcomponent_blocks(*entry));
}

/// Adds to `report` what is printed for one type of device.
fn push_device(report: &mut Vec<Block>, device_type: &str, components: &JsonValue)
    ensures
        blocks(final(report)@) == blocks(old(report)@) + device_blocks(device_type@, *components),
{
    let ghost before = blocks(report@);
    let empty: Vec<(String, JsonValue)> = Vec::new();
    let list: &Vec<(String, JsonValue)> = match components.as_object() {
        Some(o) => &o.fields,
        None => &empty,
    };
    assert(list@ =~= entries(*components));
    let mut rows: Vec<Vec<String>> = Vec::new();
    let mut i: usize = 0;
    while i < list.len()
        invariant
            i <= list.len(),
            rows@.len() == i,
            forall|j: int|
                0 <= j < i ==> text_list((#[trigger] rows@[j])@) == component_row(
                    list@[j].1,
                    uppercase(field_text(list@[j].1, "firmware_type"@)),
                ),
        decreases list.len() - i,
    {
        let entry = &list[i].1;
        let upper = to_uppercase(text_of(entry, "firmware_type"));
        let cells = [
            text_of(entry, "component"),
            upper.as_str(),
            text_of(entry, "bundle"),
            text_of(entry, "target"),
        ];
        let cells_row = row(&cells);
        assert(text_list(cells_row@) =~= component_row(*entry, upper@));
        rows.push(cells_row);
        i += 1;
    }
    assert(row_texts(rows@) =~= component_rows(list@));
    let titles = ["Component", "Type", "Bundle", "Target"];
    let title_row = row(&titles);
    assert(text_list(title_row@) =~= seq!["Component"@, "Type"@, "Bundle"@, "Target"@]);
    report.push(line(joined("\n[", device_type).concat("]")));
    report.push(Block::Table { titles: title_row, rows, indent: false });
    let ghost head = blocks(report@);
    let mut k: usize = 0;
    assert(list@.take(0) =~= Seq::<(String, JsonValue)>::empty());
    assert(blocks(report@) =~= head + all_subcomponent_blocks(list@.take(0)));
    while k < list.len()
        invariant
            k <= list.len(),
            blocks(report@) == head + all_subcomponent_blocks(list@.take(k as int)),
        decreases list.len() - k,
    {
        let ghost shown = blocks(report@);
        push_subcomponents(report, &list[k].1);
        proof {
            assert(list@.take(k + 1).drop_last() =~= list@.take(k as int));
            assert(list@.take(k + 1).last() == list@[k as int]);
            assert(blocks(report@) =~= head + all_subcomponent_blocks(list@.take(k + 1)));
        }
        k += 1;
    }
    assert(list@.take(k as int) =~= list@);
    assert(blocks(report@) =~= before + device_blocks(device_type@, *components));
}

/// Reports a configuration: its fields, and the firmware components it was
/// parsed into. `parsed` is the text of the components read as JSON, `None`
/// where it is no JSON.
pub fn get(format: OutputFormat, result: &RackFirmware, parsed: Option<&JsonValue>) -> (report:
    Vec<Block>)
    ensures
        blocks(report@) == get_report(
            *result,
            match parsed {
                Some(document) => Some(*document),
                None => None,
            },
            format,
        ),
{
    let ghost given = match parsed {
        Some(document) => Some(*document),
        None => None,
    };
    let mut report: Vec<Block> = Vec::new();
    match format {
        OutputFormat::Json => {
            report.push(Block::Json(result.to_json()));
            assert(blocks(report@) =~= get_report(*result, given, format));
            return report;
        },
        _ => {},
    }
    report.push(line("Rack Firmware Configuration:".to_owned()));
    report.push(labelled("  ID: ", result.id.as_str()));
    report.push(labelled("  Available: ", bool_text(result.available)));
    report.push(labelled("  Created: ", result.created.as_str()));
    report.push(labelled("  Updated: ", result.updated.as_str()));
    let ghost head = blocks(report@);
    let components = result.parsed_components.as_str();
    if components.is_empty() || str_eq(components, "{}") {
        report.push(line("\nFirmware Components: (not yet downloaded)".to_owned()));
        assert(blocks(report@) =~= head + components_report(result.parsed_components@, given));
    } else {
        let empty: Vec<(String, JsonValue)> = Vec::new();
        let devices: &Vec<(String, JsonValue)> = match parsed {
            Some(document) => match document.get("devices") {
                Some(listed) => match listed.as_object() {
                    Some(o) => &o.fields,
                    None => &empty,
                },
                None => &empty,
            },
            None => &empty,
        };
        assert(all_device_blocks(empty@) =~= Seq::<BlockModel>::empty());
        assert(components_report(result.parsed_components@, given) == all_device_blocks(devices@));
        let mut i: usize = 0;
        assert(devices@.take(0) =~= Seq::<(String, JsonValue)>::empty());
        assert(blocks(report@) =~= head + all_device_blocks(devices@.take(0)));
        while i < devices.len()
            invariant
                i <= devices.len(),
                blocks(report@) == head + all_device_blocks(devices@.take(i as int)),
            decreases devices.len() - i,
        {
            push_device(&mut report, devices[i].0.as_str(), &devices[i].1);
            proof {
                assert(devices@.take(i + 1).drop_last() =~= devices@.take(i as int));
                assert(devices@.take(i + 1).last() == devices@[i as int]);
                assert(blocks(report@) =~= head + all_device_blocks(devices@.take(i + 1)));
            }
            i += 1;
        }
        assert(devices@.take(i as int) =~= devices@);
    }
    assert(blocks(report@) =~= get_report(*result, given, format));
    report
}

} // verus!
