//! Machine validation: test definitions, requests and the status of a
//! validation run.
use vstd::prelude::*;

use crate::ids::{MachineValidationId, UtcTimestamp};
use crate::machine::MachineId;
use crate::text::str_eq;

verus! {

/// Request to add a validation test.
#[derive(Clone, Debug, Default)]
pub struct MachineValidationTestAddRequest {
    pub name: String,
    pub description: Option<String>,
    pub contexts: Vec<String>,
    pub img_name: Option<String>,
    pub execute_in_host: Option<bool>,
    pub container_arg: Option<String>,
    pub command: String,
    pub args: String,
    pub extra_err_file: Option<String>,
    pub external_config_file: Option<String>,
    pub pre_condition: Option<String>,
    pub timeout: Option<i64>,
    pub extra_output_file: Option<String>,
    pub supported_platforms: Vec<String>,
    pub read_only: Option<bool>,
    pub custom_tags: Vec<String>,
    pub components: Vec<String>,
    pub is_enabled: Option<bool>,
}

/// The fields of a validation test to change.
#[derive(Clone, Debug, Default)]
pub struct MachineValidationTestUpdatePayload {
    pub name: Option<String>,
    pub description: Option<String>,
    pub contexts: Vec<String>,
    pub img_name: Option<String>,
    pub execute_in_host: Option<bool>,
    pub container_arg: Option<String>,
    pub command: Option<String>,
    pub args: Option<String>,
    pub extra_err_file: Option<String>,
    pub external_config_file: Option<String>,
    pub pre_condition: Option<String>,
    pub timeout: Option<i64>,
    pub extra_output_file: Option<String>,
    pub supported_platforms: Vec<String>,
    pub verified: Option<bool>,
    pub custom_tags: Vec<String>,
    pub components: Vec<String>,
    pub is_enabled: Option<bool>,
}

/// Request to change a version of a validation test.
#[derive(Clone, Debug)]
pub struct MachineValidationTestUpdateRequest {
    pub test_id: String,
    pub version: String,
    pub payload: Option<MachineValidationTestUpdatePayload>,
}

/// Request for the validation tests that match the given criteria.
#[derive(Clone, Debug, Default)]
pub struct MachineValidationTestsGetRequest {
    pub supported_platforms: Vec<String>,
    pub contexts: Vec<String>,
    pub test_id: Option<String>,
    pub read_only: Option<bool>,
    pub custom_tags: Vec<String>,
    pub version: Option<String>,
    pub is_enabled: Option<bool>,
    pub verified: Option<bool>,
}

/// Overall state of a validation run.
#[derive(Debug, Clone, Copy, PartialEq, Eq, Structural)]
pub enum MachineValidationState {
    Started,
    InProgress,
    Success,
    Skipped,
    Failed,
}

/// The text of a validation state: its variant name.
pub open spec fn validation_state_text(s: MachineValidationState) -> Seq<char> {
    match s {
        MachineValidationState::Started => "Started"@,
        MachineValidationState::InProgress => "InProgress"@,
        MachineValidationState::Success => "Success"@,
        MachineValidationState::Skipped => "Skipped"@,
        MachineValidationState::Failed => "Failed"@,
    }
}

/// The validation state a text names, if any; the match is exact.
pub open spec fn validation_state_named(s: Seq<char>) -> Option<MachineValidationState> {
    if s == "Started"@ {
        Some(MachineValidationState::Started)
    } else if s == "InProgress"@ {
        Some(MachineValidationState::InProgress)
    } else if s == "Success"@ {
        Some(MachineValidationState::Success)
    } else if s == "Skipped"@ {
        Some(MachineValidationState::Skipped)
    } else if s == "Failed"@ {
        Some(MachineValidationState::Failed)
    } else {
        None
    }
}

/// Error for a text that names no variant.
#[derive(Debug, Clone, Copy, PartialEq, Eq, Structural)]
pub enum VariantParseError {
    /// The text is not the name of any variant.
    VariantNotFound,
}

impl VariantParseError {
    /// `Matching variant not found`.
    pub fn to_string(&self) -> (r: String)
        ensures
            r@ == "Matching variant not found"@,
    {
        String::from_str("Matching variant not found")
    }
}

impl Default for MachineValidationState {
    /// A run starts in `Started`.
    fn default() -> (r: MachineValidationState)
        ensures
            r == MachineValidationState::Started,
    {
        MachineValidationState::Started
    }
}

impl MachineValidationState {
    /// Renders the state as its variant name.
    pub fn to_string(&self) -> (r: String)
        ensures
            r@ == validation_state_text(*self),
    {
        match self {
            MachineValidationState::Started => String::from_str("Started"),
            MachineValidationState::InProgress => String::from_str("InProgress"),
            MachineValidationState::Success => String::from_str("Success"),
            MachineValidationState::Skipped => String::from_str("Skipped"),
            MachineValidationState::Failed => String::from_str("Failed"),
        }
    }

    /// Reads a state from its variant name; case and whitespace count, and
    /// any other text names no variant.
    pub fn parse(s: &str) -> (r: Result<MachineValidationState, VariantParseError>)
        ensures
            r == match validation_state_named(s@) {
                Some(t) => Ok::<MachineValidationState, VariantParseError>(t),
                None => Err(VariantParseError::VariantNotFound),
            },
    {
        if str_eq(s, "Started") {
            Ok(MachineValidationState::Started)
        } else if str_eq(s, "InProgress") {
            Ok(MachineValidationState::InProgress)
        } else if str_eq(s, "Success") {
            Ok(MachineValidationState::Success)
        } else if str_eq(s, "Skipped") {
            Ok(MachineValidationState::Skipped)
        } else if str_eq(s, "Failed") {
            Ok(MachineValidationState::Failed)
        } else {
            Err(VariantParseError::VariantNotFound)
        }
    }
}

impl std::str::FromStr for MachineValidationState {
    type Err = VariantParseError;

    /// Reads a state from its variant name; see `MachineValidationState::parse`.
    fn from_str(s: &str) -> (r: Result<Self, Self::Err>)
        ensures
            r == match validation_state_named(s@) {
                Some(t) => Ok::<MachineValidationState, VariantParseError>(t),
                None => Err(VariantParseError::VariantNotFound),
            },
    {
        MachineValidationState::parse(s)
    }
}

/// The variant name of every state reads back as that state.
pub proof fn lemma_validation_state_text_round_trips(s: MachineValidationState)
    ensures
        validation_state_named(validation_state_text(s)) == Some(s),
{
    reveal_strlit("Started");
    reveal_strlit("InProgress");
    reveal_strlit("Success");
    reveal_strlit("Skipped");
    reveal_strlit("Failed");
    assert("Started"@[0] != "InProgress"@[0]);
    assert("Started"@[1] != "Success"@[1]);
    assert("Started"@[1] != "Skipped"@[1]);
    assert("Started"@[0] != "Failed"@[0]);
    assert("InProgress"@[0] != "Success"@[0]);
    assert("InProgress"@[0] != "Skipped"@[0]);
    assert("InProgress"@[0] != "Failed"@[0]);
    assert("Success"@[1] != "Skipped"@[1]);
    assert("Success"@[0] != "Failed"@[0]);
    assert("Skipped"@[0] != "Failed"@[0]);
}

/// Overall status of a validation run, over all its tests.
#[derive(Debug, Clone, PartialEq, Eq, Structural)]
pub struct MachineValidationStatus {
    pub state: MachineValidationState,
    pub total: i32,
    pub completed: i32,
}

impl Default for MachineValidationStatus {
    /// `Started`, with no tests counted.
    fn default() -> (r: MachineValidationStatus)
        ensures
            r == (MachineValidationStatus { state: MachineValidationState::Started, total: 0, completed: 0 }),
    {
        MachineValidationStatus { state: MachineValidationState::Started, total: 0, completed: 0 }
    }
}

impl MachineValidationStatus {
    /// The status a stored run describes: its state text and its counts. A
    /// state text that names no state counts as `Success`.
    pub fn from_columns(state: &str, total: i32, completed: i32) -> (r: MachineValidationStatus)
        ensures
            r.state == match validation_state_named(state@) {
                Some(s) => s,
                None => MachineValidationState::Success,
            },
            r.total == total,
            r.completed == completed,
    {
        let state = match MachineValidationState::parse(state) {
            Ok(s) => s,
            Err(_) => MachineValidationState::Success,
        };
        MachineValidationStatus { state, total, completed }
    }
}

/// A machine validation run.
#[derive(Debug, Clone)]
pub struct MachineValidation {
    pub id: MachineValidationId,
    pub machine_id: MachineId,
    pub name: String,
    pub start_time: Option<UtcTimestamp>,
    pub end_time: Option<UtcTimestamp>,
    /// The stored filter of the machines the run covers, as its JSON text.
    pub filter: Option<String>,
    pub context: Option<String>,
    pub status: Option<MachineValidationStatus>,
    pub duration_to_complete: i64,
}

impl MachineValidation {
    /// The run stored in a row's columns; the filter is kept as stored, and
    /// the status comes from the stored state text and counts (see
    /// `MachineValidationStatus::from_columns`).
    pub fn from_columns(
        id: MachineValidationId,
        machine_id: MachineId,
        name: String,
        start_time: Option<UtcTimestamp>,
        end_time: Option<UtcTimestamp>,
        filter: Option<String>,
        context: Option<String>,
        state: &str,
        total: i32,
        completed: i32,
        duration_to_complete: i64,
    ) -> (r: MachineValidation)
        ensures
            r.id == id,
            r.machine_id == machine_id,
            r.name == name,
            r.start_time == start_time,
            r.end_time == end_time,
            r.filter == filter,
            r.context == context,
            r.status matches Some(st) && st.state == match validation_state_named(state@) {
                Some(s) => s,
                None => MachineValidationState::Success,
            } && st.total == total && st.completed == completed,
            r.duration_to_complete == duration_to_complete,
    {
        let status = MachineValidationStatus::from_columns(state, total, completed);
        MachineValidation {
            id,
            machine_id,
            name,
            start_time,
            end_time,
            filter,
            context,
            status: Some(status),
            duration_to_complete,
        }
    }
}

/// An external configuration file that validation tests read.
#[derive(Debug, Clone)]
pub struct MachineValidationExternalConfig {
    pub name: String,
    pub description: String,
    pub config: Vec<u8>,
    /// The text of the configuration's version.
    pub version: String,
}

/// A machine validation test.
#[derive(Debug, Clone)]
pub struct MachineValidationTest {
    pub test_id: String,
    pub name: String,
    pub description: Option<String>,
    pub contexts: Vec<String>,
    pub img_name: Option<String>,
    pub execute_in_host: Option<bool>,
    pub container_arg: Option<String>,
    pub command: String,
    pub args: String,
    pub extra_output_file: Option<String>,
    pub extra_err_file: Option<String>,
    pub external_config_file: Option<String>,
    pub pre_condition: Option<String>,
    pub timeout: Option<i64>,
    /// The text of the test's version.
    pub version: String,
    pub supported_platforms: Vec<String>,
    pub modified_by: String,
    pub verified: bool,
    pub read_only: bool,
    pub custom_tags: Option<Vec<String>>,
    pub components: Vec<String>,
    pub last_modified_at: UtcTimestamp,
    pub is_enabled: bool,
}

/// The result of one test of a validation run.
#[derive(Debug, Clone)]
pub struct MachineValidationResult {
    pub validation_id: MachineValidationId,
    pub name: String,
    pub description: String,
    pub stdout: String,
    pub stderr: String,
    pub command: String,
    pub args: String,
    pub context: String,
    pub exit_code: i32,
    pub start_time: UtcTimestamp,
    pub end_time: UtcTimestamp,
    pub test_id: Option<String>,
}

} // verus!
