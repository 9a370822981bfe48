//! Model for SPDM attestation via Redfish.
use vstd::prelude::*;
use vstd::string::*;

use crate::digest::{sha256, sha256_digest};
use crate::ids::UtcTimestamp;
use crate::machine::{
    lemma_machine_id_text_chars, machine_id_text, parsed_machine_id, MachineId,
    MachineIdParseError,
};
use crate::text::{
    hex_encode, hex_text, lemma_split_on_first_separator, occurs_in, split_collect, split_on,
    str_contains,
};

verus! {

/// Progress of attestation of one device of a machine (GPU, CPU, BMC, CX7).
#[derive(Clone, Debug)]
pub struct SpdmDeviceAttestation {
    /// Host or DPU's machine id.
    pub machine_id: MachineId,
    /// Component of the machine, such as `HGX_IRoT_GPU_0` or `HGX_ERoT_CPU_0`.
    pub device_id: String,
    /// How to reach the machine's BMC, as its JSON text.
    pub bmc_info: String,
    /// The 16 bytes of the nonce used in attestation with both NRAS and the BMC.
    pub nonce: [u8; 16],
    /// Device state.
    pub state: SpdmAttestationState,
    /// The text of the state's version.
    pub state_version: String,
    /// The result of the last attempt to change state, as its JSON text.
    pub state_outcome: Option<String>,
    /// Latest values fetched during attestation.
    pub metadata: Option<SpdmMachineDeviceMetadata>,
    /// Link to fetch the CA certificate from.
    pub ca_certificate_link: Option<String>,
    /// CA certificate fetched from the link.
    pub ca_certificate: Option<CaCertificate>,
    /// Evidence target link, used to trigger the measurement collection.
    pub evidence_target: Option<String>,
    /// Collected evidence.
    pub evidence: Option<Evidence>,
    pub started_at: UtcTimestamp,
    pub cancelled_at: Option<UtcTimestamp>,
    pub completed_at: Option<UtcTimestamp>,
}

impl SpdmDeviceAttestation {
    /// Lowercase hexadecimal text of the SHA-256 digest of the nonce.
    pub fn nonce_hex(&self) -> (r: String)
        ensures
            r@ == hex_text(sha256(self.nonce@)),
    {
        let digest = sha256_digest(self.nonce.as_slice());
        hex_encode(digest.as_slice())
    }
}

/// Major state of the attestation of a device.
#[derive(Clone, Debug, PartialEq, Eq)]
pub enum SpdmAttestationState {
    FetchMetadata,
    FetchCertificate,
    TriggerEvidenceCollection { retry_count: i32 },
    PollEvidenceCollection { task_id: String, retry_count: i32 },
    NrasVerification,
    ApplyAppraisalPolicy,
    Passed,
    Failed(String),
    Cancelled,
}

/// Outcome of attestation as reported for a machine.
#[derive(Clone, Copy, Debug, PartialEq, Eq, Structural)]
pub enum SpdmAttestationStatus {
    InProgress,
    Cancelled,
    Passed,
    Failed,
}

/// Errors raised while driving the attestation of a device.
#[derive(Clone, Debug, PartialEq, Eq)]
pub enum SpdmHandlerError {
    /// The measurement could not be triggered; the text says why.
    TriggerMeasurementFail(String),
    /// The attestation service reported an error; the text is its message.
    NrasError(String),
    /// A value the handler needs is missing.
    MissingData { field: String, machine_id: MachineId, device_id: String },
    /// No verifier is implemented for the device.
    VerifierNotImplemented { module: String, machine_id: MachineId, device_id: String },
    /// The evidence did not verify; the text says why.
    VerificationFailed(String),
}

/// The message of a handler error.
pub open spec fn spdm_handler_error_text(e: SpdmHandlerError) -> Seq<char> {
    match e {
        SpdmHandlerError::TriggerMeasurementFail(m) => "Unable to complete measurement trigger: "@
            + m@,
        SpdmHandlerError::NrasError(m) => "Nras error: "@ + m@,
        SpdmHandlerError::MissingData { field, machine_id, device_id } => "Missing values: "@
            + field@ + " - "@ + machine_id_text(machine_id) + "/"@ + device_id@,
        SpdmHandlerError::VerifierNotImplemented { module, machine_id, device_id } =>
            "Verifier not implemented at "@ + module@ + " for: "@ + machine_id_text(machine_id)
            + "/"@ + device_id@,
        SpdmHandlerError::VerificationFailed(m) => "Verification Failed: "@ + m@,
    }
}

impl SpdmHandlerError {
    /// The message of the error.
    pub fn to_string(&self) -> (r: String)
        ensures
            r@ == spdm_handler_error_text(*self),
    {
        match self {
            SpdmHandlerError::TriggerMeasurementFail(m) => {
                let mut r = String::from_str("Unable to complete measurement trigger: ");
                r.append(m.as_str());
                r
            },
            SpdmHandlerError::NrasError(m) => {
                let mut r = String::from_str("Nras error: ");
                r.append(m.as_str());
                r
            },
            SpdmHandlerError::MissingData { field, machine_id, device_id } => {
                let mut r = String::from_str("Missing values: ");
                r.append(field.as_str());
                r.append(" - ");
                r.append(machine_id.to_string().as_str());
                r.append("/");
                r.append(device_id.as_str());
                r
            },
            SpdmHandlerError::VerifierNotImplemented { module, machine_id, device_id } => {
                let mut r = String::from_str("Verifier not implemented at ");
                r.append(module.as_str());
                r.append(" for: ");
                r.append(machine_id.to_string().as_str());
                r.append("/");
                r.append(device_id.as_str());
                r
            },
            SpdmHandlerError::VerificationFailed(m) => {
                let mut r = String::from_str("Verification Failed: ");
                r.append(m.as_str());
                r
            },
        }
    }
}

/// Outcome of attesting a machine.
#[derive(Clone, Debug, PartialEq, Eq)]
pub enum AttestationStatus {
    Success,
    NotSupported,
    Failure { cause: SpdmHandlerError },
}

/// Kind of a device, as its ID names it.
#[derive(Debug, Clone, Copy, PartialEq, Eq, Structural)]
pub enum DeviceType {
    Gpu,
    Cx7,
    Unknown,
}

/// The kind a device ID names: `GPU` anywhere in it makes a GPU, else
/// `CX7` anywhere in it a CX7; case matters.
pub open spec fn device_type_of(s: Seq<char>) -> DeviceType {
    if occurs_in("GPU"@, s) {
        DeviceType::Gpu
    } else if occurs_in("CX7"@, s) {
        DeviceType::Cx7
    } else {
        DeviceType::Unknown
    }
}

impl DeviceType {
    /// The kind of device the ID `s` names.
    pub fn parse(s: &str) -> (r: DeviceType)
        ensures
            r == device_type_of(s@),
    {
        if str_contains(s, "GPU") {
            DeviceType::Gpu
        } else if str_contains(s, "CX7") {
            DeviceType::Cx7
        } else {
            DeviceType::Unknown
        }
    }
}

impl std::str::FromStr for DeviceType {
    type Err = SpdmHandlerError;

    /// The kind of device the ID `s` names; never fails.
    fn from_str(s: &str) -> (r: Result<Self, Self::Err>)
        ensures
            r matches Ok(t) && t == device_type_of(s@),
    {
        Ok(DeviceType::parse(s))
    }
}

/// A device of a machine, named by the machine's ID and the device's ID.
#[derive(Clone, Debug, PartialEq, Eq)]
pub struct SpdmObjectId_ {
    pub machine_id: MachineId,
    pub device_id: String,
}

/// Why a text is not the text of an SPDM object ID.
#[derive(Debug, Clone)]
pub enum SpdmObjectIdParseError {
    /// The text does not have exactly two comma-separated parts; it holds the text.
    WrongFormat(String),
    /// The first part is not the text of a machine ID.
    MachineIdParsingFailed(MachineIdParseError),
}

/// A device of a machine: the machine's ID and the device's ID.
#[derive(Clone, Debug, PartialEq, Eq, Hash)]
pub struct SpdmObjectId(pub MachineId, pub String);

/// The text of an SPDM object ID: the machine ID's text, a comma, the device ID.
pub open spec fn spdm_object_id_text(machine_id: MachineId, device_id: Seq<char>) -> Seq<char> {
    machine_id_text(machine_id) + seq![','] + device_id
}

/// The machine and device that a text names: it must split at commas into
/// exactly two parts, the first of which is the text of a machine ID.
pub open spec fn spdm_object_id_of_text(s: Seq<char>) -> Option<(MachineId, Seq<char>)> {
    let parts = split_on(s, ',');
    if parts.len() == 2 {
        match parsed_machine_id(parts[0]) {
            Some(id) => Some((id, parts[1])),
            None => None,
        }
    } else {
        None
    }
}

impl SpdmObjectId {
    /// The text of the object ID.
    pub fn to_string(&self) -> (r: String)
        ensures
            r@ == spdm_object_id_text(self.0, self.1@),
    {
        let mut r = self.0.to_string();
        proof {
            reveal_strlit(",");
        }
        r.append(",");
        r.append(self.1.as_str());
        r
    }

    /// Reads an object ID from its text (see `spdm_object_id_of_text`).
    pub fn parse(s: &str) -> (r: Result<SpdmObjectId, SpdmObjectIdParseError>)
        ensures
            match spdm_object_id_of_text(s@) {
                Some((id, device)) => r is Ok && r->Ok_0.0 == id && r->Ok_0.1@ == device,
                None => r is Err,
            },
            r is Err ==> (r->Err_0 is WrongFormat <==> split_on(s@, ',').len() != 2),
            r is Err && r->Err_0 is WrongFormat ==> r->Err_0->WrongFormat_0@ == s@,
            r is Err && r->Err_0 is MachineIdParsingFailed ==> r->Err_0->MachineIdParsingFailed_0.0@
                == split_on(s@, ',')[0],
    {
        let values = split_collect(s, ',');
        if values.len() != 2 {
            return Err(SpdmObjectIdParseError::WrongFormat(s.to_owned()));
        }
        let first: &str = values[0];
        let second: &str = values[1];
        match MachineId::parse(first) {
            Ok(machine_id) => Ok(SpdmObjectId(machine_id, second.to_owned())),
            Err(e) => Err(SpdmObjectIdParseError::MachineIdParsingFailed(e)),
        }
    }
}

impl std::str::FromStr for SpdmObjectId {
    type Err = SpdmObjectIdParseError;

    /// Reads an object ID from its text; see `SpdmObjectId::parse`.
    fn from_str(s: &str) -> (r: Result<Self, Self::Err>)
        ensures
            match spdm_object_id_of_text(s@) {
                Some((id, device)) => r is Ok && r->Ok_0.0 == id && r->Ok_0.1@ == device,
                None => r is Err,
            },
            r is Err ==> (r->Err_0 is WrongFormat <==> split_on(s@, ',').len() != 2),
            r is Err && r->Err_0 is WrongFormat ==> r->Err_0->WrongFormat_0@ == s@,
            r is Err && r->Err_0 is MachineIdParsingFailed ==> r->Err_0->MachineIdParsingFailed_0.0@
                == split_on(s@, ',')[0],
    {
        SpdmObjectId::parse(s)
    }
}

/// Reading the text of an object ID gives back its machine and device,
/// when the device ID has no comma.
pub proof fn lemma_spdm_object_id_round_trip(machine_id: MachineId, device_id: Seq<char>)
    requires
        forall|i: int| 0 <= i < device_id.len() ==> #[trigger] device_id[i] != ',',
    ensures
        spdm_object_id_of_text(spdm_object_id_text(machine_id, device_id)) == Some(
            (machine_id, device_id),
        ),
{
    let t = machine_id_text(machine_id);
    lemma_machine_id_text_chars(machine_id);
    assert forall|i: int| 0 <= i < t.len() implies #[trigger] t[i] != ',' by {
        assert('0' <= t[i] <= '9' || 'a' <= t[i] <= 'z');
    }
    lemma_split_on_first_separator(t, device_id, ',');
    lemma_split_on_first_separator(device_id, Seq::empty(), ',');
    crate::machine::lemma_machine_id_round_trip(machine_id);
}

/// Values fetched from a device during attestation.
#[derive(Clone, Debug, PartialEq, Eq)]
pub struct SpdmMachineDeviceMetadata {
    pub firmware_version: Option<String>,
}

/// A CA certificate as the BMC reports it.
#[derive(Debug, Clone)]
pub struct CaCertificate {
    pub certificate_string: String,
    pub certificate_type: String,
    pub certificate_usage_types: Vec<String>,
    pub id: String,
    pub name: String,
    pub spdm: SlotInfo,
}

/// Evidence collected from a device.
#[derive(Debug, Clone)]
pub struct Evidence {
    pub hashing_algorithm: String,
    pub signed_measurements: String,
    pub signing_algorithm: String,
    pub version: String,
}

/// The SPDM slot a certificate sits in.
#[derive(Debug, Clone)]
pub struct SlotInfo {
    pub slot_id: u16,
}

/// Summary of the attestation of a device.
#[derive(Debug, Clone)]
pub struct SpdmDeviceAttestationDetails {
    pub machine_id: MachineId,
    pub device_id: String,
    pub state: SpdmAttestationState,
    pub started_at: UtcTimestamp,
    pub cancelled_at: Option<UtcTimestamp>,
    pub completed_at: Option<UtcTimestamp>,
}

/// Why the attestation of `device_id` failed, for a failed state.
pub open spec fn failure_cause_text(device_id: Seq<char>, state: SpdmAttestationState) -> Option<
    Seq<char>,
> {
    match state {
        SpdmAttestationState::Failed(msg) => Some(
            "Device: "@ + device_id + ", failed reason: "@ + msg@,
        ),
        _ => None,
    }
}

impl SpdmDeviceAttestationDetails {
    /// The cause of failure, naming the device and the reason, when the
    /// attestation failed; `None` in every other state.
    pub fn get_failure_cause(&self) -> (r: Option<String>)
        ensures
            match failure_cause_text(self.device_id@, self.state) {
                Some(t) => r is Some && r->0@ == t,
                None => r is None,
            },
    {
        if let SpdmAttestationState::Failed(msg) = &self.state {
            let mut r = String::from_str("Device: ");
            r.append(self.device_id.as_str());
            r.append(", failed reason: ");
            r.append(msg.as_str());
            Some(r)
        } else {
            None
        }
    }
}

/// The verifier that checks attestation outcomes with the attestation service.
#[derive(Debug, Default)]
pub struct VerifierImpl {}

} // verus!
