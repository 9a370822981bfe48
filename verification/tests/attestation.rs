use api_model::attestation::spdm::{
    DeviceType, SpdmAttestationState, SpdmDeviceAttestation, SpdmDeviceAttestationDetails,
    SpdmHandlerError, SpdmObjectId, SpdmObjectIdParseError,
};
use api_model::ids::UtcTimestamp;
use api_model::machine::{MachineId, MachineIdSource, MachineType};

// A valid serialized MachineId, reused across rows.
const VALID_MACHINE_ID: &str = "fm100htv4fu8fpktl0e0qrg4dl58g2bc2g7naq0l6c15ruc22po1i5rfsq0";

fn machine_id() -> MachineId {
    MachineId::parse(VALID_MACHINE_ID).expect("valid machine id")
}

#[test]
fn spdm_object_id_round_trips() {
    let spdm_object_id = SpdmObjectId(machine_id(), "Device-1".to_string());

    let expected_str = format!("{VALID_MACHINE_ID},Device-1");
    assert_eq!(expected_str, spdm_object_id.to_string());

    let parsed_object_id: SpdmObjectId = spdm_object_id.to_string().parse().unwrap();
    assert_eq!(parsed_object_id, spdm_object_id);
}

#[test]
fn spdm_object_id_display() {
    let cases: [(&str, SpdmObjectId, String); 4] = [
        ("simple device id", SpdmObjectId(machine_id(), "Device-1".to_string()), format!("{VALID_MACHINE_ID},Device-1")),
        ("empty device id", SpdmObjectId(machine_id(), String::new()), format!("{VALID_MACHINE_ID},")),
        ("device id with internal comma", SpdmObjectId(machine_id(), "a,b".to_string()), format!("{VALID_MACHINE_ID},a,b")),
        (
            "device id with spaces",
            SpdmObjectId(machine_id(), "HGX IRoT GPU 0".to_string()),
            format!("{VALID_MACHINE_ID},HGX IRoT GPU 0"),
        ),
    ];
    for (scenario, input, expect) in cases {
        assert_eq!(input.to_string(), expect, "{scenario}");
    }
}

#[test]
fn spdm_object_id_from_str() {
    let cases: [(&str, String, Option<SpdmObjectId>); 7] = [
        (
            "valid two parts",
            format!("{VALID_MACHINE_ID},Device-1"),
            Some(SpdmObjectId(machine_id(), "Device-1".to_string())),
        ),
        ("valid with empty device id", format!("{VALID_MACHINE_ID},"), Some(SpdmObjectId(machine_id(), String::new()))),
        ("no comma is wrong format", VALID_MACHINE_ID.to_string(), None),
        ("empty string is wrong format", String::new(), None),
        ("three parts is wrong format", format!("{VALID_MACHINE_ID},Device-1,extra"), None),
        // two parts ("" and ""), but the first fails to parse as MachineId
        ("only a comma is wrong format", ",".to_string(), None),
        ("bad machine id", "not-a-machine-id,Device-1".to_string(), None),
    ];
    for (scenario, input, expect) in cases {
        assert_eq!(input.parse::<SpdmObjectId>().ok(), expect, "{scenario}");
    }
}

#[test]
fn spdm_object_id_parse_errors_say_which_part_failed() {
    match SpdmObjectId::parse("a,b,c") {
        Err(SpdmObjectIdParseError::WrongFormat(s)) => assert_eq!(s, "a,b,c"),
        other => panic!("unexpected {other:?}"),
    }
    match SpdmObjectId::parse("not-a-machine-id,Device-1") {
        Err(SpdmObjectIdParseError::MachineIdParsingFailed(e)) => assert_eq!(e.0, "not-a-machine-id"),
        other => panic!("unexpected {other:?}"),
    }
}

#[test]
fn device_type_from_str() {
    let cases: [(&str, &str, &str); 10] = [
        ("gpu token present", "HGX_IRoT_GPU_0", "Gpu"),
        ("gpu token bare", "GPU", "Gpu"),
        ("cx7 token present", "HGX_ERoT_CX7_1", "Cx7"),
        ("cx7 token bare", "CX7", "Cx7"),
        ("gpu wins when both present (checked first)", "GPU_CX7", "Gpu"),
        ("cpu is unknown", "HGX_ERoT_CPU_0", "Unknown"),
        ("bmc is unknown", "BMC", "Unknown"),
        ("empty is unknown", "", "Unknown"),
        ("lowercase gpu does not match (case sensitive)", "gpu", "Unknown"),
        ("lowercase cx7 does not match (case sensitive)", "cx7", "Unknown"),
    ];
    for (scenario, input, expect) in cases {
        let parsed = format!("{:?}", input.parse::<DeviceType>().expect("never errors"));
        assert_eq!(parsed, expect.to_string(), "{scenario}");
    }
}

fn now() -> UtcTimestamp {
    UtcTimestamp { unix_seconds: 1_700_000_000, nanoseconds: 0 }
}

fn details_with_state(state: SpdmAttestationState) -> SpdmDeviceAttestationDetails {
    SpdmDeviceAttestationDetails {
        machine_id: machine_id(),
        device_id: "GPU_0".to_string(),
        state,
        started_at: now(),
        cancelled_at: None,
        completed_at: None,
    }
}

#[test]
fn get_failure_cause() {
    let cases: [(&str, SpdmAttestationState, Option<String>); 10] = [
        (
            "failed state yields a cause naming device and reason",
            SpdmAttestationState::Failed("signature mismatch".to_string()),
            Some("Device: GPU_0, failed reason: signature mismatch".to_string()),
        ),
        (
            "failed with empty reason",
            SpdmAttestationState::Failed(String::new()),
            Some("Device: GPU_0, failed reason: ".to_string()),
        ),
        ("passed state has no cause", SpdmAttestationState::Passed, None),
        ("cancelled state has no cause", SpdmAttestationState::Cancelled, None),
        ("fetch metadata state has no cause", SpdmAttestationState::FetchMetadata, None),
        ("fetch certificate state has no cause", SpdmAttestationState::FetchCertificate, None),
        (
            "trigger evidence collection state has no cause",
            SpdmAttestationState::TriggerEvidenceCollection { retry_count: 0 },
            None,
        ),
        (
            "poll evidence collection state has no cause",
            SpdmAttestationState::PollEvidenceCollection { task_id: "t1".to_string(), retry_count: 2 },
            None,
        ),
        ("nras verification state has no cause", SpdmAttestationState::NrasVerification, None),
        ("apply appraisal policy state has no cause", SpdmAttestationState::ApplyAppraisalPolicy, None),
    ];
    for (scenario, state, expect) in cases {
        assert_eq!(details_with_state(state).get_failure_cause(), expect, "{scenario}");
    }
}

#[test]
fn nonce_hex_is_the_hex_sha256_of_the_nonce() {
    let attestation = SpdmDeviceAttestation {
        machine_id: MachineId::new(MachineIdSource::Tpm, [7u8; 32], MachineType::Dpu),
        device_id: "HGX_IRoT_GPU_0".to_string(),
        bmc_info: "{}".to_string(),
        nonce: [0u8; 16],
        state: SpdmAttestationState::FetchMetadata,
        state_version: "V1-T1".to_string(),
        state_outcome: None,
        metadata: None,
        ca_certificate_link: None,
        ca_certificate: None,
        evidence_target: None,
        evidence: None,
        started_at: now(),
        cancelled_at: None,
        completed_at: None,
    };
    // SHA-256 of sixteen zero bytes.
    assert_eq!(attestation.nonce_hex(), "374708fff7719dd5979ec875d56cd2286f6d3cf7ec317a3b25632aab28ec37bb");
}

#[test]
fn handler_error_messages() {
    let id = machine_id();
    assert_eq!(SpdmHandlerError::NrasError("boom".to_string()).to_string(), "Nras error: boom");
    assert_eq!(
        SpdmHandlerError::TriggerMeasurementFail("x".to_string()).to_string(),
        "Unable to complete measurement trigger: x"
    );
    assert_eq!(
        SpdmHandlerError::MissingData { field: "nonce".to_string(), machine_id: id, device_id: "GPU_0".to_string() }
            .to_string(),
        format!("Missing values: nonce - {VALID_MACHINE_ID}/GPU_0")
    );
    assert_eq!(
        SpdmHandlerError::VerifierNotImplemented {
            module: "cx7".to_string(),
            machine_id: id,
            device_id: "CX7_0".to_string()
        }
        .to_string(),
        format!("Verifier not implemented at cx7 for: {VALID_MACHINE_ID}/CX7_0")
    );
    assert_eq!(SpdmHandlerError::VerificationFailed("bad".to_string()).to_string(), "Verification Failed: bad");
}
