use std::str::FromStr;

use api_model::ids::MachineValidationId;
use api_model::machine::{MachineId, MachineIdSource, MachineType};
use api_model::machine_validation::{
    MachineValidation, MachineValidationState, MachineValidationStatus, VariantParseError,
};

const ALL: [MachineValidationState; 5] = [
    MachineValidationState::Started,
    MachineValidationState::InProgress,
    MachineValidationState::Success,
    MachineValidationState::Skipped,
    MachineValidationState::Failed,
];

#[test]
fn state_from_str_parses_every_variant_and_rejects_the_rest() {
    let cases: [(&str, &str, Option<MachineValidationState>); 12] = [
        ("Started", "Started", Some(MachineValidationState::Started)),
        ("InProgress", "InProgress", Some(MachineValidationState::InProgress)),
        ("Success", "Success", Some(MachineValidationState::Success)),
        ("Skipped", "Skipped", Some(MachineValidationState::Skipped)),
        ("Failed", "Failed", Some(MachineValidationState::Failed)),
        ("empty string", "", None),
        ("unknown variant", "Pending", None),
        ("lowercase is not accepted", "started", None),
        ("uppercase is not accepted", "SUCCESS", None),
        ("leading whitespace is not trimmed", " Started", None),
        ("trailing whitespace is not trimmed", "Failed ", None),
        ("numeric input", "0", None),
    ];
    for (scenario, input, expect) in cases {
        assert_eq!(MachineValidationState::from_str(input).ok(), expect, "{scenario}");
    }
}

#[test]
fn state_parse_error_is_variant_not_found() {
    let err = MachineValidationState::from_str("Pending").err().unwrap();
    assert!(matches!(err, VariantParseError::VariantNotFound));
    assert_eq!(err.to_string(), "Matching variant not found");
}

#[test]
fn state_display_renders_the_variant_name() {
    let names = ["Started", "InProgress", "Success", "Skipped", "Failed"];
    for (state, name) in ALL.iter().zip(names) {
        assert_eq!(state.to_string(), name.to_string(), "{name}");
    }
}

#[test]
fn state_display_round_trips_through_from_str() {
    for state in ALL {
        assert_eq!(MachineValidationState::from_str(&state.to_string()).ok(), Some(state.clone()), "{state:?}");
    }
}

#[test]
fn state_default_is_started() {
    assert_eq!(MachineValidationState::default(), MachineValidationState::Started, "default state");
}

#[test]
fn status_default_is_started_with_zero_counts() {
    let explicit = MachineValidationStatus { state: MachineValidationState::Started, total: 0, completed: 0 };
    assert_eq!(MachineValidationStatus::default(), explicit, "default state is Started");
    assert_eq!(explicit, MachineValidationStatus::default(), "matches an explicitly built default");
}

#[test]
fn status_equality_distinguishes_each_field() {
    let base = MachineValidationStatus { state: MachineValidationState::InProgress, total: 10, completed: 4 };
    let cases: [(&str, MachineValidationStatus, bool); 4] = [
        (
            "identical is equal",
            MachineValidationStatus { state: MachineValidationState::InProgress, total: 10, completed: 4 },
            true,
        ),
        (
            "differing state is unequal",
            MachineValidationStatus { state: MachineValidationState::Success, total: 10, completed: 4 },
            false,
        ),
        (
            "differing total is unequal",
            MachineValidationStatus { state: MachineValidationState::InProgress, total: 11, completed: 4 },
            false,
        ),
        (
            "differing completed is unequal",
            MachineValidationStatus { state: MachineValidationState::InProgress, total: 10, completed: 5 },
            false,
        ),
    ];
    for (scenario, input, expect) in cases {
        assert_eq!(input == base, expect, "{scenario}");
    }
}

#[test]
fn stored_status_with_unknown_state_counts_as_success() {
    let s = MachineValidationStatus::from_columns("Bogus", 3, 1);
    assert_eq!(s, MachineValidationStatus { state: MachineValidationState::Success, total: 3, completed: 1 });
    let s = MachineValidationStatus::from_columns("InProgress", 3, 1);
    assert_eq!(s.state, MachineValidationState::InProgress);
}

#[test]
fn stored_run_carries_its_status() {
    let run = MachineValidation::from_columns(
        MachineValidationId(uuid::Uuid::nil()),
        MachineId::new(MachineIdSource::Tpm, [1u8; 32], MachineType::Host),
        "discovery".to_string(),
        None,
        None,
        Some(r#"{"machine_ids":[]}"#.to_string()),
        Some("Discovery".to_string()),
        "Failed",
        5,
        5,
        42,
    );
    assert_eq!(run.status, Some(MachineValidationStatus { state: MachineValidationState::Failed, total: 5, completed: 5 }));
    assert_eq!(run.duration_to_complete, 42);
    assert_eq!(run.name, "discovery");
    assert_eq!(run.filter.as_deref(), Some(r#"{"machine_ids":[]}"#));
}
