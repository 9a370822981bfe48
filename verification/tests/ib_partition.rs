use std::str::FromStr;

use api_model::errors::ModelError;
use api_model::ib::{IBMtu, IBNetwork, IBRateLimit, IBServiceLevel};
use api_model::ib_partition::{
    state_sla, IbPartitionSlas,
    IBPartition, IBPartitionConfig, IBPartitionControllerState, IBPartitionStatus, PartitionKey,
};
use api_model::ids::{IBPartitionId, TenantOrganizationId};
use api_model::metadata::Labels;

#[test]
fn from_str_parses_each_input() {
    let cases: [(&str, &str, Option<u16>); 17] = [
        ("hex with 0x prefix", "0xf", Some(0x000f)),
        ("decimal of the same value", "15", Some(0x000f)),
        ("zero hex", "0x0", Some(0)),
        ("zero decimal", "0", Some(0)),
        ("max default-partition hex", "0x7fff", Some(0x7fff)),
        ("uppercase hex digits", "0x7ABC", Some(0x7abc)),
        ("uppercase 0X prefix is lowercased first", "0XF", Some(0x000f)),
        ("hex above the valid pkey mask is rejected", "0xffff", None),
        ("decimal above the mask is rejected", "65535", None),
        ("empty string", "", None),
        ("non-numeric text", "nope", None),
        ("decimal overflowing u16", "65536", None),
        ("hex overflowing u16", "0x10000", None),
        ("bare 0x prefix with no digits", "0x", None),
        ("decimal value carrying hex letters", "1f", None),
        ("negative sign rejected", "-1", None),
        ("leading plus accepted as the integer parser does", "+15", Some(0x000f)),
    ];
    for (scenario, input, expect) in cases {
        assert_eq!(PartitionKey::from_str(input).ok().map(u16::from), expect, "{scenario}");
    }
}

#[test]
fn try_from_str_like_inputs_match_from_str() {
    let cases: [(&str, &str, Option<u16>); 3] =
        [("&str hex", "0x20", Some(0x20)), ("&str decimal", "32", Some(0x20)), ("&str malformed", "zz", None)];
    for (scenario, input, expect) in cases {
        assert_eq!(PartitionKey::try_from(input).ok().map(u16::from), expect, "{scenario}");
    }
}

#[test]
fn try_from_owned_and_borrowed_string() {
    let owned: [(&str, String, Option<u16>); 2] = [
        ("owned String hex", "0xab".to_string(), Some(0xab)),
        ("owned String malformed", "bad".to_string(), None),
    ];
    for (scenario, input, expect) in owned {
        assert_eq!(PartitionKey::try_from(input).ok().map(u16::from), expect, "{scenario}");
    }
    let borrowed: [(&str, String, Option<u16>); 2] = [
        ("&String decimal", "171".to_string(), Some(0xab)),
        ("&String malformed", "bad".to_string(), None),
    ];
    for (scenario, input, expect) in borrowed {
        assert_eq!(PartitionKey::try_from(&input).ok().map(u16::from), expect, "{scenario}");
    }
}

#[test]
fn try_from_u16_enforces_the_mask() {
    let cases: [(&str, u16, Option<u16>); 5] = [
        ("zero", 0, Some(0)),
        ("small in-range value", 0x000f, Some(0x000f)),
        ("max valid (default partition)", 0x7fff, Some(0x7fff)),
        ("first value past the mask", 0x8000, None),
        ("u16 max has the high bit set", 0xffff, None),
    ];
    for (scenario, input, expect) in cases {
        assert_eq!(PartitionKey::try_from(input).ok().map(u16::from), expect, "{scenario}");
    }
}

#[test]
fn try_from_u16_error_names_the_number() {
    let err = PartitionKey::try_from(0x8000u16).err().unwrap();
    assert_eq!(err.to_string(), "Partition Key \"32768\" is not valid");
}

#[test]
fn display_renders_lowercase_hex_with_prefix() {
    let cases: [(&str, u16, &str); 4] = [
        ("zero", 0, "0x0"),
        ("single hex digit", 0x000f, "0xf"),
        ("multi-digit lowercased", 0x00ab, "0xab"),
        ("default partition key", 0x7fff, "0x7fff"),
    ];
    for (scenario, input, expect) in cases {
        assert_eq!(PartitionKey::try_from(input).unwrap().to_string(), expect.to_string(), "{scenario}");
    }
}

#[test]
fn for_default_partition_is_0x7fff() {
    assert_eq!(u16::from(PartitionKey::for_default_partition()), 0x7fff);
}

#[test]
fn is_default_partition_predicate() {
    let cases: [(&str, u16, bool); 4] = [
        ("the default key", 0x7fff, true),
        ("zero is not default", 0, false),
        ("an ordinary key is not default", 0x000f, false),
        ("one below default", 0x7ffe, false),
    ];
    for (scenario, input, expect) in cases {
        assert_eq!(PartitionKey::try_from(input).unwrap().is_default_partition(), expect, "{scenario}");
    }
}

#[test]
fn parse_then_display_round_trips_to_canonical_hex() {
    let cases: [(&str, &str, &str); 3] = [
        ("decimal normalizes to hex", "15", "0xf"),
        ("hex stays hex", "0xf", "0xf"),
        ("uppercase folds to lowercase", "0x7ABC", "0x7abc"),
    ];
    for (scenario, input, expect) in cases {
        assert_eq!(
            PartitionKey::from_str(input).ok().map(|p| p.to_string()),
            Some(expect.to_string()),
            "{scenario}"
        );
    }
}

#[test]
fn every_valid_key_round_trips_through_its_text() {
    for v in [0u16, 1, 9, 10, 15, 16, 255, 0x1234, 0x7ffe, 0x7fff] {
        let key = PartitionKey::try_from(v).unwrap();
        let text = key.to_string();
        assert_eq!(PartitionKey::from_str(&text).ok(), Some(key), "{text}");
    }
}

fn partition(
    pkey: Option<i32>,
    mtu: i32,
    rate_limit: i32,
    service_level: i32,
    status: Option<IBPartitionStatus>,
) -> Result<IBPartition, ModelError> {
    IBPartition::from_columns(
        IBPartitionId(uuid::Uuid::nil()),
        "V1-T1670906498000000".to_string(),
        "part-1".to_string(),
        "a partition".to_string(),
        Labels::new(),
        pkey,
        TenantOrganizationId("org".to_string()),
        mtu,
        rate_limit,
        service_level,
        status,
        None,
        IBPartitionControllerState::Ready,
        "V2-T1670906498000000".to_string(),
        None,
    )
}

#[test]
fn stored_partition_columns_are_read_back() {
    let ib = partition(Some(0x10), 2, 100, 3, None).unwrap();
    assert_eq!(ib.config.name, "part-1");
    assert_eq!(ib.metadata.name, "part-1");
    assert_eq!(ib.metadata.description, "a partition");
    assert_eq!(ib.config.pkey.map(u16::from), Some(0x10));
    assert_eq!(ib.config.mtu, Some(IBMtu(2)));
    assert_eq!(ib.config.rate_limit, Some(IBRateLimit(100)));
    assert_eq!(ib.config.service_level, Some(IBServiceLevel(3)));
    assert!(!ib.is_marked_as_deleted());
    assert_eq!(ib.version, "V1-T1670906498000000");
    assert_eq!(ib.controller_state_version, "V2-T1670906498000000");
    assert_eq!(ib.controller_state_outcome, None);
}

#[test]
fn stored_invalid_qos_values_are_dropped() {
    let ib = partition(None, 3, 7, 16, None).unwrap();
    assert_eq!(ib.config.pkey, None);
    assert_eq!(ib.config.mtu, None);
    assert_eq!(ib.config.rate_limit, None);
    assert_eq!(ib.config.service_level, None);
}

#[test]
fn stored_pkey_keeps_its_low_16_bits() {
    let ib = partition(Some(0x10005), 4, 200, 0, None).unwrap();
    assert_eq!(ib.config.pkey.map(u16::from), Some(5));
}

#[test]
fn stored_invalid_pkey_is_an_error() {
    match partition(Some(0x8000), 4, 200, 0, None) {
        Err(ModelError::DatabaseTypeConversionError(m)) => assert_eq!(m, "Pkey 32768 is not valid"),
        other => panic!("unexpected {:?}", other.map(|p| p.config)),
    }
    match partition(Some(-1), 4, 200, 0, None) {
        Err(ModelError::DatabaseTypeConversionError(m)) => assert_eq!(m, "Pkey -1 is not valid"),
        other => panic!("unexpected {:?}", other.map(|p| p.config)),
    }
}

#[test]
fn network_of_partition_uses_fabric_pkey_and_qos_defaults() {
    let ib = partition(Some(0x10), 4, 300, 16, None).unwrap();
    let net = IBNetwork::from(&ib);
    assert_eq!(net.name, "part-1");
    assert_eq!(net.pkey, 0);
    assert!(net.ipoib);
    assert!(net.associated_guids.is_none());
    assert!(net.membership.is_none());
    let qos = net.qos_conf.unwrap();
    assert_eq!(qos.mtu, IBMtu(4));
    assert_eq!(qos.rate_limit, IBRateLimit(300));
    assert_eq!(qos.service_level, IBServiceLevel(0));

    let status = IBPartitionStatus {
        partition: None,
        mtu: None,
        rate_limit: None,
        service_level: None,
        pkey: Some(PartitionKey::try_from(0x22u16).unwrap()),
    };
    let ib = partition(None, 2, 5, 1, Some(status)).unwrap();
    let net = IBNetwork::from(&ib);
    assert_eq!(net.pkey, 0x22);
    let qos = net.qos_conf.unwrap();
    assert_eq!(qos.mtu, IBMtu(2));
    assert_eq!(qos.rate_limit, IBRateLimit(5));
    assert_eq!(qos.service_level, IBServiceLevel(1));
}

#[test]
fn config_from_columns_matches_partition() {
    let c = IBPartitionConfig::from_columns(
        "n".to_string(),
        Some(7),
        TenantOrganizationId("t".to_string()),
        2,
        2,
        15,
    )
    .unwrap();
    assert_eq!(c.pkey.map(u16::from), Some(7));
    assert_eq!(c.rate_limit, Some(IBRateLimit(2)));
}

#[test]
fn partition_sla_applies_to_provisioning_and_deleting() {
    let slas = IbPartitionSlas { provisioning: 120, deleting: 240 };
    let t = 200u128 * 1_000_000_000;
    let r = state_sla(&IBPartitionControllerState::Provisioning, t, &slas);
    assert_eq!((r.sla, r.time_in_state_above_sla), (Some(120), true));
    let r = state_sla(&IBPartitionControllerState::Deleting, t, &slas);
    assert_eq!((r.sla, r.time_in_state_above_sla), (Some(240), false));
    let r = state_sla(&IBPartitionControllerState::Ready, t, &slas);
    assert_eq!((r.sla, r.time_in_state_above_sla), (None, false));
    let r = state_sla(&IBPartitionControllerState::Error { cause: "x".to_string() }, t, &slas);
    assert_eq!((r.sla, r.time_in_state_above_sla), (None, false));
}
