use api_model::errors::ModelError;
use api_model::ib::{IBMtu, IBPortMembership, IBPortState, IBRateLimit, IBServiceLevel};

#[test]
fn port_membership_to_string() {
    assert_eq!(IBPortMembership::Full.to_string(), "full".to_string(), "full");
    assert_eq!(IBPortMembership::Limited.to_string(), "limited".to_string(), "limited");
}

#[test]
fn port_state_try_from_str() {
    let cases: [(&str, &str, Option<IBPortState>); 11] = [
        ("active", "active", Some(IBPortState::Active)),
        ("down", "down", Some(IBPortState::Down)),
        ("initialize", "initialize", Some(IBPortState::Initialize)),
        ("armed", "armed", Some(IBPortState::Armed)),
        ("uppercase is lowercased", "ACTIVE", Some(IBPortState::Active)),
        ("mixed case", "ArMeD", Some(IBPortState::Armed)),
        ("surrounding whitespace is trimmed", "  down  ", Some(IBPortState::Down)),
        ("empty string", "", None),
        ("whitespace only", "   ", None),
        ("unknown word", "sleeping", None),
        ("near miss", "actives", None),
    ];
    for (scenario, input, expect) in cases {
        assert_eq!(IBPortState::try_from(input).ok(), expect, "{scenario}");
    }
}

#[test]
fn port_state_try_from_string() {
    let cases: [(&str, String, Option<IBPortState>); 3] = [
        ("active", "active".to_string(), Some(IBPortState::Active)),
        ("trimmed and lowercased", " Initialize ".to_string(), Some(IBPortState::Initialize)),
        ("invalid", "bogus".to_string(), None),
    ];
    for (scenario, input, expect) in cases {
        assert_eq!(IBPortState::try_from(input).ok(), expect, "{scenario}");
    }
}

#[test]
fn port_state_error_names_the_input() {
    match IBPortState::try_from("sleeping") {
        Err(ModelError::InvalidArgument(m)) => assert!(m.contains("sleeping"), "{m}"),
        other => panic!("unexpected {other:?}"),
    }
}

#[test]
fn mtu_default_is_4() {
    assert_eq!(IBMtu::default(), IBMtu(4), "default mtu");
}

#[test]
fn mtu_try_from_i32() {
    let cases: [(&str, i32, Option<IBMtu>); 7] = [
        ("2k", 2, Some(IBMtu(2))),
        ("4k", 4, Some(IBMtu(4))),
        ("zero", 0, None),
        ("one", 1, None),
        ("three between valid values", 3, None),
        ("negative", -2, None),
        ("large", 4096, None),
    ];
    for (scenario, input, expect) in cases {
        assert_eq!(IBMtu::try_from(input).ok(), expect, "{scenario}");
    }
}

#[test]
fn mtu_error_message_is_exact() {
    match IBMtu::try_from(-2) {
        Err(ModelError::InvalidArgument(m)) => assert_eq!(m, "-2 is an invalid MTU"),
        other => panic!("unexpected {other:?}"),
    }
}

#[test]
fn mtu_into_i32() {
    assert_eq!(i32::from(IBMtu(2)), 2, "2k");
    assert_eq!(i32::from(IBMtu(4)), 4, "4k");
}

#[test]
fn rate_limit_default_is_200() {
    assert_eq!(IBRateLimit::default(), IBRateLimit(200), "default rate limit");
}

#[test]
fn rate_limit_try_from_i32() {
    let valid = [2, 5, 10, 14, 20, 25, 30, 40, 56, 60, 80, 100, 112, 120, 168, 200, 300];
    for v in valid {
        assert_eq!(IBRateLimit::try_from(v).ok(), Some(IBRateLimit(v)), "{v}");
    }
    let invalid: [(&str, i32); 5] = [
        ("zero", 0),
        ("one", 1),
        ("three is not a valid rate", 3),
        ("negative", -200),
        ("unsupported large", 400),
    ];
    for (scenario, v) in invalid {
        assert_eq!(IBRateLimit::try_from(v).ok(), None, "{scenario}");
    }
}

#[test]
fn rate_limit_into_i32() {
    assert_eq!(i32::from(IBRateLimit(200)), 200, "200");
    assert_eq!(i32::from(IBRateLimit(2)), 2, "sdr sentinel");
}

#[test]
fn service_level_default_is_0() {
    assert_eq!(IBServiceLevel::default(), IBServiceLevel(0), "default service level");
}

#[test]
fn service_level_try_from_i32() {
    let cases: [(&str, i32, Option<IBServiceLevel>); 6] = [
        ("lower bound 0", 0, Some(IBServiceLevel(0))),
        ("mid 7", 7, Some(IBServiceLevel(7))),
        ("upper bound 15", 15, Some(IBServiceLevel(15))),
        ("just past upper bound", 16, None),
        ("negative below lower bound", -1, None),
        ("large", 1000, None),
    ];
    for (scenario, input, expect) in cases {
        assert_eq!(IBServiceLevel::try_from(input).ok(), expect, "{scenario}");
    }
}

#[test]
fn service_level_into_i32() {
    assert_eq!(i32::from(IBServiceLevel(0)), 0, "0");
    assert_eq!(i32::from(IBServiceLevel(15)), 15, "15");
}

#[test]
fn qos_defaults_are_accepted_values() {
    assert_eq!(IBMtu::try_from(i32::from(IBMtu::default())).ok(), Some(IBMtu::default()));
    assert_eq!(IBRateLimit::try_from(i32::from(IBRateLimit::default())).ok(), Some(IBRateLimit::default()));
    assert_eq!(IBServiceLevel::try_from(i32::from(IBServiceLevel::default())).ok(), Some(IBServiceLevel::default()));
}

#[test]
fn port_state_depends_only_on_the_normalized_word() {
    for (a, b) in [("  ArMeD ", "armed"), ("DOWN", "down"), ("\tInitialize\n", "initialize"), ("Bogus", "bogus")] {
        assert_eq!(IBPortState::try_from(a).ok(), IBPortState::try_from(b).ok(), "{a:?}");
    }
}

#[test]
fn error_messages_render_numbers_in_decimal() {
    match IBMtu::try_from(i32::MIN) {
        Err(ModelError::InvalidArgument(m)) => assert_eq!(m, "-2147483648 is an invalid MTU"),
        other => panic!("unexpected {other:?}"),
    }
    match IBServiceLevel::try_from(1000) {
        Err(ModelError::InvalidArgument(m)) => assert_eq!(m, "1000 is an invalid service level"),
        other => panic!("unexpected {other:?}"),
    }
    match IBRateLimit::try_from(0) {
        Err(ModelError::InvalidArgument(m)) => assert_eq!(m, "0 is an invalid rate limit"),
        other => panic!("unexpected {other:?}"),
    }
}
