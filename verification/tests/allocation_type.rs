use api_model::allocation_type::{AddressSelectionStrategy, AllocationType, AssignStaticResult};

#[test]
fn strategy_maps_to_allocation_type() {
    let cases: [(&str, AddressSelectionStrategy, AllocationType); 13] = [
        ("next available ip -> dhcp", AddressSelectionStrategy::NextAvailableIp, AllocationType::Dhcp),
        ("automatic alias -> dhcp", AddressSelectionStrategy::Automatic, AllocationType::Dhcp),
        ("next available prefix /30 -> dhcp", AddressSelectionStrategy::NextAvailablePrefix(30), AllocationType::Dhcp),
        (
            "next available prefix /0 (boundary low) -> dhcp",
            AddressSelectionStrategy::NextAvailablePrefix(0),
            AllocationType::Dhcp,
        ),
        ("next available prefix /32 -> dhcp", AddressSelectionStrategy::NextAvailablePrefix(32), AllocationType::Dhcp),
        ("next available prefix /128 -> dhcp", AddressSelectionStrategy::NextAvailablePrefix(128), AllocationType::Dhcp),
        (
            "next available prefix /255 (boundary high) -> dhcp",
            AddressSelectionStrategy::NextAvailablePrefix(u8::MAX),
            AllocationType::Dhcp,
        ),
        (
            "static ipv4 -> static",
            AddressSelectionStrategy::StaticAddress("10.0.0.1".parse().unwrap()),
            AllocationType::Static,
        ),
        (
            "static ipv4 unspecified (0.0.0.0) -> static",
            AddressSelectionStrategy::StaticAddress("0.0.0.0".parse().unwrap()),
            AllocationType::Static,
        ),
        (
            "static ipv4 broadcast (255.255.255.255) -> static",
            AddressSelectionStrategy::StaticAddress("255.255.255.255".parse().unwrap()),
            AllocationType::Static,
        ),
        (
            "static ipv6 -> static",
            AddressSelectionStrategy::StaticAddress("fd00::1".parse().unwrap()),
            AllocationType::Static,
        ),
        (
            "static ipv6 unspecified (::) -> static",
            AddressSelectionStrategy::StaticAddress("::".parse().unwrap()),
            AllocationType::Static,
        ),
        (
            "static ipv6 localhost (::1) -> static",
            AddressSelectionStrategy::StaticAddress("::1".parse().unwrap()),
            AllocationType::Static,
        ),
    ];
    for (scenario, input, expect) in cases {
        assert_eq!(AllocationType::from(input), expect, "{scenario}");
    }
}

#[test]
fn variants_compare_by_identity() {
    let cases: [(&str, AllocationType, AllocationType, bool); 3] = [
        ("dhcp == dhcp", AllocationType::Dhcp, AllocationType::Dhcp, true),
        ("static == static", AllocationType::Static, AllocationType::Static, true),
        ("dhcp != static", AllocationType::Dhcp, AllocationType::Static, false),
    ];
    for (scenario, left, right, expect) in cases {
        assert_eq!(left == right, expect, "{scenario}");
    }
    let cases: [(&str, AssignStaticResult, AssignStaticResult, bool); 6] = [
        ("assigned == assigned", AssignStaticResult::Assigned, AssignStaticResult::Assigned, true),
        ("replaced static == replaced static", AssignStaticResult::ReplacedStatic, AssignStaticResult::ReplacedStatic, true),
        ("replaced dhcp == replaced dhcp", AssignStaticResult::ReplacedDhcp, AssignStaticResult::ReplacedDhcp, true),
        ("assigned != replaced static", AssignStaticResult::Assigned, AssignStaticResult::ReplacedStatic, false),
        ("replaced static != replaced dhcp", AssignStaticResult::ReplacedStatic, AssignStaticResult::ReplacedDhcp, false),
        ("assigned != replaced dhcp", AssignStaticResult::Assigned, AssignStaticResult::ReplacedDhcp, false),
    ];
    for (scenario, left, right, expect) in cases {
        assert_eq!(left == right, expect, "{scenario}");
    }
}
