//! Types of `std` and of outside crates that the model carries through
//! unchanged: identifiers, timestamps and network addresses.
use vstd::prelude::*;

verus! {

/// `uuid::Uuid`, the 128-bit identifier behind every resource id.
#[verifier::external_type_specification]
#[verifier::external_body]
pub struct ExUuid(uuid::Uuid);

/// `core::net::IpAddr`, an IPv4 or IPv6 address.
#[verifier::external_type_specification]
#[verifier::external_body]
pub struct ExIpAddr(core::net::IpAddr);

/// `ipnetwork::IpNetwork`, an IPv4 or IPv6 prefix in CIDR notation.
#[verifier::external_type_specification]
#[verifier::external_body]
pub struct ExIpNetwork(ipnetwork::IpNetwork);

/// `Clone` of `IpAddr`, which std derives on a `Copy` type: the clone is
/// the same address.
pub assume_specification[ <core::net::IpAddr as Clone>::clone ](a: &core::net::IpAddr) -> (r: core::net::IpAddr)
    ensures
        r == *a,
;

/// `Clone` of `IpNetwork`, which the crate derives on a `Copy` type: the
/// clone is the same network.
pub assume_specification[ <ipnetwork::IpNetwork as Clone>::clone ](a: &ipnetwork::IpNetwork) -> (r: ipnetwork::IpNetwork)
    ensures
        r == *a,
;

} // verus!
