//! How an IP address came to be allocated to a machine interface.
use vstd::prelude::*;

verus! {

/// How an address is chosen for a machine interface.
#[derive(Debug, Clone, Copy, PartialEq, Eq)]
pub enum AddressSelectionStrategy {
    /// The next free address of the segment's prefix.
    NextAvailableIp,
    /// The address the allocator picks; the same as `NextAvailableIp`.
    Automatic,
    /// The next free prefix of the given length.
    NextAvailablePrefix(u8),
    /// An address the operator fixed.
    StaticAddress(core::net::IpAddr),
}

/// Distinguishes how an IP address was allocated to a machine interface,
/// and are generally derived from the AddressSelectionStrategy used.
///
/// - `Dhcp`: These addresses allocated and managed by carbide-dhcp,
///   or a DHCP service that integrates directly with carbide-api.
/// - `Static`: These addresses are assigned and managed explicitly by
///   an operator or operator-provided configuration.
#[derive(Debug, Clone, Copy, PartialEq, Eq, Structural)]
pub enum AllocationType {
    Dhcp,
    Static,
}

/// The allocation type a strategy leads to: a fixed address is static,
/// every other strategy hands out addresses over DHCP.
pub open spec fn allocation_type_of(strategy: AddressSelectionStrategy) -> AllocationType {
    match strategy {
        AddressSelectionStrategy::StaticAddress(_) => AllocationType::Static,
        _ => AllocationType::Dhcp,
    }
}

impl From<AddressSelectionStrategy> for AllocationType {
    fn from(strategy: AddressSelectionStrategy) -> (r: Self)
        ensures
            r == allocation_type_of(strategy),
    {
        match strategy {
            AddressSelectionStrategy::NextAvailableIp => AllocationType::Dhcp,
            AddressSelectionStrategy::Automatic => AllocationType::Dhcp,
            AddressSelectionStrategy::NextAvailablePrefix(_) => AllocationType::Dhcp,
            AddressSelectionStrategy::StaticAddress(_) => AllocationType::Static,
        }
    }
}

impl vstd::std_specs::convert::FromSpecImpl<AddressSelectionStrategy> for AllocationType {
    open spec fn obeys_from_spec() -> bool {
        true
    }

    open spec fn from_spec(strategy: AddressSelectionStrategy) -> AllocationType {
        allocation_type_of(strategy)
    }
}

/// The result of assigning a static address, indicating what
/// previously existed for that address family on the interface.
#[derive(Debug, Clone, Copy, PartialEq, Eq, Structural)]
pub enum AssignStaticResult {
    /// No prior address existed for this family.
    Assigned,
    /// An existing static address was replaced.
    ReplacedStatic,
    /// An existing DHCP allocation was replaced.
    ///
    /// Replacing a DHCP allocation with the same address makes a static
    /// DHCP reservation, which changes nothing on the wire. Replacing it
    /// with another address of a managed network has the client pick the
    /// new address up at its next renewal, at worst after one more
    /// discovery. Replacing it with an address outside the managed networks
    /// frees the old address for re-assignment at once, so until the device
    /// renews, two devices may hold the same address.
    ReplacedDhcp,
}

/// Only the kind of strategy decides the allocation type, never the prefix
/// length or address it carries.
pub proof fn lemma_allocation_type_ignores_payload(a: AddressSelectionStrategy, b: AddressSelectionStrategy)
    requires
        (a is StaticAddress) == (b is StaticAddress),
    ensures
        allocation_type_of(a) == allocation_type_of(b),
{
}

} // verus!
