//! Identifiers of managed resources, and timestamps.
use vstd::prelude::*;

verus! {

/// Identifier of a network segment.
#[derive(Debug, Clone, Copy, PartialEq, Eq, Hash)]
pub struct NetworkSegmentId(pub uuid::Uuid);

/// Identifier of a DNS domain.
#[derive(Debug, Clone, Copy, PartialEq, Eq, Hash)]
pub struct DomainId(pub uuid::Uuid);

/// Identifier of a VPC.
#[derive(Debug, Clone, Copy, PartialEq, Eq, Hash)]
pub struct VpcId(pub uuid::Uuid);

/// Identifier of an InfiniBand partition.
#[derive(Debug, Clone, Copy, PartialEq, Eq, Hash)]
pub struct IBPartitionId(pub uuid::Uuid);

/// Identifier of a machine validation run.
#[derive(Debug, Clone, Copy, PartialEq, Eq, Hash)]
pub struct MachineValidationId(pub uuid::Uuid);

/// Organization of a tenant.
#[derive(Debug, Clone, PartialEq, Eq, Hash)]
pub struct TenantOrganizationId(pub String);

/// A point in time in UTC: whole seconds since the Unix epoch, and the
/// nanoseconds within that second.
#[derive(Debug, Clone, Copy, PartialEq, Eq, Hash, Structural)]
pub struct UtcTimestamp {
    pub unix_seconds: i64,
    pub nanoseconds: u32,
}

} // verus!
