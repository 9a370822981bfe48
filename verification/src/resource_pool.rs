//! Resource pools: named pools of integers or addresses that the site
//! controller hands out to machines, segments, partitions and VPCs.
use core::marker::PhantomData;

use vstd::prelude::*;

use crate::errors::ModelError;
use crate::ids::UtcTimestamp;
use crate::text::{concat3, str_eq};

verus! {

/// State of an entry inside the resource pool
#[derive(Clone, Debug, PartialEq, Eq)]
pub enum ResourcePoolEntryState {
    /// The resource is not used
    Free,
    /// The resource is allocated by a certain owner
    Allocated { owner: String, owner_type: String },
}

/// A pool of values of type `T` (values are stored as text, so `T` is a
/// type that reads from and renders to text).
#[derive(Debug)]
pub struct ResourcePool<T> {
    pub name: String,
    pub value_type: ValueType,
    pub rust_type: PhantomData<T>,
}

impl<T> ResourcePool<T> {
    /// A pool named `name` holding values of the given type.
    pub fn new(name: String, value_type: ValueType) -> (r: ResourcePool<T>)
        ensures
            r.name == name,
            r.value_type == value_type,
    {
        ResourcePool { name, value_type, rust_type: PhantomData }
    }

    /// The pool's name.
    pub fn name(&self) -> (r: &str)
        ensures
            r@ == self.name@,
    {
        self.name.as_str()
    }
}

/// A pool's name, bounds and usage.
pub struct ResourcePoolSnapshot {
    pub name: String,
    pub min: String,
    pub max: String,
    pub stats: ResourcePoolStats,
}

/// An entry of a resource pool as stored.
#[derive(Debug)]
pub struct ResourcePoolEntry {
    pub pool_name: String,
    pub pool_type: ValueType,
    pub state: ResourcePoolEntryState,
    pub allocated: Option<UtcTimestamp>,
}

/// What kind of data does our resource pool store?
#[derive(Debug, Clone, Copy, PartialEq, Eq, Structural)]
pub enum ValueType {
    Integer,
    Ipv4,
    Ipv6,
    Ipv6Prefix,
}

/// The text of a value type: its variant name.
pub open spec fn value_type_text(t: ValueType) -> Seq<char> {
    match t {
        ValueType::Integer => "Integer"@,
        ValueType::Ipv4 => "Ipv4"@,
        ValueType::Ipv6 => "Ipv6"@,
        ValueType::Ipv6Prefix => "Ipv6Prefix"@,
    }
}

impl ValueType {
    /// Renders the value type as its variant name.
    pub fn to_string(&self) -> (r: String)
        ensures
            r@ == value_type_text(*self),
    {
        match self {
            ValueType::Integer => String::from_str("Integer"),
            ValueType::Ipv4 => String::from_str("Ipv4"),
            ValueType::Ipv6 => String::from_str("Ipv6"),
            ValueType::Ipv6Prefix => String::from_str("Ipv6Prefix"),
        }
    }
}

/// The kind of resource that owns an allocated value.
#[derive(Debug, PartialEq, Copy, Clone, Structural)]
pub enum OwnerType {
    /// owner_type for loopback_ip
    Machine,
    /// owner_type for vlan_id and vni
    NetworkSegment,
    /// owner_type for pkey
    IBPartition,
    /// owner_type for vpc_cni
    Vpc,
    /// owner_type for East West Networks
    SpxPartition,
}

/// The text of an owner type.
pub open spec fn owner_type_text(t: OwnerType) -> Seq<char> {
    match t {
        OwnerType::Machine => "machine"@,
        OwnerType::NetworkSegment => "network_segment"@,
        OwnerType::IBPartition => "ib_partition"@,
        OwnerType::Vpc => "vpc"@,
        OwnerType::SpxPartition => "spx_partition"@,
    }
}

/// The owner type a text names, if any; the match is exact.
pub open spec fn owner_type_named(s: Seq<char>) -> Option<OwnerType> {
    if s == "machine"@ {
        Some(OwnerType::Machine)
    } else if s == "network_segment"@ {
        Some(OwnerType::NetworkSegment)
    } else if s == "ib_partition"@ {
        Some(OwnerType::IBPartition)
    } else if s == "vpc"@ {
        Some(OwnerType::Vpc)
    } else if s == "spx_partition"@ {
        Some(OwnerType::SpxPartition)
    } else {
        None
    }
}

impl OwnerType {
    /// Renders the owner type as its text.
    pub fn to_string(&self) -> (r: String)
        ensures
            r@ == owner_type_text(*self),
    {
        match self {
            OwnerType::Machine => String::from_str("machine"),
            OwnerType::NetworkSegment => String::from_str("network_segment"),
            OwnerType::IBPartition => String::from_str("ib_partition"),
            OwnerType::Vpc => String::from_str("vpc"),
            OwnerType::SpxPartition => String::from_str("spx_partition"),
        }
    }

    /// Reads an owner type from its text; any other text is an error that
    /// names it.
    pub fn parse(s: &str) -> (r: Result<OwnerType, ModelError>)
        ensures
            owner_type_named(s@) matches Some(t) ==> r == Ok::<OwnerType, ModelError>(t),
            owner_type_named(s@) is None ==> (r matches Err(ModelError::InvalidArgument(m)) && m@
                == "Unknown owner_type '"@ + s@ + "'"@),
    {
        if str_eq(s, "machine") {
            Ok(OwnerType::Machine)
        } else if str_eq(s, "network_segment") {
            Ok(OwnerType::NetworkSegment)
        } else if str_eq(s, "ib_partition") {
            Ok(OwnerType::IBPartition)
        } else if str_eq(s, "vpc") {
            Ok(OwnerType::Vpc)
        } else if str_eq(s, "spx_partition") {
            Ok(OwnerType::SpxPartition)
        } else {
            Err(ModelError::InvalidArgument(concat3("Unknown owner_type '", s, "'")))
        }
    }
}

impl std::str::FromStr for OwnerType {
    type Err = ModelError;

    /// Reads an owner type from its text; see `OwnerType::parse`.
    fn from_str(s: &str) -> (r: Result<Self, Self::Err>)
        ensures
            owner_type_named(s@) matches Some(t) ==> r == Ok::<OwnerType, ModelError>(t),
            owner_type_named(s@) is None ==> (r matches Err(ModelError::InvalidArgument(m)) && m@
                == "Unknown owner_type '"@ + s@ + "'"@),
    {
        OwnerType::parse(s)
    }
}

/// The text of every owner type reads back as that owner type.
pub proof fn lemma_owner_type_text_round_trips(t: OwnerType)
    ensures
        owner_type_named(owner_type_text(t)) == Some(t),
{
    reveal_strlit("machine");
    reveal_strlit("network_segment");
    reveal_strlit("ib_partition");
    reveal_strlit("vpc");
    reveal_strlit("spx_partition");
    assert("machine"@[0] != "network_segment"@[0]);
    assert("machine"@[0] != "ib_partition"@[0]);
    assert("machine"@[0] != "vpc"@[0]);
    assert("machine"@[0] != "spx_partition"@[0]);
    assert("network_segment"@[0] != "ib_partition"@[0]);
    assert("network_segment"@[0] != "vpc"@[0]);
    assert("network_segment"@[0] != "spx_partition"@[0]);
    assert("ib_partition"@[0] != "vpc"@[0]);
    assert("ib_partition"@[0] != "spx_partition"@[0]);
    assert("vpc"@[0] != "spx_partition"@[0]);
}

/// Usage counts of a pool.
#[derive(Debug, PartialEq, Copy, Clone, Structural)]
pub struct ResourcePoolStats {
    /// Number of allocated values in this pool
    pub used: usize,
    /// Number of available values in this pool
    pub free: usize,
    /// Number of allocated auto-assignable values in this pool
    pub auto_assign_used: usize,
    /// Number of available auto-assignable  values in this pool
    pub auto_assign_free: usize,
    /// Number of allocated non-auto-assignable values in this pool
    pub non_auto_assign_used: usize,
    /// Number of available non-auto-assignable values in this pool
    pub non_auto_assign_free: usize,
}

impl ResourcePoolStats {
    /// The counts stored as signed 64-bit numbers, each converted to `usize`
    /// as `as` converts (keeping the low bits).
    pub fn from_counts(
        used: i64,
        free: i64,
        auto_assign_used: i64,
        auto_assign_free: i64,
        non_auto_assign_used: i64,
        non_auto_assign_free: i64,
    ) -> (r: ResourcePoolStats)
        ensures
            r.used == used as usize,
            r.free == free as usize,
            r.auto_assign_used == auto_assign_used as usize,
            r.auto_assign_free == auto_assign_free as usize,
            r.non_auto_assign_used == non_auto_assign_used as usize,
            r.non_auto_assign_free == non_auto_assign_free as usize,
    {
        ResourcePoolStats {
            used: used as usize,
            free: free as usize,
            auto_assign_used: auto_assign_used as usize,
            auto_assign_free: auto_assign_free as usize,
            non_auto_assign_used: non_auto_assign_used as usize,
            non_auto_assign_free: non_auto_assign_free as usize,
        }
    }
}

/// Errors of allocating from a pool.
#[derive(Debug)]
pub enum ResourcePoolError {
    /// No free value is left.
    Empty,
    /// A stored value does not read as a value of the pool's type.
    Parse { e: String, v: String, pool_name: String, owner_type: String, owner_id: String },
}

/// The text of a pool error.
pub open spec fn resource_pool_error_text(err: ResourcePoolError) -> Seq<char> {
    match err {
        ResourcePoolError::Empty => "Resource pool is empty, cannot allocate"@,
        ResourcePoolError::Parse { e, v, pool_name, owner_type, owner_id } => "Cannot convert '"@ + v@
            + "' to "@ + pool_name@ + "'s pool type for "@ + owner_type@ + " "@ + owner_id@ + ": "@
            + e@,
    }
}

impl ResourcePoolError {
    /// Renders the error as text.
    pub fn to_string(&self) -> (r: String)
        ensures
            r@ == resource_pool_error_text(*self),
    {
        match self {
            ResourcePoolError::Empty => String::from_str("Resource pool is empty, cannot allocate"),
            ResourcePoolError::Parse { e, v, pool_name, owner_type, owner_id } => {
                let mut m = String::from_str("Cannot convert '");
                m.append(v.as_str());
                m.append("' to ");
                m.append(pool_name.as_str());
                m.append("'s pool type for ");
                m.append(owner_type.as_str());
                m.append(" ");
                m.append(owner_id.as_str());
                m.append(": ");
                m.append(e.as_str());
                m
            },
        }
    }
}

} // verus!
