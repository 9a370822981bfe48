//! Network segments: their types, allocation strategies, controller states
//! and the segments the site configuration declares.
use vstd::prelude::*;

use crate::errors::ModelError;
use crate::state_sla::{sla_outcome, StateSla};
use crate::ids::{DomainId, NetworkSegmentId, UtcTimestamp, VpcId};
use crate::text::{concat3, str_eq};

verus! {

/// Filter for searching network segments.
#[derive(Clone, Debug, Default)]
pub struct NetworkSegmentSearchFilter {
    pub name: Option<String>,
    pub tenant_org_id: Option<String>,
}

/// State of a network segment as tracked by the controller
#[derive(Clone, Debug, PartialEq, Eq)]
pub enum NetworkSegmentControllerState {
    Provisioning,
    /// The network segment is ready. Instances can be created
    Ready,
    /// The network segment is in the process of being deleted.
    Deleting { deletion_state: NetworkSegmentDeletionState },
}

/// Possible states during deletion of a network segment
#[derive(Clone, Debug, PartialEq, Eq)]
pub enum NetworkSegmentDeletionState {
    /// The segment is waiting until all IPs that had been allocated on the segment
    /// have been released - plus an additional grace period to avoid any race
    /// conditions.
    DrainAllocatedIps {
        /// Denotes the time at which the network segment will be deleted,
        /// assuming no IPs are detected to be in use until then.
        delete_at: UtcTimestamp,
    },
    /// In this state we release the VNI and VLAN ID allocations and delete the segment from the
    /// database. This is the final state.
    DBDelete,
}

/// How the site configuration declares a network segment.
#[derive(Debug, Clone, PartialEq, Eq)]
pub struct NetworkDefinition {
    pub segment_type: NetworkDefinitionSegmentType,
    /// CIDR notation
    pub prefix: ipnetwork::IpNetwork,
    /// Usually the first IP in the prefix range
    pub gateway: core::net::IpAddr,
    /// Typically 9000 for admin network, 1500 for underlay
    pub mtu: i32,
    /// How many addresses to skip before allocating
    pub reserve_first: i32,
    /// Whether DHCP allocates addresses from the pool for this network
    /// (with per-address static reservations still possible), or serves only
    /// pre-configured static reservations. Dynamic when not given.
    pub allocation_strategy: AllocationStrategy,
    /// Name of a VPC to attach this network segment to on creation; creation
    /// fails if the VPC is not defined.
    pub vpc_name: Option<String>,
}

/// The segment types the site configuration can declare; tenant networks
/// are created through the API instead.
#[derive(Debug, Copy, Clone, PartialEq, Eq, Structural)]
pub enum NetworkDefinitionSegmentType {
    Admin,
    Underlay,
    HostInband,
}

/// The segment type a declared segment type stands for.
pub open spec fn segment_type_of_definition(value: NetworkDefinitionSegmentType) -> NetworkSegmentType {
    match value {
        NetworkDefinitionSegmentType::Admin => NetworkSegmentType::Admin,
        NetworkDefinitionSegmentType::Underlay => NetworkSegmentType::Underlay,
        NetworkDefinitionSegmentType::HostInband => NetworkSegmentType::HostInband,
    }
}

impl From<NetworkDefinitionSegmentType> for NetworkSegmentType {
    fn from(value: NetworkDefinitionSegmentType) -> (r: Self)
        ensures
            r == segment_type_of_definition(value),
    {
        match value {
            NetworkDefinitionSegmentType::Admin => NetworkSegmentType::Admin,
            NetworkDefinitionSegmentType::Underlay => NetworkSegmentType::Underlay,
            NetworkDefinitionSegmentType::HostInband => NetworkSegmentType::HostInband,
        }
    }
}

impl vstd::std_specs::convert::FromSpecImpl<NetworkDefinitionSegmentType> for NetworkSegmentType {
    open spec fn obeys_from_spec() -> bool {
        true
    }

    open spec fn from_spec(value: NetworkDefinitionSegmentType) -> NetworkSegmentType {
        segment_type_of_definition(value)
    }
}

/// How long a network segment may stay in each state that has an SLA, in seconds.
#[derive(Debug, Clone, Copy, PartialEq, Eq, Structural)]
pub struct NetworkSegmentSlas {
    pub provisioning: u64,
    pub deleting_dbdelete: u64,
}

/// The SLA of a segment state: provisioning and the final deletion step
/// have one; draining allocated addresses may take indefinitely long, since
/// an instance may still use the segment.
pub open spec fn network_segment_sla_of(state: NetworkSegmentControllerState, slas: NetworkSegmentSlas) -> Option<u64> {
    match state {
        NetworkSegmentControllerState::Provisioning => Some(slas.provisioning),
        NetworkSegmentControllerState::Ready => None,
        NetworkSegmentControllerState::Deleting { deletion_state } => match deletion_state {
            NetworkSegmentDeletionState::DrainAllocatedIps { .. } => None,
            NetworkSegmentDeletionState::DBDelete => Some(slas.deleting_dbdelete),
        },
    }
}

/// Returns the SLA for the current state, given the nanoseconds spent in it.
pub fn state_sla(state: &NetworkSegmentControllerState, time_in_state_nanos: u128, slas: &NetworkSegmentSlas) -> (r: StateSla)
    ensures
        r == sla_outcome(network_segment_sla_of(*state, *slas), time_in_state_nanos),
{
    match state {
        NetworkSegmentControllerState::Provisioning => StateSla::with_sla(slas.provisioning, time_in_state_nanos),
        NetworkSegmentControllerState::Ready => StateSla::no_sla(),
        NetworkSegmentControllerState::Deleting { deletion_state } => match deletion_state {
            NetworkSegmentDeletionState::DrainAllocatedIps { .. } => StateSla::no_sla(),
            NetworkSegmentDeletionState::DBDelete => StateSla::with_sla(slas.deleting_dbdelete, time_in_state_nanos),
        },
    }
}

/// What a search for network segments includes besides the segments.
#[derive(Debug, Copy, Clone, Default)]
pub struct NetworkSegmentSearchConfig {
    pub include_history: bool,
    pub include_num_free_ips: bool,
}

/// User-controlled configuration for a network segment.
#[derive(Debug, Clone)]
pub struct NetworkSegmentConfig {
    pub name: String,
    pub subdomain_id: Option<DomainId>,
    pub mtu: i32,
    pub segment_type: NetworkSegmentType,
    pub allocation_strategy: AllocationStrategy,
    pub vpc_id: Option<VpcId>,
}

/// Identifier of a prefix of a network segment.
#[derive(Debug, Clone, Copy, PartialEq, Eq, Hash)]
pub struct NetworkPrefixId(pub uuid::Uuid);

/// A prefix of a network segment: what the user gave (the CIDR, the gateway
/// and how many addresses to reserve) and what the system filled in (its
/// id, the SVI address and the number of free addresses).
#[derive(Debug, Clone, PartialEq, Eq)]
pub struct NetworkPrefix {
    pub id: NetworkPrefixId,
    pub prefix: ipnetwork::IpNetwork,
    pub gateway: Option<core::net::IpAddr>,
    pub num_reserved: i32,
    pub svi_ip: Option<core::net::IpAddr>,
    pub free_ip_count: u32,
}

/// A past state of a resource: the state's text and the text of the
/// version it held.
#[derive(Debug, Clone, PartialEq, Eq)]
pub struct StateHistoryRecord {
    pub state: String,
    pub state_version: String,
}

/// System-observed status for a network segment.
#[derive(Debug, Clone)]
pub struct NetworkSegmentStatus {
    pub controller_state: NetworkSegmentControllerState,
    /// The text of the controller state's version.
    pub controller_state_version: String,
    /// The result of the last attempt to change state, as its JSON text.
    pub controller_state_outcome: Option<String>,
    /// History of state changes.
    pub history: Vec<StateHistoryRecord>,
    /// VLAN ID, in the range [0, 4096) that the database enforces.
    pub vlan_id: Option<i16>,
    pub vni: Option<i32>,
    pub can_stretch: Option<bool>,
}

/// A network segment.
#[derive(Debug, Clone)]
pub struct NetworkSegment {
    pub id: NetworkSegmentId,
    /// The text of the configuration's version.
    pub version: String,
    pub config: NetworkSegmentConfig,
    pub status: NetworkSegmentStatus,
    /// Prefixes are kept at the top level because each holds both
    /// user-specified and system-populated fields.
    pub prefixes: Vec<NetworkPrefix>,
    pub created: UtcTimestamp,
    pub updated: UtcTimestamp,
    pub deleted: Option<UtcTimestamp>,
}

impl NetworkSegment {
    /// Returns whether the segment was deleted by the user.
    pub fn is_marked_as_deleted(&self) -> (r: bool)
        ensures
            r == self.deleted is Some,
    {
        self.deleted.is_some()
    }
}

/// The items of `s` that are present, in order.
pub open spec fn present_items<T>(s: Seq<Option<T>>) -> Seq<T>
    decreases s.len(),
{
    if s.len() == 0 {
        Seq::empty()
    } else {
        let rest = present_items(s.drop_first());
        match s[0] {
            Some(v) => seq![v] + rest,
            None => rest,
        }
    }
}

/// The items of `items` that are present, in order.
fn keep_present<T>(items: Vec<Option<T>>) -> (r: Vec<T>)
    ensures
        r@ == present_items(items@),
{
    let mut rest = items;
    let mut out: Vec<T> = Vec::new();
    while rest.len() > 0
        invariant
            out@ + present_items(rest@) == present_items(items@),
        decreases rest@.len(),
    {
        let ghost before = rest@;
        let item = rest.remove(0);
        assert(before.drop_first() =~= rest@);
        match item {
            Some(v) => {
                let ghost o = out@;
                out.push(v);
                assert(out@ + present_items(rest@) =~= o + (seq![v] + present_items(rest@)));
            },
            None => {},
        }
    }
    assert(out@ + present_items(rest@) =~= out@);
    out
}

/// A value read from a column, or its default where the column could not
/// be read (`None`).
pub open spec fn read_or<T>(column: Option<T>, default: T) -> T {
    match column {
        Some(v) => v,
        None => default,
    }
}

impl NetworkSegment {
    /// The segment stored in a row's columns. Missing prefixes and history
    /// entries (null in the stored lists) are skipped, keeping the order of
    /// the rest; history is empty when the row carries none (`None`). An
    /// allocation strategy, VLAN ID or VNI that could not be read (`None`)
    /// takes its default: dynamic allocation, no VLAN ID, no VNI.
    pub fn from_columns(
        id: NetworkSegmentId,
        version: String,
        name: String,
        subdomain_id: Option<DomainId>,
        mtu: i32,
        segment_type: NetworkSegmentType,
        allocation_strategy: Option<AllocationStrategy>,
        vpc_id: Option<VpcId>,
        controller_state: NetworkSegmentControllerState,
        controller_state_version: String,
        controller_state_outcome: Option<String>,
        history: Option<Vec<Option<StateHistoryRecord>>>,
        vlan_id: Option<Option<i16>>,
        vni: Option<Option<i32>>,
        can_stretch: Option<bool>,
        prefixes: Vec<Option<NetworkPrefix>>,
        created: UtcTimestamp,
        updated: UtcTimestamp,
        deleted: Option<UtcTimestamp>,
    ) -> (r: NetworkSegment)
        ensures
            r.id == id,
            r.version == version,
            r.config.name == name,
            r.config.subdomain_id == subdomain_id,
            r.config.mtu == mtu,
            r.config.segment_type == segment_type,
            r.config.allocation_strategy == read_or(allocation_strategy, AllocationStrategy::Dynamic),
            r.config.vpc_id == vpc_id,
            r.status.controller_state == controller_state,
            r.status.controller_state_version == controller_state_version,
            r.status.controller_state_outcome == controller_state_outcome,
            r.status.history@ == match history {
                Some(h) => present_items(h@),
                None => Seq::empty(),
            },
            r.status.vlan_id == read_or(vlan_id, None),
            r.status.vni == read_or(vni, None),
            r.status.can_stretch == can_stretch,
            r.prefixes@ == present_items(prefixes@),
            r.created == created,
            r.updated == updated,
            r.deleted == deleted,
    {
        let history = match history {
            Some(h) => keep_present(h),
            None => Vec::new(),
        };
        let allocation_strategy = match allocation_strategy {
            Some(a) => a,
            None => AllocationStrategy::default(),
        };
        let vlan_id = match vlan_id {
            Some(v) => v,
            None => None,
        };
        let vni = match vni {
            Some(v) => v,
            None => None,
        };
        NetworkSegment {
            id,
            version,
            config: NetworkSegmentConfig {
                name,
                subdomain_id,
                mtu,
                segment_type,
                allocation_strategy,
                vpc_id,
            },
            status: NetworkSegmentStatus {
                controller_state,
                controller_state_version,
                controller_state_outcome,
                history,
                vlan_id,
                vni,
                can_stretch,
            },
            prefixes: keep_present(prefixes),
            created,
            updated,
            deleted,
        }
    }
}

/// The kind of a network segment.
#[derive(Debug, Clone, Copy, PartialEq, Eq, Structural)]
pub enum NetworkSegmentType {
    Tenant,
    Admin,
    Underlay,
    HostInband,
}

/// The database text of a segment type.
pub open spec fn segment_type_text(t: NetworkSegmentType) -> Seq<char> {
    match t {
        NetworkSegmentType::Tenant => "tenant"@,
        NetworkSegmentType::Admin => "admin"@,
        NetworkSegmentType::Underlay => "tor"@,
        NetworkSegmentType::HostInband => "host_inband"@,
    }
}

/// The segment type a database text names, if any; the match is exact.
pub open spec fn segment_type_named(s: Seq<char>) -> Option<NetworkSegmentType> {
    if s == "tenant"@ {
        Some(NetworkSegmentType::Tenant)
    } else if s == "admin"@ {
        Some(NetworkSegmentType::Admin)
    } else if s == "tor"@ {
        Some(NetworkSegmentType::Underlay)
    } else if s == "host_inband"@ {
        Some(NetworkSegmentType::HostInband)
    } else {
        None
    }
}

impl NetworkSegmentType {
    /// Tenant and host-inband segments face tenants.
    pub fn is_tenant(&self) -> (r: bool)
        ensures
            r == (*self == NetworkSegmentType::Tenant || *self == NetworkSegmentType::HostInband),
    {
        match self {
            NetworkSegmentType::Tenant | NetworkSegmentType::HostInband => true,
            _ => false,
        }
    }

    /// The database text of the segment type.
    pub fn to_string(&self) -> (r: String)
        ensures
            r@ == segment_type_text(*self),
    {
        match self {
            NetworkSegmentType::Tenant => String::from_str("tenant"),
            NetworkSegmentType::Admin => String::from_str("admin"),
            NetworkSegmentType::Underlay => String::from_str("tor"),
            NetworkSegmentType::HostInband => String::from_str("host_inband"),
        }
    }

    /// Reads a segment type from its database text; any other text is an error
    /// that names it.
    pub fn parse(s: &str) -> (r: Result<NetworkSegmentType, ModelError>)
        ensures
            segment_type_named(s@) matches Some(t) ==> r == Ok::<NetworkSegmentType, ModelError>(t),
            segment_type_named(s@) is None ==> (r matches Err(ModelError::DatabaseTypeConversionError(m))
                && m@ == "Invalid segment type "@ + s@ + " reveived from Database."@),
    {
        if str_eq(s, "tenant") {
            Ok(NetworkSegmentType::Tenant)
        } else if str_eq(s, "admin") {
            Ok(NetworkSegmentType::Admin)
        } else if str_eq(s, "tor") {
            Ok(NetworkSegmentType::Underlay)
        } else if str_eq(s, "host_inband") {
            Ok(NetworkSegmentType::HostInband)
        } else {
            Err(
                ModelError::DatabaseTypeConversionError(
                    concat3("Invalid segment type ", s, " reveived from Database."),
                ),
            )
        }
    }
}

impl std::str::FromStr for NetworkSegmentType {
    type Err = ModelError;

    /// Reads a segment type from its database text; see `NetworkSegmentType::parse`.
    fn from_str(s: &str) -> (r: Result<Self, Self::Err>)
        ensures
            segment_type_named(s@) matches Some(t) ==> r == Ok::<NetworkSegmentType, ModelError>(t),
            segment_type_named(s@) is None ==> (r matches Err(ModelError::DatabaseTypeConversionError(m))
                && m@ == "Invalid segment type "@ + s@ + " reveived from Database."@),
    {
        NetworkSegmentType::parse(s)
    }
}

/// The database text of every segment type reads back as that type.
pub proof fn lemma_segment_type_text_round_trips(t: NetworkSegmentType)
    ensures
        segment_type_named(segment_type_text(t)) == Some(t),
{
    reveal_strlit("tenant");
    reveal_strlit("admin");
    reveal_strlit("tor");
    reveal_strlit("host_inband");
    assert("tenant"@[0] != "admin"@[0]);
    assert("tenant"@ != "admin"@);
    assert("tenant"@.len() != "tor"@.len());
    assert("tenant"@ != "tor"@);
    assert("admin"@ != "tor"@);
    assert("tenant"@ != "host_inband"@);
    assert("admin"@ != "host_inband"@);
    assert("tor"@ != "host_inband"@);
}

/// Controls how IP addresses are assigned via DHCP on a network segment,
/// giving us support for segment-wide dynamic DHCP allocations or static
/// DHCP leases/reservations. It is worth noting that even if the entire
/// network segment is configured as `Dynamic`, an operator can still
/// do per-IP static reservation overrides within that segment.
///
/// - `Dynamic`: The DHCP allocator hands out IPs from the pool (default).
/// - `Reserved`: Only pre-existing static reservations are served.
///
/// Devices without a reservation get no DHCP response.
#[derive(Debug, Clone, Copy, PartialEq, Eq, Structural)]
pub enum AllocationStrategy {
    Dynamic,
    Reserved,
}

impl Default for AllocationStrategy {
    /// Dynamic allocation.
    fn default() -> (r: AllocationStrategy)
        ensures
            r == AllocationStrategy::Dynamic,
    {
        AllocationStrategy::Dynamic
    }
}

/// A prefix to create together with a new network segment.
#[derive(Debug, Clone, Copy, PartialEq, Eq)]
pub struct NewNetworkPrefix {
    pub prefix: ipnetwork::IpNetwork,
    pub gateway: Option<core::net::IpAddr>,
    pub num_reserved: i32,
}

/// A network segment to create.
#[derive(Debug)]
pub struct NewNetworkSegment {
    pub id: NetworkSegmentId,
    pub name: String,
    pub subdomain_id: Option<DomainId>,
    pub vpc_id: Option<VpcId>,
    pub mtu: i32,
    pub prefixes: Vec<NewNetworkPrefix>,
    pub vlan_id: Option<i16>,
    pub vni: Option<i32>,
    pub segment_type: NetworkSegmentType,
    pub can_stretch: Option<bool>,
    pub allocation_strategy: AllocationStrategy,
}

/// `uuid::Uuid::new_v4`: a random identifier. Nothing is promised of its value.
#[verifier::external_body]
fn new_random_uuid() -> uuid::Uuid {
    uuid::Uuid::new_v4()
}

impl NewNetworkSegment {
    /// The segment that the site configuration declares under `name` in the
    /// domain `domain_id`: one prefix with the declared gateway and reserved
    /// addresses, the declared MTU, type and allocation strategy, no VPC,
    /// VLAN or VNI yet, and a fresh random id.
    pub fn build_from(
        name: &str,
        domain_id: DomainId,
        value: &NetworkDefinition,
    ) -> (r: Result<Self, ModelError>)
        ensures
            r matches Ok(s) && {
                &&& s.name@ == name@
                &&& s.subdomain_id == Some(domain_id)
                &&& s.vpc_id is None
                &&& s.mtu == value.mtu
                &&& s.prefixes@ == seq![
                    NewNetworkPrefix {
                        prefix: value.prefix,
                        gateway: Some(value.gateway),
                        num_reserved: value.reserve_first,
                    },
                ]
                &&& s.vlan_id is None
                &&& s.vni is None
                &&& s.segment_type == segment_type_of_definition(value.segment_type)
                &&& s.can_stretch is None
                &&& s.allocation_strategy == value.allocation_strategy
            },
    {
        let prefix = NewNetworkPrefix {
            prefix: value.prefix,
            gateway: Some(value.gateway),
            num_reserved: value.reserve_first,
        };
        let prefixes = vec![prefix];
        Ok(NewNetworkSegment {
            id: NetworkSegmentId(new_random_uuid()),
            name: String::from_str(name),
            subdomain_id: Some(domain_id),
            vpc_id: None,
            mtu: value.mtu,
            prefixes,
            vlan_id: None,
            vni: None,
            segment_type: value.segment_type.into(),
            can_stretch: None,
            allocation_strategy: value.allocation_strategy,
        })
    }
}

} // verus!
