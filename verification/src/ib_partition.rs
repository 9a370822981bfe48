//! InfiniBand partitions: partition keys, partition configuration and status.
use vstd::prelude::*;
use vstd::string::*;

use crate::errors::ModelError;
use crate::ib::{IBMtu, IBNetwork, IBQosConf, IBRateLimit, IBServiceLevel};
use crate::ids::{IBPartitionId, TenantOrganizationId, UtcTimestamp};
use crate::metadata::{Labels, Metadata};
use crate::state_sla::{sla_outcome, StateSla};
use crate::text::{
    concat2, decimal, has_prefix, is_lower_ascii_alnum, lemma_digits_denote_their_number,
    lower_hex, lowercased, strip_all_prefixes, starts_with, to_lowercase, trim_start_matches,
    u16_from_str_radix, u16_literal_value, u16_lower_hex, u16_text, unsigned_literal_value, i32_text,
};

verus! {

/// Filter for searching IB partitions.
#[derive(Clone, Debug, Default)]
pub struct IbPartitionSearchFilter {
    pub tenant_org_id: Option<String>,
    pub name: Option<String>,
}

/// An InfiniBand Partition Key.
/// Partition Keys are 16 bit values valid up to a value of 0x7fff.
/// Their canonical text is lowercase hexadecimal with a `0x` prefix.
#[derive(Debug, Copy, Clone, PartialEq, Eq, Hash, Structural)]
pub struct PartitionKey(u16);

/// The largest valid partition key, which also names the default partition.
pub open spec fn max_partition_key() -> u16 {
    0x7fff
}

/// The canonical text of a partition key: `0x` and lowercase hex digits.
pub open spec fn pkey_text(v: u16) -> Seq<char> {
    seq!['0', 'x'] + lower_hex(v as nat)
}

/// The radix of a (lowercased) partition key text: 16 after a `0x` prefix, else 10.
pub open spec fn pkey_radix(s: Seq<char>) -> nat {
    if has_prefix(s, seq!['0', 'x']) {
        16
    } else {
        10
    }
}

/// The number a (lowercased) partition key text denotes: every leading `0x`
/// is removed and the rest read in the radix above, as a 16-bit value.
pub open spec fn pkey_literal_value(s: Seq<char>) -> Option<u16> {
    u16_literal_value(strip_all_prefixes(s, seq!['0', 'x']), pkey_radix(s))
}

/// Error for a text or number that is no valid partition key; it carries
/// the offending text.
#[derive(Debug, Clone)]
pub struct InvalidPartitionKeyError(String);

impl View for InvalidPartitionKeyError {
    type V = Seq<char>;

    /// The offending text.
    closed spec fn view(&self) -> Seq<char> {
        self.0@
    }
}

impl InvalidPartitionKeyError {
    /// `Partition Key "<text>" is not valid`.
    pub fn to_string(&self) -> (r: String)
        ensures
            r@ == "Partition Key \""@ + self@ + "\" is not valid"@,
    {
        let mut r = String::from_str("Partition Key \"");
        r.append(self.0.as_str());
        r.append("\" is not valid");
        r
    }
}

/// The exact outcome of reading the lowercased partition key text `s`:
/// a key holding the value the text denotes when that value is at most
/// `0x7fff`; otherwise an error carrying the value in decimal, or the text
/// itself when it denotes no 16-bit number.
pub open spec fn pkey_parse_result(
    s: Seq<char>,
    r: Result<PartitionKey, InvalidPartitionKeyError>,
) -> bool {
    match pkey_literal_value(s) {
        Some(v) => if v <= max_partition_key() {
            r matches Ok(k) && k.value() == v
        } else {
            r matches Err(e) && e@ == decimal(v as int)
        },
        None => r matches Err(e) && e@ == s,
    }
}

impl PartitionKey {
    #[verifier::type_invariant]
    spec fn in_range(self) -> bool {
        self.0 <= max_partition_key()
    }

    /// The number the key holds.
    pub closed spec fn value(self) -> u16 {
        self.0
    }

    /// Returns the partition key associated with the default partition.
    pub fn for_default_partition() -> (r: Self)
        ensures
            r.value() == max_partition_key(),
    {
        PartitionKey(0x7fff)
    }

    /// Returns whether the partition key describes the default partition.
    pub fn is_default_partition(self) -> (r: bool)
        ensures
            r == (self.value() == max_partition_key()),
    {
        self == Self::for_default_partition()
    }

    /// Renders the key in its canonical text, `0x` and lowercase hex digits.
    pub fn to_string(&self) -> (r: String)
        ensures
            r@ == pkey_text(self.value()),
    {
        let h = u16_lower_hex(self.0);
        let r = concat2("0x", h.as_str());
        proof {
            reveal_strlit("0x");
            assert("0x"@ =~= seq!['0', 'x']);
        }
        r
    }

    /// Reads a partition key from text that is already lowercase: decimal, or
    /// hexadecimal after a `0x` prefix.
    pub fn parse_lowercase(pkey: &str) -> (r: Result<PartitionKey, InvalidPartitionKeyError>)
        ensures
            pkey_parse_result(pkey@, r),
    {
        proof {
            reveal_strlit("0x");
            assert("0x"@ =~= seq!['0', 'x']);
        }
        let base: u32 = if starts_with(pkey, "0x") {
            16
        } else {
            10
        };
        let number = trim_start_matches(pkey, "0x");
        assert(base as nat == pkey_radix(pkey@));
        assert(number@ == strip_all_prefixes(pkey@, seq!['0', 'x']));
        match u16_from_str_radix(number, base) {
            Some(v) => {
                let r = PartitionKey::try_from(v);
                assert(pkey_parse_result(pkey@, r));
                r
            },
            None => {
                let r = Err(InvalidPartitionKeyError(String::from_str(pkey)));
                assert(pkey_parse_result(pkey@, r));
                r
            },
        }
    }

    /// Reads a partition key from text: the text is lowercased, then read as
    /// decimal, or as hexadecimal after a `0x` prefix. The key must be at most
    /// `0x7fff`, the same range that `try_from(u16)` accepts.
    pub fn parse(pkey: &str) -> (r: Result<PartitionKey, InvalidPartitionKeyError>)
        ensures
            pkey_parse_result(lowercased(pkey@), r),
    {
        let lower = to_lowercase(pkey);
        PartitionKey::parse_lowercase(lower.as_str())
    }
}

/// The exact outcome of making a partition key of the number `v`: the key
/// when `v` is at most `0x7fff`, else an error carrying `v` in decimal.
pub open spec fn pkey_from_number_result(v: u16, r: Result<PartitionKey, InvalidPartitionKeyError>) -> bool {
    if v <= max_partition_key() {
        r matches Ok(k) && k.value() == v
    } else {
        r matches Err(e) && e@ == decimal(v as int)
    }
}

impl TryFrom<u16> for PartitionKey {
    type Error = InvalidPartitionKeyError;

    /// Accepts the numbers up to `0x7fff`; for any other the error carries
    /// the number in decimal.
    fn try_from(pkey: u16) -> (r: Result<Self, Self::Error>)
        ensures
            pkey_from_number_result(pkey, r),
    {
        assert(pkey == (pkey & 0x7fff) <==> pkey <= 0x7fff) by (bit_vector);
        if pkey != (pkey & 0x7fff) {
            return Err(InvalidPartitionKeyError(u16_text(pkey)));
        }
        Ok(PartitionKey(pkey))
    }
}

/// Partition key errors carry text, which no spec value can hold, so the
/// exact contract of `try_from` is its own `ensures`, not this generic model.
impl vstd::std_specs::convert::TryFromSpecImpl<u16> for PartitionKey {
    open spec fn obeys_try_from_spec() -> bool {
        false
    }

    open spec fn try_from_spec(v: u16) -> Result<Self, InvalidPartitionKeyError> {
        arbitrary()
    }
}

impl std::str::FromStr for PartitionKey {
    type Err = InvalidPartitionKeyError;

    /// Reads a partition key from text; see `PartitionKey::parse`.
    fn from_str(pkey: &str) -> (r: Result<Self, Self::Err>)
        ensures
            pkey_parse_result(lowercased(pkey@), r),
    {
        PartitionKey::parse(pkey)
    }
}

impl TryFrom<String> for PartitionKey {
    type Error = InvalidPartitionKeyError;

    /// Reads a partition key from text; see `PartitionKey::parse`.
    fn try_from(pkey: String) -> (r: Result<Self, Self::Error>)
        ensures
            pkey_parse_result(lowercased(pkey@), r),
    {
        PartitionKey::parse(pkey.as_str())
    }
}

/// Partition key errors carry text, which no spec value can hold, so the
/// exact contract of `try_from` is its own `ensures`, not this generic model.
impl vstd::std_specs::convert::TryFromSpecImpl<String> for PartitionKey {
    open spec fn obeys_try_from_spec() -> bool {
        false
    }

    open spec fn try_from_spec(v: String) -> Result<Self, InvalidPartitionKeyError> {
        arbitrary()
    }
}

impl<'a> TryFrom<&'a String> for PartitionKey {
    type Error = InvalidPartitionKeyError;

    /// Reads a partition key from text; see `PartitionKey::parse`.
    fn try_from(pkey: &'a String) -> (r: Result<Self, Self::Error>)
        ensures
            pkey_parse_result(lowercased(pkey@), r),
    {
        PartitionKey::parse(pkey.as_str())
    }
}

/// Partition key errors carry text, which no spec value can hold, so the
/// exact contract of `try_from` is its own `ensures`, not this generic model.
impl<'a> vstd::std_specs::convert::TryFromSpecImpl<&'a String> for PartitionKey {
    open spec fn obeys_try_from_spec() -> bool {
        false
    }

    open spec fn try_from_spec(v: &'a String) -> Result<Self, InvalidPartitionKeyError> {
        arbitrary()
    }
}

impl<'a> TryFrom<&'a str> for PartitionKey {
    type Error = InvalidPartitionKeyError;

    /// Reads a partition key from text; see `PartitionKey::parse`.
    fn try_from(pkey: &'a str) -> (r: Result<Self, Self::Error>)
        ensures
            pkey_parse_result(lowercased(pkey@), r),
    {
        PartitionKey::parse(pkey)
    }
}

/// Partition key errors carry text, which no spec value can hold, so the
/// exact contract of `try_from` is its own `ensures`, not this generic model.
impl<'a> vstd::std_specs::convert::TryFromSpecImpl<&'a str> for PartitionKey {
    open spec fn obeys_try_from_spec() -> bool {
        false
    }

    open spec fn try_from_spec(v: &'a str) -> Result<Self, InvalidPartitionKeyError> {
        arbitrary()
    }
}

impl From<PartitionKey> for u16 {
    /// The number the key holds.
    fn from(v: PartitionKey) -> (r: u16)
        ensures
            r == v.value(),
            r <= max_partition_key(),
    {
        proof {
            use_type_invariant(&v);
        }
        v.0
    }
}

impl vstd::std_specs::convert::FromSpecImpl<PartitionKey> for u16 {
    open spec fn obeys_from_spec() -> bool {
        true
    }

    open spec fn from_spec(v: PartitionKey) -> u16 {
        v.value()
    }
}

// ---------------------------------------------------------------------
// Partitions
// ---------------------------------------------------------------------

/// A partition to be created.
#[derive(Debug, Clone)]
pub struct NewIBPartition {
    pub id: IBPartitionId,
    pub config: IBPartitionConfig,
    pub metadata: Metadata,
}

/// User-controlled configuration of a partition.
#[derive(Debug, Clone, PartialEq)]
pub struct IBPartitionConfig {
    pub name: String,
    pub pkey: Option<PartitionKey>,
    pub tenant_organization_id: TenantOrganizationId,
    pub mtu: Option<IBMtu>,
    pub rate_limit: Option<IBRateLimit>,
    pub service_level: Option<IBServiceLevel>,
}

/// Status of a partition as observed on the fabric.
#[derive(Clone, Debug, PartialEq, Eq)]
pub struct IBPartitionStatus {
    pub partition: Option<String>,
    pub mtu: Option<IBMtu>,
    pub rate_limit: Option<IBRateLimit>,
    pub service_level: Option<IBServiceLevel>,
    pub pkey: Option<PartitionKey>,
}

/// State of an IB partition as tracked by the controller.
#[derive(Clone, Debug, PartialEq, Eq)]
pub enum IBPartitionControllerState {
    /// The partition is created, waiting for provisioning in the IB fabric.
    Provisioning,
    /// The partition is ready for IB ports.
    Ready,
    /// The partition is in error; no IB port can be added to it.
    Error { cause: String },
    /// The partition is being deleted.
    Deleting,
}

/// An InfiniBand partition.
#[derive(Debug, Clone)]
pub struct IBPartition {
    pub id: IBPartitionId,
    /// The text of the configuration's version.
    pub version: String,
    pub config: IBPartitionConfig,
    pub status: Option<IBPartitionStatus>,
    pub deleted: Option<UtcTimestamp>,
    pub controller_state: IBPartitionControllerState,
    /// The text of the controller state's version.
    pub controller_state_version: String,
    /// The result of the last attempt to change state, as its JSON text.
    pub controller_state_outcome: Option<String>,
    pub metadata: Metadata,
}

impl IBPartition {
    /// Returns whether the IB partition was deleted by the user.
    pub fn is_marked_as_deleted(&self) -> (r: bool)
        ensures
            r == self.deleted is Some,
    {
        self.deleted.is_some()
    }
}

/// The partition key a stored number denotes: its low 16 bits, when they
/// are a valid key.
pub open spec fn stored_pkey(p: i32) -> Option<u16> {
    if (p as u16) <= max_partition_key() {
        Some(p as u16)
    } else {
        None
    }
}

/// Text of the error for a stored partition key that is not valid.
pub open spec fn invalid_stored_pkey_message(p: i32) -> Seq<char> {
    "Pkey "@ + decimal(p as int) + " is not valid"@
}

/// An MTU read from storage: kept when valid, dropped otherwise.
pub open spec fn stored_mtu(v: i32) -> Option<IBMtu> {
    if crate::ib::is_valid_mtu(v as int) { Some(IBMtu(v)) } else { None }
}

/// A rate limit read from storage: kept when valid, dropped otherwise.
pub open spec fn stored_rate_limit(v: i32) -> Option<IBRateLimit> {
    if crate::ib::is_valid_rate_limit(v as int) { Some(IBRateLimit(v)) } else { None }
}

/// A service level read from storage: kept when valid, dropped otherwise.
pub open spec fn stored_service_level(v: i32) -> Option<IBServiceLevel> {
    if crate::ib::is_valid_service_level(v as int) { Some(IBServiceLevel(v)) } else { None }
}

impl IBPartitionConfig {
    /// The configuration stored in a partition's columns: the key is the low
    /// 16 bits of the stored number and must be valid; an MTU, rate limit or
    /// service level that is not valid is dropped.
    pub fn from_columns(
        name: String,
        pkey: Option<i32>,
        tenant_organization_id: TenantOrganizationId,
        mtu: i32,
        rate_limit: i32,
        service_level: i32,
    ) -> (r: Result<IBPartitionConfig, ModelError>)
        ensures
            match pkey {
                Some(p) if stored_pkey(p) is None => r matches Err(
                    ModelError::DatabaseTypeConversionError(m),
                ) && m@ == invalid_stored_pkey_message(p),
                _ => r matches Ok(c) && c.name@ == name@ && c.tenant_organization_id
                    == tenant_organization_id && c.mtu == stored_mtu(mtu) && c.rate_limit
                    == stored_rate_limit(rate_limit) && c.service_level == stored_service_level(
                    service_level,
                ) && match pkey {
                    Some(p) => c.pkey matches Some(k) && k.value() == stored_pkey(p)->0,
                    None => c.pkey is None,
                },
            },
    {
        let key = match pkey {
            Some(p) => match PartitionKey::try_from(p as u16) {
                Ok(k) => Some(k),
                Err(_) => {
                    let mut m = String::from_str("Pkey ");
                    let t = i32_text(p);
                    m.append(t.as_str());
                    m.append(" is not valid");
                    return Err(ModelError::DatabaseTypeConversionError(m));
                },
            },
            None => None,
        };
        let mtu = match IBMtu::try_from(mtu) {
            Ok(v) => Some(v),
            Err(_) => None,
        };
        let rate_limit = match IBRateLimit::try_from(rate_limit) {
            Ok(v) => Some(v),
            Err(_) => None,
        };
        let service_level = match IBServiceLevel::try_from(service_level) {
            Ok(v) => Some(v),
            Err(_) => None,
        };
        Ok(IBPartitionConfig { name, pkey: key, tenant_organization_id, mtu, rate_limit, service_level })
    }
}

impl IBPartition {
    /// The partition stored in a row's columns. The name is both the
    /// configuration's name and the metadata's; see
    /// `IBPartitionConfig::from_columns` for the rest of the configuration.
    pub fn from_columns(
        id: IBPartitionId,
        version: String,
        name: String,
        description: String,
        labels: Labels,
        pkey: Option<i32>,
        tenant_organization_id: TenantOrganizationId,
        mtu: i32,
        rate_limit: i32,
        service_level: i32,
        status: Option<IBPartitionStatus>,
        deleted: Option<UtcTimestamp>,
        controller_state: IBPartitionControllerState,
        controller_state_version: String,
        controller_state_outcome: Option<String>,
    ) -> (r: Result<IBPartition, ModelError>)
        ensures
            match pkey {
                Some(p) if stored_pkey(p) is None => r matches Err(
                    ModelError::DatabaseTypeConversionError(m),
                ) && m@ == invalid_stored_pkey_message(p),
                _ => r matches Ok(ib) && ib.id == id && ib.version == version
                    && ib.controller_state_version == controller_state_version
                    && ib.controller_state_outcome == controller_state_outcome
                    && ib.config.name@ == name@
                    && ib.config.tenant_organization_id == tenant_organization_id
                    && ib.config.mtu == stored_mtu(mtu) && ib.config.rate_limit
                    == stored_rate_limit(rate_limit) && ib.config.service_level
                    == stored_service_level(service_level) && match pkey {
                    Some(p) => ib.config.pkey matches Some(k) && k.value() == stored_pkey(p)->0,
                    None => ib.config.pkey is None,
                } && ib.status == status && ib.deleted == deleted && ib.controller_state
                    == controller_state && ib.metadata.name@ == name@
                    && ib.metadata.description@ == description@ && ib.metadata.labels@
                    == labels@,
            },
    {
        let config_name = name.clone();
        let config = match IBPartitionConfig::from_columns(
            config_name,
            pkey,
            tenant_organization_id,
            mtu,
            rate_limit,
            service_level,
        ) {
            Ok(c) => c,
            Err(e) => return Err(e),
        };
        Ok(IBPartition {
            id,
            version,
            config,
            status,
            deleted,
            controller_state,
            controller_state_version,
            controller_state_outcome,
            metadata: Metadata { name, description, labels },
        })
    }
}

/// The partition key an IB network of a partition carries: the key found
/// on the fabric, or 0 when none was.
pub open spec fn network_pkey(status: Option<IBPartitionStatus>) -> u16 {
    match status {
        Some(s) => match s.pkey {
            Some(k) => k.value(),
            None => 0,
        },
        None => 0,
    }
}

/// `net` is the IB network of the partition `ib` (see `From<&IBPartition>`).
pub open spec fn partition_network(ib: IBPartition, net: IBNetwork) -> bool {
    &&& net.name@ == ib.metadata.name@
    &&& net.pkey == network_pkey(ib.status)
    &&& net.ipoib
    &&& net.associated_guids is None
    &&& net.membership is None
    &&& net.qos_conf == Some(
        IBQosConf {
            mtu: match ib.config.mtu {
                Some(v) => v,
                None => IBMtu(4),
            },
            rate_limit: match ib.config.rate_limit {
                Some(v) => v,
                None => IBRateLimit(200),
            },
            service_level: match ib.config.service_level {
                Some(v) => v,
                None => IBServiceLevel(0),
            },
        },
    )
}

/// The IB network of a partition carries the partition key found on the
/// fabric when the partition's status holds one, and 0 in every other case
/// (no status, or a status without a key). Its quality of service is the
/// configured MTU, rate limit and service level, 4, 200 and 0 where none is
/// configured; IPoIB is on.
pub proof fn lemma_network_of_partition(ib: IBPartition, net: IBNetwork)
    requires
        partition_network(ib, net),
    ensures
        (ib.status is Some && ib.status.unwrap().pkey is Some) ==> net.pkey
            == ib.status.unwrap().pkey.unwrap().value(),
        !(ib.status is Some && ib.status.unwrap().pkey is Some) ==> net.pkey == 0,
        net.ipoib,
        net.qos_conf is Some,
        net.qos_conf.unwrap().mtu.0 == (if ib.config.mtu is Some { ib.config.mtu.unwrap().0 } else { 4 }),
        net.qos_conf.unwrap().rate_limit.0 == (if ib.config.rate_limit is Some {
            ib.config.rate_limit.unwrap().0
        } else {
            200
        }),
        net.qos_conf.unwrap().service_level.0 == (if ib.config.service_level is Some {
            ib.config.service_level.unwrap().0
        } else {
            0
        }),
{
}

impl<'a> From<&'a IBPartition> for IBNetwork {
    /// The IB network of a partition: its metadata name, the key found on the
    /// fabric (0 if none), IPoIB on, and its configured quality of service,
    /// with the default for each value not configured.
    fn from(ib: &'a IBPartition) -> (r: IBNetwork)
        ensures
            r.name@ == ib.metadata.name@,
            r.pkey == network_pkey(ib.status),
            r.ipoib,
            r.associated_guids is None,
            r.membership is None,
            r.qos_conf == Some(
                IBQosConf {
                    mtu: match ib.config.mtu {
                        Some(v) => v,
                        None => IBMtu(4),
                    },
                    rate_limit: match ib.config.rate_limit {
                        Some(v) => v,
                        None => IBRateLimit(200),
                    },
                    service_level: match ib.config.service_level {
                        Some(v) => v,
                        None => IBServiceLevel(0),
                    },
                },
            ),
            partition_network(*ib, r),
    {
        let pkey: u16 = match &ib.status {
            Some(s) => match s.pkey {
                Some(k) => u16::from(k),
                None => 0u16,
            },
            None => 0u16,
        };
        let mtu = match &ib.config.mtu {
            Some(v) => IBMtu(v.0),
            None => IBMtu::default(),
        };
        let rate_limit = match &ib.config.rate_limit {
            Some(v) => IBRateLimit(v.0),
            None => IBRateLimit::default(),
        };
        let service_level = match &ib.config.service_level {
            Some(v) => IBServiceLevel(v.0),
            None => IBServiceLevel::default(),
        };
        IBNetwork {
            name: ib.metadata.name.clone(),
            pkey,
            ipoib: true,
            associated_guids: None,
            membership: None,
            qos_conf: Some(IBQosConf { mtu, rate_limit, service_level }),
        }
    }
}

/// The network's name is a copy of a text, which no spec value of `String`
/// pins, so the exact contract of `from` is its own `ensures`.
impl<'a> vstd::std_specs::convert::FromSpecImpl<&'a IBPartition> for IBNetwork {
    open spec fn obeys_from_spec() -> bool {
        false
    }

    open spec fn from_spec(ib: &'a IBPartition) -> IBNetwork {
        arbitrary()
    }
}

/// How long a partition may stay in each state that has an SLA, in seconds.
#[derive(Debug, Clone, Copy, PartialEq, Eq, Structural)]
pub struct IbPartitionSlas {
    pub provisioning: u64,
    pub deleting: u64,
}

/// The SLA of a partition state: provisioning and deleting have one.
pub open spec fn ib_partition_sla_of(state: IBPartitionControllerState, slas: IbPartitionSlas) -> Option<u64> {
    match state {
        IBPartitionControllerState::Provisioning => Some(slas.provisioning),
        IBPartitionControllerState::Ready => None,
        IBPartitionControllerState::Error { .. } => None,
        IBPartitionControllerState::Deleting => Some(slas.deleting),
    }
}

/// Returns the SLA for the current state, given the nanoseconds spent in it.
pub fn state_sla(state: &IBPartitionControllerState, time_in_state_nanos: u128, slas: &IbPartitionSlas) -> (r: StateSla)
    ensures
        r == sla_outcome(ib_partition_sla_of(*state, *slas), time_in_state_nanos),
{
    match state {
        IBPartitionControllerState::Provisioning => StateSla::with_sla(slas.provisioning, time_in_state_nanos),
        IBPartitionControllerState::Ready => StateSla::no_sla(),
        IBPartitionControllerState::Error { .. } => StateSla::no_sla(),
        IBPartitionControllerState::Deleting => StateSla::with_sla(slas.deleting, time_in_state_nanos),
    }
}

/// A lowercased key text is read in decimal unless it begins with `0x`:
/// its key is the decimal number it denotes when that is at most `0x7fff`,
/// and there is no key when it denotes none or a larger one.
pub proof fn lemma_text_without_prefix_is_decimal(s: Seq<char>, r: Result<PartitionKey, InvalidPartitionKeyError>)
    requires
        pkey_parse_result(s, r),
        !(s.len() >= 2 && s[0] == '0' && s[1] == 'x'),
    ensures
        match u16_literal_value(s, 10) {
            Some(v) => (v <= 0x7fff ==> (r matches Ok(k) && k.value() == v)) && (v > 0x7fff
                ==> r is Err),
            None => r is Err,
        },
{
    assert(!has_prefix(s, seq!['0', 'x'])) by {
        if has_prefix(s, seq!['0', 'x']) {
            assert(s.take(2)[0] == s[0] && s.take(2)[1] == s[1]);
        }
    }
    assert(strip_all_prefixes(s, seq!['0', 'x']) == s);
}

/// A lowercased key text made of `0x` and digits that do not begin with
/// another `0x` is read in hexadecimal from those digits.
pub proof fn lemma_text_with_prefix_is_hex(
    d: Seq<char>,
    r: Result<PartitionKey, InvalidPartitionKeyError>,
)
    requires
        pkey_parse_result(seq!['0', 'x'] + d, r),
        !(d.len() >= 2 && d[0] == '0' && d[1] == 'x'),
    ensures
        match u16_literal_value(d, 16) {
            Some(v) => (v <= 0x7fff ==> (r matches Ok(k) && k.value() == v)) && (v > 0x7fff
                ==> r is Err),
            None => r is Err,
        },
{
    let s = seq!['0', 'x'] + d;
    assert(s.take(2) =~= seq!['0', 'x']);
    assert(has_prefix(s, seq!['0', 'x']));
    assert(s.skip(2) =~= d);
    assert(!has_prefix(d, seq!['0', 'x'])) by {
        if has_prefix(d, seq!['0', 'x']) {
            assert(d.take(2)[0] == d[0] && d.take(2)[1] == d[1]);
        }
    }
    assert(strip_all_prefixes(d, seq!['0', 'x']) == d);
    assert(strip_all_prefixes(s, seq!['0', 'x']) == d);
}

/// Reading a key from text and making one from the number the text denotes
/// agree: both accept exactly the numbers up to `0x7fff`, with the same key
/// or the same error.
pub proof fn lemma_text_and_number_agree(
    s: Seq<char>,
    v: u16,
    from_text: Result<PartitionKey, InvalidPartitionKeyError>,
    from_number: Result<PartitionKey, InvalidPartitionKeyError>,
)
    requires
        pkey_literal_value(s) == Some(v),
        pkey_parse_result(s, from_text),
        pkey_from_number_result(v, from_number),
    ensures
        from_text is Ok <==> from_number is Ok,
        from_text is Ok ==> from_text->Ok_0.value() == from_number->Ok_0.value(),
        from_text is Err ==> from_text->Err_0@ == from_number->Err_0@,
{
}

/// The canonical text of every valid key is its own lowercase form and reads
/// back as the key: rendering a partition key and parsing the text gives the
/// same key again.
pub proof fn lemma_pkey_text_round_trips(v: u16)
    requires
        v <= max_partition_key(),
    ensures
        is_lower_ascii_alnum(pkey_text(v)),
        pkey_literal_value(pkey_text(v)) == Some(v),
        forall|r: Result<PartitionKey, InvalidPartitionKeyError>|
            pkey_parse_result(pkey_text(v), r) <==> (r matches Ok(k) && k.value() == v),
{
    let h = lower_hex(v as nat);
    let t = pkey_text(v);
    lemma_digits_denote_their_number(v as nat, 16);
    assert(t.take(2) =~= seq!['0', 'x']);
    assert(has_prefix(t, seq!['0', 'x']));
    assert(t.skip(2) =~= h);
    assert(h.len() > 0);
    // the hex digits do not begin with another `0x`
    if h.len() >= 2 {
        assert(h[1] != 'x');
        assert(h.take(2) != seq!['0', 'x']);
    }
    assert(!has_prefix(h, seq!['0', 'x']));
    assert(strip_all_prefixes(h, seq!['0', 'x']) == h);
    assert(strip_all_prefixes(t, seq!['0', 'x']) == h);
    assert(h[0] != '+');
    assert(unsigned_literal_value(h, 16) == Some(v as nat));
    assert forall|i: int| 0 <= i < t.len() implies ('0' <= #[trigger] t[i] <= '9' || 'a' <= t[i] <= 'z') by {
        if i >= 2 {
            assert(t[i] == h[i - 2]);
        }
    }
}

} // verus!
