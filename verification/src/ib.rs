//! InfiniBand networks, ports and their quality-of-service parameters.
use std::collections::HashSet;

use vstd::prelude::*;

use crate::errors::ModelError;
use crate::text::{concat2, decimal, i32_text, lowercased, str_eq, to_lowercase, trim, trimmed};

verus! {

/// Name of the fabric used when none is given.
pub const DEFAULT_IB_FABRIC_NAME: &'static str = "default";

/// An InfiniBand network (a partition as seen by the fabric manager).
#[derive(Clone, Debug, PartialEq, Eq)]
pub struct IBNetwork {
    /// The name of IB network.
    pub name: String,
    /// The pkey of IB network.
    pub pkey: u16,
    /// Default false
    pub ipoib: bool,
    /// Quality of service parameters associated with the partition.
    /// Only available if explicitly requested.
    pub qos_conf: Option<IBQosConf>,
    /// Guids associated with the partition.
    /// Only available if explicitly requested.
    pub associated_guids: Option<HashSet<String>>,
    /// The default membership status of ports on this partition.
    /// The value is only available if all of these things are true:
    /// - The partition is the default partition
    /// - associated ports/guid are queried
    /// - UFM version is 6.19 or newer
    pub membership: Option<IBPortMembership>,
}

/// Quality of service configuration
#[derive(Clone, Debug, PartialEq, Eq)]
pub struct IBQosConf {
    /// Default 4k; one of 2k or 4k; the MTU of the services.
    pub mtu: IBMtu,
    /// Default 0, value can range from 0-15.
    pub service_level: IBServiceLevel,
    /// Supported values: 10, 30, 5, 20, 40, 60, 80, 120, 14, 56, 112, 168, 25, 100, 200, or 300.
    /// 2 is also valid but stands for the rate limit 2.5 that UFM offers for legacy
    /// hardware; the conversion between 2 and 2.5 happens at the REST API only.
    pub rate_limit: IBRateLimit,
}

/// Logical state of an IB port.
#[derive(Clone, Copy, PartialEq, Eq, Debug, Structural)]
pub enum IBPortState {
    Active,
    Down,
    Initialize,
    Armed,
}

/// Membership of a port in a partition.
#[derive(Copy, Clone, Debug, PartialEq, Eq, Structural)]
pub enum IBPortMembership {
    Full,
    Limited,
}

/// The text of a membership: `full` or `limited`.
pub open spec fn membership_text(m: IBPortMembership) -> Seq<char> {
    match m {
        IBPortMembership::Full => "full"@,
        IBPortMembership::Limited => "limited"@,
    }
}

impl IBPortMembership {
    /// Renders the membership as `full` or `limited`.
    pub fn to_string(&self) -> (r: String)
        ensures
            r@ == membership_text(*self),
    {
        match self {
            IBPortMembership::Full => String::from_str("full"),
            IBPortMembership::Limited => String::from_str("limited"),
        }
    }
}

/// An IB port of a host.
#[derive(Clone, Debug, PartialEq)]
pub struct IBPort {
    pub name: String,
    pub guid: String,
    pub lid: i32,
    /// Logical state is used.
    /// Possible states reported by device: 'Down', 'Initialize', 'Armed', 'Active'
    pub state: Option<IBPortState>,
}

/// MTU of an IB partition: 2 (2k) or 4 (4k).
#[derive(Debug, Clone, PartialEq, Eq, Structural)]
pub struct IBMtu(pub i32);

/// Rate limit of an IB partition, in Gb/s (2 stands for 2.5).
#[derive(Debug, Clone, PartialEq, Eq, Structural)]
pub struct IBRateLimit(pub i32);

/// Service level of an IB partition, 0 to 15.
#[derive(Debug, Clone, PartialEq, Eq, Structural)]
pub struct IBServiceLevel(pub i32);

/// The port state a normalized (lowercased, trimmed) word names.
pub open spec fn port_state_named(word: Seq<char>) -> Option<IBPortState> {
    if word == "active"@ {
        Some(IBPortState::Active)
    } else if word == "down"@ {
        Some(IBPortState::Down)
    } else if word == "initialize"@ {
        Some(IBPortState::Initialize)
    } else if word == "armed"@ {
        Some(IBPortState::Armed)
    } else {
        None
    }
}

/// The port state a reported state string names: it is lowercased, then
/// trimmed, then compared with the four state names.
pub open spec fn port_state_of_report(s: Seq<char>) -> Option<IBPortState> {
    port_state_named(trimmed(lowercased(s)))
}

/// Text of the error for a state string that names no port state.
pub open spec fn invalid_port_state_message(s: Seq<char>) -> Seq<char> {
    s + " is an invalid IBPortState"@
}

/// The exact outcome of parsing a reported port state `s`.
pub open spec fn port_state_parse_result(s: Seq<char>, r: Result<IBPortState, ModelError>) -> bool {
    match port_state_of_report(s) {
        Some(st) => r == Ok::<IBPortState, ModelError>(st),
        None => r matches Err(ModelError::InvalidArgument(m)) && m@ == invalid_port_state_message(s),
    }
}

impl IBPortState {
    /// The port state a normalized word names: `active`, `down`, `initialize`
    /// or `armed`; `None` for any other word.
    pub fn from_word(word: &str) -> (r: Option<IBPortState>)
        ensures
            r == port_state_named(word@),
    {
        if str_eq(word, "active") {
            Some(IBPortState::Active)
        } else if str_eq(word, "down") {
            Some(IBPortState::Down)
        } else if str_eq(word, "initialize") {
            Some(IBPortState::Initialize)
        } else if str_eq(word, "armed") {
            Some(IBPortState::Armed)
        } else {
            None
        }
    }
}

impl TryFrom<String> for IBPortState {
    type Error = ModelError;

    /// Parses a reported port state, ignoring case and surrounding whitespace.
    fn try_from(state: String) -> (r: Result<Self, Self::Error>)
        ensures
            port_state_parse_result(state@, r),
    {
        let lower = to_lowercase(state.as_str());
        let word = trim(lower.as_str());
        match IBPortState::from_word(word) {
            Some(st) => Ok(st),
            None => Err(ModelError::InvalidArgument(concat2(state.as_str(), " is an invalid IBPortState"))),
        }
    }
}

/// The model's errors carry text, which no spec value can hold, so the exact
/// contract of `try_from` is its own `ensures`, not this generic model.
impl vstd::std_specs::convert::TryFromSpecImpl<String> for IBPortState {
    open spec fn obeys_try_from_spec() -> bool {
        false
    }

    open spec fn try_from_spec(v: String) -> Result<Self, ModelError> {
        arbitrary()
    }
}

impl<'a> TryFrom<&'a str> for IBPortState {
    type Error = ModelError;

    /// Parses a reported port state, ignoring case and surrounding whitespace.
    fn try_from(state: &'a str) -> (r: Result<Self, Self::Error>)
        ensures
            port_state_parse_result(state@, r),
    {
        IBPortState::try_from(String::from_str(state))
    }
}

/// The model's errors carry text, which no spec value can hold, so the exact
/// contract of `try_from` is its own `ensures`, not this generic model.
impl<'a> vstd::std_specs::convert::TryFromSpecImpl<&'a str> for IBPortState {
    open spec fn obeys_try_from_spec() -> bool {
        false
    }

    open spec fn try_from_spec(v: &'a str) -> Result<Self, ModelError> {
        arbitrary()
    }
}

// ---------------------------------------------------------------------
// MTU
// ---------------------------------------------------------------------

/// The MTU values an IB partition accepts.
pub open spec fn is_valid_mtu(v: int) -> bool {
    v == 2 || v == 4
}

/// Text of the error for an MTU outside the accepted values.
pub open spec fn invalid_mtu_message(v: int) -> Seq<char> {
    decimal(v) + " is an invalid MTU"@
}

impl Default for IBMtu {
    /// The default MTU is 4k.
    fn default() -> (r: IBMtu)
        ensures
            r == IBMtu(4),
    {
        IBMtu(4)
    }
}

impl TryFrom<i32> for IBMtu {
    type Error = ModelError;

    /// Accepts 2 and 4; rejects every other value.
    fn try_from(mtu: i32) -> (r: Result<Self, Self::Error>)
        ensures
            is_valid_mtu(mtu as int) ==> r == Ok::<IBMtu, ModelError>(IBMtu(mtu)),
            !is_valid_mtu(mtu as int) ==> (r matches Err(ModelError::InvalidArgument(m))
                && m@ == invalid_mtu_message(mtu as int)),
            mtu_outcome(mtu, r),
    {
        if mtu == 2 || mtu == 4 {
            Ok(IBMtu(mtu))
        } else {
            let t = i32_text(mtu);
            Err(ModelError::InvalidArgument(concat2(t.as_str(), " is an invalid MTU")))
        }
    }
}

/// The model's errors carry text, which no spec value can hold, so the exact
/// contract of `try_from` is its own `ensures`, not this generic model.
impl vstd::std_specs::convert::TryFromSpecImpl<i32> for IBMtu {
    open spec fn obeys_try_from_spec() -> bool {
        false
    }

    open spec fn try_from_spec(v: i32) -> Result<Self, ModelError> {
        arbitrary()
    }
}

impl From<IBMtu> for i32 {
    /// The MTU as its number.
    fn from(mtu: IBMtu) -> (r: i32)
        ensures
            r == mtu.0,
    {
        mtu.0
    }
}

impl vstd::std_specs::convert::FromSpecImpl<IBMtu> for i32 {
    open spec fn obeys_from_spec() -> bool {
        true
    }

    open spec fn from_spec(v: IBMtu) -> i32 {
        v.0
    }
}

// ---------------------------------------------------------------------
// Rate limit
// ---------------------------------------------------------------------

/// The rate limits an IB partition accepts; 2 stands for the legacy SDR rate 2.5.
pub open spec fn is_valid_rate_limit(v: int) -> bool {
    ||| v == 10 || v == 30 || v == 5 || v == 20 || v == 40 || v == 60 || v == 80 || v == 120
    ||| v == 14 || v == 56 || v == 112 || v == 168 || v == 25 || v == 100 || v == 200 || v == 300
    ||| v == 2
}

/// Text of the error for a rate limit outside the accepted values.
pub open spec fn invalid_rate_limit_message(v: int) -> Seq<char> {
    decimal(v) + " is an invalid rate limit"@
}

impl Default for IBRateLimit {
    /// The default rate limit is 200.
    fn default() -> (r: IBRateLimit)
        ensures
            r == IBRateLimit(200),
    {
        IBRateLimit(200)
    }
}

impl TryFrom<i32> for IBRateLimit {
    type Error = ModelError;

    /// Accepts the supported rate limits and the legacy value 2.
    fn try_from(rate_limit: i32) -> (r: Result<Self, Self::Error>)
        ensures
            is_valid_rate_limit(rate_limit as int) ==> r == Ok::<IBRateLimit, ModelError>(
                IBRateLimit(rate_limit),
            ),
            !is_valid_rate_limit(rate_limit as int) ==> (r matches Err(ModelError::InvalidArgument(m))
                && m@ == invalid_rate_limit_message(rate_limit as int)),
            rate_limit_outcome(rate_limit, r),
    {
        match rate_limit {
            10 | 30 | 5 | 20 | 40 | 60 | 80 | 120 | 14 | 56 | 112 | 168 | 25 | 100 | 200 | 300 => {
                Ok(IBRateLimit(rate_limit))
            },
            // the legacy SDR rate 2.5
            2 => Ok(IBRateLimit(rate_limit)),
            _ => {
                let t = i32_text(rate_limit);
                Err(ModelError::InvalidArgument(concat2(t.as_str(), " is an invalid rate limit")))
            },
        }
    }
}

/// The model's errors carry text, which no spec value can hold, so the exact
/// contract of `try_from` is its own `ensures`, not this generic model.
impl vstd::std_specs::convert::TryFromSpecImpl<i32> for IBRateLimit {
    open spec fn obeys_try_from_spec() -> bool {
        false
    }

    open spec fn try_from_spec(v: i32) -> Result<Self, ModelError> {
        arbitrary()
    }
}

impl From<IBRateLimit> for i32 {
    /// The rate limit as its number.
    fn from(rate_limit: IBRateLimit) -> (r: i32)
        ensures
            r == rate_limit.0,
    {
        rate_limit.0
    }
}

impl vstd::std_specs::convert::FromSpecImpl<IBRateLimit> for i32 {
    open spec fn obeys_from_spec() -> bool {
        true
    }

    open spec fn from_spec(v: IBRateLimit) -> i32 {
        v.0
    }
}

// ---------------------------------------------------------------------
// Service level
// ---------------------------------------------------------------------

/// The service levels an IB partition accepts: 0 to 15.
pub open spec fn is_valid_service_level(v: int) -> bool {
    0 <= v <= 15
}

/// Text of the error for a service level outside 0..=15.
pub open spec fn invalid_service_level_message(v: int) -> Seq<char> {
    decimal(v) + " is an invalid service level"@
}

impl Default for IBServiceLevel {
    /// The default service level is 0.
    fn default() -> (r: IBServiceLevel)
        ensures
            r == IBServiceLevel(0),
    {
        IBServiceLevel(0)
    }
}

impl TryFrom<i32> for IBServiceLevel {
    type Error = ModelError;

    /// Accepts 0 to 15.
    fn try_from(service_level: i32) -> (r: Result<Self, Self::Error>)
        ensures
            is_valid_service_level(service_level as int) ==> r == Ok::<IBServiceLevel, ModelError>(
                IBServiceLevel(service_level),
            ),
            !is_valid_service_level(service_level as int) ==> (r matches Err(
                ModelError::InvalidArgument(m),
            ) && m@ == invalid_service_level_message(service_level as int)),
            service_level_outcome(service_level, r),
    {
        if 0 <= service_level && service_level <= 15 {
            Ok(IBServiceLevel(service_level))
        } else {
            let t = i32_text(service_level);
            Err(ModelError::InvalidArgument(concat2(t.as_str(), " is an invalid service level")))
        }
    }
}

/// The model's errors carry text, which no spec value can hold, so the exact
/// contract of `try_from` is its own `ensures`, not this generic model.
impl vstd::std_specs::convert::TryFromSpecImpl<i32> for IBServiceLevel {
    open spec fn obeys_try_from_spec() -> bool {
        false
    }

    open spec fn try_from_spec(v: i32) -> Result<Self, ModelError> {
        arbitrary()
    }
}

impl From<IBServiceLevel> for i32 {
    /// The service level as its number.
    fn from(service_level: IBServiceLevel) -> (r: i32)
        ensures
            r == service_level.0,
    {
        service_level.0
    }
}

impl vstd::std_specs::convert::FromSpecImpl<IBServiceLevel> for i32 {
    open spec fn obeys_from_spec() -> bool {
        true
    }

    open spec fn from_spec(v: IBServiceLevel) -> i32 {
        v.0
    }
}

// ---------------------------------------------------------------------
// Laws
// ---------------------------------------------------------------------

/// The outcome of checking `v` as an MTU.
pub open spec fn mtu_outcome(v: i32, r: Result<IBMtu, ModelError>) -> bool {
    if is_valid_mtu(v as int) {
        r == Ok::<IBMtu, ModelError>(IBMtu(v))
    } else {
        r matches Err(ModelError::InvalidArgument(m)) && m@ == invalid_mtu_message(v as int)
    }
}

/// The outcome of checking `v` as a rate limit.
pub open spec fn rate_limit_outcome(v: i32, r: Result<IBRateLimit, ModelError>) -> bool {
    if is_valid_rate_limit(v as int) {
        r == Ok::<IBRateLimit, ModelError>(IBRateLimit(v))
    } else {
        r matches Err(ModelError::InvalidArgument(m)) && m@ == invalid_rate_limit_message(v as int)
    }
}

/// The outcome of checking `v` as a service level.
pub open spec fn service_level_outcome(v: i32, r: Result<IBServiceLevel, ModelError>) -> bool {
    if is_valid_service_level(v as int) {
        r == Ok::<IBServiceLevel, ModelError>(IBServiceLevel(v))
    } else {
        r matches Err(ModelError::InvalidArgument(m)) && m@ == invalid_service_level_message(
            v as int,
        )
    }
}

/// The MTU check keeps 2 and 4 as they are and rejects every other
/// number with a message that names it.
pub proof fn lemma_mtu_accepts_2k_and_4k(v: i32, r: Result<IBMtu, ModelError>)
    requires
        mtu_outcome(v, r),
    ensures
        (v == 2 || v == 4) ==> r == Ok::<IBMtu, ModelError>(IBMtu(v)),
        !(v == 2 || v == 4) ==> (r matches Err(ModelError::InvalidArgument(m)) && m@ == decimal(
            v as int,
        ) + " is an invalid MTU"@),
{
}

/// The rate limit check keeps 2 (for 2.5), 5, 10, 14, 20, 25, 30, 40, 56,
/// 60, 80, 100, 112, 120, 168, 200 and 300 as they are and rejects every
/// other number with a message that names it.
pub proof fn lemma_rate_limits_accepted(v: i32, r: Result<IBRateLimit, ModelError>)
    requires
        rate_limit_outcome(v, r),
    ensures
        ({
            ||| v == 2 || v == 5 || v == 10 || v == 14 || v == 20 || v == 25 || v == 30 || v == 40
            ||| v == 56 || v == 60 || v == 80 || v == 100 || v == 112 || v == 120 || v == 168
            ||| v == 200 || v == 300
        }) <==> r == Ok::<IBRateLimit, ModelError>(IBRateLimit(v)),
        r is Err ==> (r matches Err(ModelError::InvalidArgument(m)) && m@ == decimal(v as int)
            + " is an invalid rate limit"@),
{
}

/// The service level check keeps every number from 0 to 15 as it is and
/// rejects every other number with a message that names it.
pub proof fn lemma_service_levels_accepted(v: i32, r: Result<IBServiceLevel, ModelError>)
    requires
        service_level_outcome(v, r),
    ensures
        0 <= v <= 15 ==> r == Ok::<IBServiceLevel, ModelError>(IBServiceLevel(v)),
        !(0 <= v <= 15) ==> (r matches Err(ModelError::InvalidArgument(m)) && m@ == decimal(
            v as int,
        ) + " is an invalid service level"@),
{
}


/// Every default quality-of-service value is one that the matching
/// `try_from` accepts.
pub proof fn lemma_qos_defaults_are_valid()
    ensures
        is_valid_mtu(4),
        is_valid_rate_limit(200),
        is_valid_service_level(0),
{
}

/// Port state names are case-insensitive and ignore surrounding whitespace:
/// two reports with the same trimmed lowercase form name the same state.
pub proof fn lemma_port_state_depends_on_normalized_form(a: Seq<char>, b: Seq<char>)
    requires
        trimmed(lowercased(a)) == trimmed(lowercased(b)),
    ensures
        port_state_of_report(a) == port_state_of_report(b),
{
}

} // verus!
