//! Power shelves: configuration, observed status, maintenance requests and
//! the controller's states.
use vstd::prelude::*;

use crate::ids::UtcTimestamp;
use crate::metadata::{Labels, Metadata};
use crate::state_sla::{sla_outcome, StateSla};

verus! {

/// Identifier of a power shelf, as text.
#[derive(Debug, Clone, PartialEq, Eq, Hash)]
pub struct PowerShelfId(pub String);

/// Identifier of a rack, as text.
#[derive(Debug, Clone, PartialEq, Eq, Hash)]
pub struct RackId(pub String);

/// A power shelf to be created.
#[derive(Debug, Clone)]
pub struct NewPowerShelf {
    pub id: PowerShelfId,
    pub config: PowerShelfConfig,
    /// The six bytes of the BMC's MAC address.
    pub bmc_mac_address: Option<[u8; 6]>,
    pub metadata: Option<Metadata>,
    pub rack_id: Option<RackId>,
}

/// Configuration of a power shelf.
#[derive(Debug, Clone, PartialEq)]
pub struct PowerShelfConfig {
    pub name: String,
    /// Power capacity in watts.
    pub capacity: Option<u32>,
    /// Voltage in volts.
    pub voltage: Option<u32>,
}

/// Status of a power shelf as reported by it.
#[derive(Debug, Clone, PartialEq)]
pub struct PowerShelfStatus {
    pub shelf_name: String,
    /// `on`, `off` or `standby`.
    pub power_state: String,
    /// `ok`, `warning` or `critical`.
    pub health_status: String,
}

/// A power shelf.
#[derive(Debug, Clone)]
pub struct PowerShelf {
    pub id: PowerShelfId,
    pub config: PowerShelfConfig,
    pub status: Option<PowerShelfStatus>,
    pub deleted: Option<UtcTimestamp>,
    pub controller_state: PowerShelfControllerState,
    /// The text of the controller state's version.
    pub controller_state_version: String,
    /// The result of the last attempt to change state, as its JSON text.
    pub controller_state_outcome: Option<String>,
    /// The six bytes of the BMC's MAC address.
    pub bmc_mac_address: Option<[u8; 6]>,
    /// The rack that this power shelf is associated with.
    pub rack_id: Option<RackId>,
    pub power_shelf_maintenance_requested: Option<PowerShelfMaintenanceRequest>,
    pub metadata: Metadata,
    /// The text of the configuration's version.
    pub version: String,
    /// The sources of health reports, as their JSON text; `None` when they
    /// could not be read, which counts as no sources.
    pub health_reports: Option<String>,
}

impl PowerShelf {
    /// Returns whether the power shelf was deleted by the user.
    pub fn is_marked_as_deleted(&self) -> (r: bool)
        ensures
            r == self.deleted is Some,
    {
        self.deleted.is_some()
    }
}

impl PowerShelf {
    /// The power shelf stored in a row's columns. A MAC address or rack that
    /// could not be read (outer `None`) counts as absent, like a null one;
    /// the metadata is made of the stored name, description and labels.
    pub fn from_columns(
        id: PowerShelfId,
        config: PowerShelfConfig,
        status: Option<PowerShelfStatus>,
        deleted: Option<UtcTimestamp>,
        controller_state: PowerShelfControllerState,
        controller_state_version: String,
        controller_state_outcome: Option<String>,
        bmc_mac_address: Option<Option<[u8; 6]>>,
        rack_id: Option<Option<RackId>>,
        power_shelf_maintenance_requested: Option<PowerShelfMaintenanceRequest>,
        name: String,
        description: String,
        labels: Labels,
        version: String,
        health_reports: Option<String>,
    ) -> (r: PowerShelf)
        ensures
            r.id == id,
            r.config == config,
            r.status == status,
            r.deleted == deleted,
            r.controller_state == controller_state,
            r.controller_state_version == controller_state_version,
            r.controller_state_outcome == controller_state_outcome,
            r.bmc_mac_address == match bmc_mac_address {
                Some(m) => m,
                None => None,
            },
            r.rack_id == match rack_id {
                Some(k) => k,
                None => None,
            },
            r.power_shelf_maintenance_requested == power_shelf_maintenance_requested,
            r.metadata == (Metadata { name, description, labels }),
            r.version == version,
            r.health_reports == health_reports,
    {
        let bmc_mac_address = match bmc_mac_address {
            Some(m) => m,
            None => None,
        };
        let rack_id = match rack_id {
            Some(k) => k,
            None => None,
        };
        PowerShelf {
            id,
            config,
            status,
            deleted,
            controller_state,
            controller_state_version,
            controller_state_outcome,
            bmc_mac_address,
            rack_id,
            power_shelf_maintenance_requested,
            metadata: Metadata { name, description, labels },
            version,
            health_reports,
        }
    }
}

/// An operation of maintenance on a power shelf.
#[derive(Clone, Copy, Debug, PartialEq, Eq, Structural)]
pub enum PowerShelfMaintenanceOperation {
    /// Power on the power shelf.
    PowerOn,
    /// Power off the power shelf.
    PowerOff,
}

/// A request for maintenance on a power shelf.
#[derive(Debug, Clone, PartialEq, Eq)]
pub struct PowerShelfMaintenanceRequest {
    pub requested_at: UtcTimestamp,
    pub initiator: String,
    pub operation: PowerShelfMaintenanceOperation,
}

/// State of a power shelf as tracked by the controller.
#[derive(Clone, Debug, PartialEq, Eq)]
pub enum PowerShelfControllerState {
    /// The power shelf is created, waiting for initialization.
    Initializing,
    /// The power shelf is fetching data.
    FetchingData,
    /// The power shelf is being configured.
    Configuring,
    /// The power shelf is ready for use.
    Ready,
    /// The power shelf is under maintenance.
    Maintenance { operation: PowerShelfMaintenanceOperation },
    /// The power shelf is in error and cannot be used.
    Error { cause: String },
    /// The power shelf is being deleted.
    Deleting,
}

/// Filter for searching power shelves.
#[derive(Clone, Debug, Default)]
pub struct PowerShelfSearchFilter {
    pub rack_id: Option<RackId>,
    pub controller_state: Option<String>,
    /// The six bytes of a BMC MAC address.
    pub bmc_mac: Option<[u8; 6]>,
}

/// How long a power shelf may stay in each state that has an SLA, in seconds.
#[derive(Debug, Clone, Copy, PartialEq, Eq, Structural)]
pub struct PowerShelfSlas {
    pub initializing: u64,
    pub fetching_data: u64,
    pub configuring: u64,
    pub maintenance: u64,
    pub deleting: u64,
}

/// The SLA of a power shelf state: every state but `Ready` and `Error`
/// has one, maintenance the same whatever the operation.
pub open spec fn power_shelf_sla_of(state: PowerShelfControllerState, slas: PowerShelfSlas) -> Option<u64> {
    match state {
        PowerShelfControllerState::Initializing => Some(slas.initializing),
        PowerShelfControllerState::FetchingData => Some(slas.fetching_data),
        PowerShelfControllerState::Configuring => Some(slas.configuring),
        PowerShelfControllerState::Ready => None,
        PowerShelfControllerState::Maintenance { .. } => Some(slas.maintenance),
        PowerShelfControllerState::Error { .. } => None,
        PowerShelfControllerState::Deleting => Some(slas.deleting),
    }
}

/// Returns the SLA for the current state, given the nanoseconds spent in it.
pub fn state_sla(state: &PowerShelfControllerState, time_in_state_nanos: u128, slas: &PowerShelfSlas) -> (r: StateSla)
    ensures
        r == sla_outcome(power_shelf_sla_of(*state, *slas), time_in_state_nanos),
{
    match state {
        PowerShelfControllerState::Initializing => StateSla::with_sla(slas.initializing, time_in_state_nanos),
        PowerShelfControllerState::FetchingData => StateSla::with_sla(slas.fetching_data, time_in_state_nanos),
        PowerShelfControllerState::Configuring => StateSla::with_sla(slas.configuring, time_in_state_nanos),
        PowerShelfControllerState::Ready => StateSla::no_sla(),
        PowerShelfControllerState::Maintenance { .. } => StateSla::with_sla(slas.maintenance, time_in_state_nanos),
        PowerShelfControllerState::Error { .. } => StateSla::no_sla(),
        PowerShelfControllerState::Deleting => StateSla::with_sla(slas.deleting, time_in_state_nanos),
    }
}

} // verus!
