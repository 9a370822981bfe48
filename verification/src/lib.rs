//! Data model of the site controller: InfiniBand partitions and ports,
//! network segments, resource pools, machine identities, machine
//! validation, power shelves and SPDM attestation records.
//!
//! Every parser, validator and conversion here carries a contract that
//! states its result exactly over the values it reads.
use vstd::prelude::*;

pub mod errors;
pub mod text;
pub mod ib;
pub mod external;
pub mod ib_partition;
pub mod metadata;
pub mod ids;
pub mod allocation_type;
pub mod network_segment;
pub mod resource_pool;
pub mod machine_validation;
pub mod machine;
pub mod digest;
pub mod hardware_info;
pub mod attestation;
pub mod power_shelf;
pub mod state_sla;

verus! {

} // verus!
