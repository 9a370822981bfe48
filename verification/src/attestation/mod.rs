//! Records of TPM and SPDM attestation.
use vstd::prelude::*;

use crate::ids::UtcTimestamp;
use crate::machine::MachineId;

pub mod spdm;

verus! {

/// Result of verifying a machine's TPM endorsement key certificate.
#[derive(Debug)]
pub struct EkCertVerificationStatus {
    pub ek_sha256: Vec<u8>,
    pub serial_num: String,
    pub signing_ca_found: bool,
    pub issuer: Vec<u8>,
    pub issuer_access_info: Option<String>,
    pub machine_id: MachineId,
}

/// A secret and the attestation key it was sealed to.
#[derive(Debug)]
pub struct SecretAkPub {
    pub secret: Vec<u8>,
    pub ak_pub: Vec<u8>,
}

/// A certificate of a TPM vendor's certificate authority.
#[derive(Debug)]
pub struct TpmCaCert {
    pub id: i32,
    pub not_valid_before: UtcTimestamp,
    pub not_valid_after: UtcTimestamp,
    pub ca_cert_der: Vec<u8>,
    pub cert_subject: Vec<u8>,
}

} // verus!
