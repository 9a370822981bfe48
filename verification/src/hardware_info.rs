//! The parts of a machine's hardware fingerprint that its identity is
//! derived from.
use vstd::prelude::*;

verus! {

/// The DER bytes of a TPM endorsement key certificate.
#[derive(Debug, Clone, Default)]
pub struct TpmEkCertificate(pub Vec<u8>);

impl TpmEkCertificate {
    /// The certificate's bytes.
    pub fn as_bytes(&self) -> (r: &[u8])
        ensures
            r@ == self.0@,
    {
        self.0.as_slice()
    }
}

impl From<Vec<u8>> for TpmEkCertificate {
    fn from(cert: Vec<u8>) -> (r: TpmEkCertificate)
        ensures
            r.0@ == cert@,
    {
        TpmEkCertificate(cert)
    }
}

impl vstd::std_specs::convert::FromSpecImpl<Vec<u8>> for TpmEkCertificate {
    open spec fn obeys_from_spec() -> bool {
        true
    }

    open spec fn from_spec(cert: Vec<u8>) -> TpmEkCertificate {
        TpmEkCertificate(cert)
    }
}

/// Serial numbers read from the SMBIOS tables.
#[derive(Debug, Clone, Default)]
pub struct DmiData {
    pub product_serial: String,
    pub board_serial: String,
    pub chassis_serial: String,
}

/// Hardware fingerprint of a machine: its TPM endorsement certificate and
/// its serial numbers, where they were found, and whether it is a DPU.
#[derive(Debug, Clone, Default)]
pub struct HardwareInfo {
    pub tpm_ek_certificate: Option<TpmEkCertificate>,
    pub dmi_data: Option<DmiData>,
    /// The fingerprint was taken on a DPU.
    pub dpu: bool,
}

impl HardwareInfo {
    /// Whether the fingerprint was taken on a DPU.
    pub fn is_dpu(&self) -> (r: bool)
        ensures
            r == self.dpu,
    {
        self.dpu
    }
}

} // verus!
