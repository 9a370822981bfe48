//! Deriving a machine's identity from its hardware fingerprint.
use vstd::prelude::*;
use vstd::string::*;

use crate::digest::{sha256, sha256_digest};
use crate::hardware_info::{DmiData, HardwareInfo};
use crate::machine::{MachineId, MachineIdSource, MachineType};

verus! {

/// Why no machine ID could be derived from a fingerprint.
#[derive(Debug, Copy, Clone, PartialEq, Eq, Structural)]
pub enum MissingHardwareInfo {
    /// The TPM certificate has no bytes.
    TPMCertEmpty,
    /// Product, board and chassis serial numbers are all empty.
    Serial,
    /// Neither TPM nor DMI data is present.
    All,
}

/// The message of each reason.
pub open spec fn missing_hardware_info_text(e: MissingHardwareInfo) -> Seq<char> {
    match e {
        MissingHardwareInfo::TPMCertEmpty => "The TPM certificate has no bytes"@,
        MissingHardwareInfo::Serial => "Serial number missing (product, board and chassis)"@,
        MissingHardwareInfo::All => "TPM and DMI data are both missing"@,
    }
}

impl MissingHardwareInfo {
    /// The message that describes the reason.
    pub fn to_string(&self) -> (r: String)
        ensures
            r@ == missing_hardware_info_text(*self),
    {
        match self {
            MissingHardwareInfo::TPMCertEmpty => {
                proof {
                    reveal_strlit("The TPM certificate has no bytes");
                }
                String::from_str("The TPM certificate has no bytes")
            },
            MissingHardwareInfo::Serial => {
                proof {
                    reveal_strlit("Serial number missing (product, board and chassis)");
                }
                String::from_str("Serial number missing (product, board and chassis)")
            },
            MissingHardwareInfo::All => {
                proof {
                    reveal_strlit("TPM and DMI data are both missing");
                }
                String::from_str("TPM and DMI data are both missing")
            },
        }
    }
}

/// The serial numbers as one text: `p<product>-b<board>-c<chassis>`.
pub open spec fn serials_text(d: DmiData) -> Seq<char> {
    seq!['p'] + d.product_serial@ + seq!['-', 'b'] + d.board_serial@ + seq!['-', 'c']
        + d.chassis_serial@
}

/// What a machine ID is derived from: a non-empty TPM certificate when there
/// is a certificate, else the serial numbers when there are serial numbers
/// and one of them is non-empty, with the bytes that get hashed.
pub open spec fn id_fingerprint(info: HardwareInfo) -> Result<
    (MachineIdSource, Seq<u8>),
    MissingHardwareInfo,
> {
    match info.tpm_ek_certificate {
        Some(cert) => if cert.0@.len() == 0 {
            Err(MissingHardwareInfo::TPMCertEmpty)
        } else {
            Ok((MachineIdSource::Tpm, cert.0@))
        },
        None => match info.dmi_data {
            Some(d) => if d.product_serial@.len() == 0 && d.board_serial@.len() == 0
                && d.chassis_serial@.len() == 0 {
                Err(MissingHardwareInfo::Serial)
            } else {
                Ok(
                    (
                        MachineIdSource::ProductBoardChassisSerial,
                        vstd::utf8::encode_utf8(serials_text(d)),
                    ),
                )
            },
            None => Err(MissingHardwareInfo::All),
        },
    }
}

/// `id` is the ID of type `machine_type` derived from `info`: its source is
/// the fingerprint's, its hash the SHA-256 digest of the fingerprint's bytes.
pub open spec fn derives(info: HardwareInfo, machine_type: MachineType, id: MachineId) -> bool {
    match id_fingerprint(info) {
        Ok((source, bytes)) => {
            &&& id.source == source
            &&& id.machine_type == machine_type
            &&& id.hash@ == sha256(bytes)
        },
        Err(_) => false,
    }
}

/// The outcome `r` of deriving an ID of type `machine_type` from `info`.
pub open spec fn derivation_outcome(
    info: HardwareInfo,
    machine_type: MachineType,
    r: Result<MachineId, MissingHardwareInfo>,
) -> bool {
    match id_fingerprint(info) {
        Ok(_) => r is Ok && derives(info, machine_type, r->Ok_0),
        Err(e) => r == Err::<MachineId, MissingHardwareInfo>(e),
    }
}

/// The type of the ID a fingerprint names on its own.
pub open spec fn own_type(info: HardwareInfo) -> MachineType {
    if info.dpu {
        MachineType::Dpu
    } else {
        MachineType::Host
    }
}

/// Generates a Machine ID of the given type from a hardware fingerprint.
///
/// Fails when there is no data to derive it from.
pub fn from_hardware_info_with_type(hardware_info: &HardwareInfo, machine_type: MachineType) -> (r:
    Result<MachineId, MissingHardwareInfo>)
    ensures
        derivation_outcome(*hardware_info, machine_type, r),
{
    let source;
    let digest;
    if let Some(cert) = &hardware_info.tpm_ek_certificate {
        let bytes = cert.as_bytes();
        if bytes.len() == 0 {
            return Err(MissingHardwareInfo::TPMCertEmpty);
        }
        source = MachineIdSource::Tpm;
        digest = sha256_digest(bytes);
    } else if let Some(dmi_data) = &hardware_info.dmi_data {
        // We need at least 1 valid serial number
        if dmi_data.product_serial.as_str().is_empty() && dmi_data.board_serial.as_str().is_empty()
            && dmi_data.chassis_serial.as_str().is_empty() {
            return Err(MissingHardwareInfo::Serial);
        }
        let all_serials = serials_string(dmi_data);
        let bytes = all_serials.as_str().as_bytes();
        source = MachineIdSource::ProductBoardChassisSerial;
        digest = sha256_digest(bytes);
    } else {
        return Err(MissingHardwareInfo::All);
    }
    Ok(MachineId::new(source, digest, machine_type))
}

/// The serial numbers as one text (see `serials_text`).
fn serials_string(d: &DmiData) -> (r: String)
    ensures
        r@ == serials_text(*d),
{
    proof {
        reveal_strlit("p");
        reveal_strlit("-b");
        reveal_strlit("-c");
    }
    let mut r = String::from_str("p");
    r.append(d.product_serial.as_str());
    r.append("-b");
    r.append(d.board_serial.as_str());
    r.append("-c");
    r.append(d.chassis_serial.as_str());
    r
}

/// Generates a Machine ID from a hardware fingerprint, of type `Dpu` for the
/// fingerprint of a DPU and `Host` for any other.
///
/// Fails when there is no data to derive it from.
pub fn from_hardware_info(hardware_info: &HardwareInfo) -> (r: Result<MachineId, MissingHardwareInfo>)
    ensures
        derivation_outcome(*hardware_info, own_type(*hardware_info), r),
{
    let machine_type = if hardware_info.is_dpu() {
        MachineType::Dpu
    } else {
        MachineType::Host
    };
    from_hardware_info_with_type(hardware_info, machine_type)
}

/// Generates a temporary Machine ID for a host from the hardware fingerprint
/// of the attached DPU.
///
/// Fails when there is no data to derive it from. Only a DPU's fingerprint
/// is accepted.
pub fn host_id_from_dpu_hardware_info(hardware_info: &HardwareInfo) -> (r: Result<
    MachineId,
    MissingHardwareInfo,
>)
    requires
        hardware_info.dpu,
    ensures
        derivation_outcome(*hardware_info, MachineType::PredictedHost, r),
{
    from_hardware_info_with_type(hardware_info, MachineType::PredictedHost)
}

/// Deriving an ID depends on nothing but the fingerprint and the type: two
/// fingerprints with the same TPM certificate, or without one and with the
/// same serial numbers, give the same ID.
pub proof fn lemma_derivation_is_deterministic(
    a: HardwareInfo,
    b: HardwareInfo,
    machine_type: MachineType,
    id_a: MachineId,
    id_b: MachineId,
)
    requires
        id_fingerprint(a) == id_fingerprint(b),
        derives(a, machine_type, id_a),
        derives(b, machine_type, id_b),
    ensures
        id_a == id_b,
{
    assert(id_a.hash@ == id_b.hash@);
    assert(id_a.hash =~= id_b.hash);
}

/// A present TPM certificate decides the ID whatever the serial numbers
/// are; an empty one makes derivation fail whatever they are.
pub proof fn lemma_tpm_certificate_wins(info: HardwareInfo, machine_type: MachineType, id: MachineId)
    requires
        info.tpm_ek_certificate is Some,
    ensures
        info.tpm_ek_certificate.unwrap().0@.len() == 0 ==> id_fingerprint(info) == Err::<
            (MachineIdSource, Seq<u8>),
            MissingHardwareInfo,
        >(MissingHardwareInfo::TPMCertEmpty),
        derives(info, machine_type, id) ==> id.source == MachineIdSource::Tpm && id.hash@ == sha256(
            info.tpm_ek_certificate.unwrap().0@,
        ),
{
}

/// Without a TPM certificate, an ID is derived from the serial numbers
/// exactly as they are given, case and all: its hash is the SHA-256 digest
/// of the UTF-8 bytes of `p`, the product serial, `-b`, the board serial,
/// `-c` and the chassis serial. Derivation fails exactly when all three
/// serials are empty, and with no serial numbers at all.
pub proof fn lemma_serials_are_hashed_as_given(
    info: HardwareInfo,
    machine_type: MachineType,
    r: Result<MachineId, MissingHardwareInfo>,
)
    requires
        info.tpm_ek_certificate is None,
        derivation_outcome(info, machine_type, r),
    ensures
        match info.dmi_data {
            Some(d) => if d.product_serial@.len() == 0 && d.board_serial@.len() == 0
                && d.chassis_serial@.len() == 0 {
                r == Err::<MachineId, MissingHardwareInfo>(MissingHardwareInfo::Serial)
            } else {
                &&& r is Ok
                &&& r->Ok_0.source == MachineIdSource::ProductBoardChassisSerial
                &&& r->Ok_0.machine_type == machine_type
                &&& r->Ok_0.hash@ == sha256(
                    vstd::utf8::encode_utf8(
                        "p"@ + d.product_serial@ + "-b"@ + d.board_serial@ + "-c"@
                            + d.chassis_serial@,
                    ),
                )
            },
            None => r == Err::<MachineId, MissingHardwareInfo>(MissingHardwareInfo::All),
        },
{
    reveal_strlit("p");
    reveal_strlit("-b");
    reveal_strlit("-c");
    match info.dmi_data {
        Some(d) => {
            assert("p"@ + d.product_serial@ + "-b"@ + d.board_serial@ + "-c"@ + d.chassis_serial@
                =~= serials_text(d));
        },
        None => {},
    }
}

/// The type an ID is derived with is the type it names: a DPU's own
/// fingerprint gives a DPU ID, any other fingerprint a host ID.
pub proof fn lemma_own_type_follows_the_fingerprint(info: HardwareInfo)
    ensures
        info.dpu ==> own_type(info) == MachineType::Dpu,
        !info.dpu ==> own_type(info) == MachineType::Host,
{
}

} // verus!
