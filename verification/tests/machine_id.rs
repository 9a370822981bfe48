use api_model::hardware_info::{DmiData, HardwareInfo, TpmEkCertificate};
use api_model::machine::machine_id::{
    from_hardware_info, from_hardware_info_with_type, host_id_from_dpu_hardware_info,
    MissingHardwareInfo,
};
use api_model::machine::{MachineId, MachineIdSource, MachineType, MACHINE_ID_LENGTH};

// A fingerprint carrying only the two fields the ID derivation looks at.
fn info_for_id(tpm: Option<Vec<u8>>, serials: Option<(&str, &str, &str)>) -> HardwareInfo {
    HardwareInfo {
        tpm_ek_certificate: tpm.map(TpmEkCertificate::from),
        dmi_data: serials.map(|(product, board, chassis)| DmiData {
            product_serial: product.to_string(),
            board_serial: board.to_string(),
            chassis_serial: chassis.to_string(),
        }),
        ..Default::default()
    }
}

fn is_dns_label(s: &str) -> bool {
    let bytes = s.as_bytes();
    !bytes.is_empty()
        && bytes.iter().all(|b| b.is_ascii_lowercase() || b.is_ascii_digit() || *b == b'-')
        && bytes[0] != b'-'
        && bytes[bytes.len() - 1] != b'-'
}

#[test]
fn from_hardware_info_with_type_error_paths() {
    let cases: [(&str, HardwareInfo, Result<(), MissingHardwareInfo>); 9] = [
        ("present but empty TPM cert is rejected", info_for_id(Some(vec![]), None), Err(MissingHardwareInfo::TPMCertEmpty)),
        (
            "empty TPM cert is rejected even with valid serials present",
            info_for_id(Some(vec![]), Some(("p1", "b1", "c1"))),
            Err(MissingHardwareInfo::TPMCertEmpty),
        ),
        ("DMI data with all serials blank is rejected", info_for_id(None, Some(("", "", ""))), Err(MissingHardwareInfo::Serial)),
        ("neither TPM nor DMI present", info_for_id(None, None), Err(MissingHardwareInfo::All)),
        ("non-empty TPM cert derives an ID", info_for_id(Some(vec![1, 2, 3, 4]), None), Ok(())),
        ("product serial alone derives an ID", info_for_id(None, Some(("p1", "", ""))), Ok(())),
        ("board serial alone derives an ID", info_for_id(None, Some(("", "b1", ""))), Ok(())),
        ("chassis serial alone derives an ID", info_for_id(None, Some(("", "", "c1"))), Ok(())),
        ("all three serials present derives an ID", info_for_id(None, Some(("p1", "b1", "c1"))), Ok(())),
    ];
    for (scenario, info, expect) in cases {
        assert_eq!(from_hardware_info_with_type(&info, MachineType::Host).map(drop), expect, "{scenario}");
    }
}

#[test]
fn from_hardware_info_with_type_selects_source() {
    let cases: [(&str, HardwareInfo, MachineIdSource); 3] = [
        ("TPM certificate selects the Tpm source", info_for_id(Some(vec![9]), None), MachineIdSource::Tpm),
        (
            "TPM certificate wins even when serials are present",
            info_for_id(Some(vec![9]), Some(("p1", "b1", "c1"))),
            MachineIdSource::Tpm,
        ),
        (
            "serials select the ProductBoardChassisSerial source",
            info_for_id(None, Some(("p1", "", ""))),
            MachineIdSource::ProductBoardChassisSerial,
        ),
    ];
    for (scenario, info, expect) in cases {
        let id = from_hardware_info_with_type(&info, MachineType::Host).unwrap();
        assert_eq!(id.source(), expect, "{scenario}");
    }
}

#[test]
fn from_hardware_info_with_type_carries_machine_type() {
    let cases: [(&str, HardwareInfo, MachineType); 6] = [
        ("Host onto a TPM-derived ID", info_for_id(Some(vec![7]), None), MachineType::Host),
        ("Dpu onto a TPM-derived ID", info_for_id(Some(vec![7]), None), MachineType::Dpu),
        ("PredictedHost onto a TPM-derived ID", info_for_id(Some(vec![7]), None), MachineType::PredictedHost),
        ("Host onto a serial-derived ID", info_for_id(None, Some(("p1", "b1", "c1"))), MachineType::Host),
        ("Dpu onto a serial-derived ID", info_for_id(None, Some(("p1", "b1", "c1"))), MachineType::Dpu),
        (
            "PredictedHost onto a serial-derived ID",
            info_for_id(None, Some(("p1", "b1", "c1"))),
            MachineType::PredictedHost,
        ),
    ];
    for (scenario, info, ty) in cases {
        let id = from_hardware_info_with_type(&info, ty).unwrap();
        assert_eq!(id.machine_type(), ty, "{scenario}");
    }
}

#[test]
fn from_hardware_info_with_type_is_deterministic() {
    let cases: [(&str, HardwareInfo, HardwareInfo, bool); 4] = [
        (
            "same TPM cert and type yields the same id string",
            info_for_id(Some(vec![1, 2, 3]), None),
            info_for_id(Some(vec![1, 2, 3]), None),
            true,
        ),
        (
            "different TPM certs yield different id strings",
            info_for_id(Some(vec![1, 2, 3]), None),
            info_for_id(Some(vec![4, 5, 6]), None),
            false,
        ),
        (
            "different serials yield different id strings",
            info_for_id(None, Some(("p1", "b1", "c1"))),
            info_for_id(None, Some(("p2", "b1", "c1"))),
            false,
        ),
        (
            "same serials yield the same id string",
            info_for_id(None, Some(("p1", "b1", "c1"))),
            info_for_id(None, Some(("p1", "b1", "c1"))),
            true,
        ),
    ];
    for (scenario, left, right, expect) in cases {
        let left = from_hardware_info_with_type(&left, MachineType::Host).unwrap();
        let right = from_hardware_info_with_type(&right, MachineType::Host).unwrap();
        assert_eq!(left.to_string() == right.to_string(), expect, "{scenario}");
    }
}

#[test]
fn from_hardware_info_with_type_renders_expected_prefix() {
    let cases: [(&str, HardwareInfo, MachineType, &str); 4] = [
        ("host + TPM renders fm100ht", info_for_id(Some(vec![1]), None), MachineType::Host, "fm100ht"),
        ("dpu + TPM renders fm100dt", info_for_id(Some(vec![1]), None), MachineType::Dpu, "fm100dt"),
        (
            "predicted host + serial renders fm100ps",
            info_for_id(None, Some(("p1", "b1", "c1"))),
            MachineType::PredictedHost,
            "fm100ps",
        ),
        ("host + serial renders fm100hs", info_for_id(None, Some(("p1", "b1", "c1"))), MachineType::Host, "fm100hs"),
    ];
    for (scenario, info, ty, prefix) in cases {
        let id = from_hardware_info_with_type(&info, ty).unwrap();
        assert!(id.to_string().starts_with(prefix), "{scenario}");
    }
}

#[test]
fn from_hardware_info_with_type_renders_fixed_length() {
    let cases: [(&str, HardwareInfo, MachineType); 3] = [
        ("TPM-derived host id length", info_for_id(Some(vec![1, 2]), None), MachineType::Host),
        ("serial-derived dpu id length", info_for_id(None, Some(("p1", "b1", "c1"))), MachineType::Dpu),
        (
            "serial-derived predicted-host id length",
            info_for_id(None, Some(("", "b1", ""))),
            MachineType::PredictedHost,
        ),
    ];
    for (scenario, info, ty) in cases {
        let id = from_hardware_info_with_type(&info, ty).unwrap();
        assert_eq!(id.to_string().len(), MACHINE_ID_LENGTH, "{scenario}");
    }
}

// Derives IDs from one fingerprint in turn: with a TPM certificate first,
// then from its serials with one serial cleared at a time.
fn check_derivation(
    fingerprint: &mut HardwareInfo,
    expected_type: MachineType,
    constructor: fn(&HardwareInfo) -> Result<MachineId, MissingHardwareInfo>,
) {
    fn validate_id(machine_id: MachineId, expected_source: MachineIdSource, expected_type: MachineType) {
        let serialized = machine_id.to_string();
        assert!(is_dns_label(&serialized), "{serialized} is not a valid DNS name");
        let expected_prefix = format!("{}{}", expected_type.id_prefix(), expected_source.id_char());
        assert!(serialized.starts_with(&expected_prefix));
        assert_eq!(serialized.len(), MACHINE_ID_LENGTH);
        let parsed: MachineId = MachineId::parse(&serialized).unwrap();
        assert_eq!(parsed, machine_id);
        assert_eq!(parsed.source(), expected_source);
        assert_eq!(parsed.machine_type(), expected_type);
    }

    fingerprint.tpm_ek_certificate = Some(TpmEkCertificate::from(vec![1, 2, 3, 4]));
    validate_id(constructor(fingerprint).unwrap(), MachineIdSource::Tpm, expected_type);

    fingerprint.tpm_ek_certificate = None;
    validate_id(constructor(fingerprint).unwrap(), MachineIdSource::ProductBoardChassisSerial, expected_type);

    fingerprint.dmi_data.as_mut().unwrap().product_serial.clear();
    validate_id(constructor(fingerprint).unwrap(), MachineIdSource::ProductBoardChassisSerial, expected_type);

    fingerprint.dmi_data.as_mut().unwrap().board_serial.clear();
    validate_id(constructor(fingerprint).unwrap(), MachineIdSource::ProductBoardChassisSerial, expected_type);

    fingerprint.dmi_data.as_mut().unwrap().chassis_serial.clear();
    assert!(constructor(fingerprint).is_err());
}

#[test]
fn derive_machine_id() {
    let mut host = info_for_id(None, Some(("1234", "5678", "9abc")));
    check_derivation(&mut host, MachineType::Host, from_hardware_info);

    let mut dpu = info_for_id(None, Some(("MT2242XZ00M1", "MT2242XZ00M1", "MT2242XZ00M1C")));
    dpu.dpu = true;
    check_derivation(&mut dpu, MachineType::Dpu, from_hardware_info);

    let mut dpu = info_for_id(None, Some(("MT2242XZ00M1", "MT2242XZ00M1", "MT2242XZ00M1C")));
    dpu.dpu = true;
    check_derivation(&mut dpu, MachineType::PredictedHost, host_id_from_dpu_hardware_info);
}

#[test]
fn id_hash_is_the_sha256_of_the_fingerprint() {
    // SHA-256 of the bytes 1, 2, 3, 4.
    let expected: [u8; 32] = [
        0x9f, 0x64, 0xa7, 0x47, 0xe1, 0xb9, 0x7f, 0x13, 0x1f, 0xab, 0xb6, 0xb4, 0x47, 0x29, 0x6c, 0x9b, 0x6f,
        0x02, 0x01, 0xe7, 0x9f, 0xb3, 0xc5, 0x35, 0x6e, 0x6c, 0x77, 0xe8, 0x9b, 0x6a, 0x80, 0x6a,
    ];
    let id = from_hardware_info_with_type(&info_for_id(Some(vec![1, 2, 3, 4]), None), MachineType::Host).unwrap();
    assert_eq!(id.hash, expected);
}

#[test]
fn serial_fingerprint_hashes_the_joined_serials() {
    let from_serials = from_hardware_info_with_type(&info_for_id(None, Some(("a", "b", "c"))), MachineType::Host).unwrap();
    let from_cert = from_hardware_info_with_type(&info_for_id(Some(b"pa-bb-cc".to_vec()), None), MachineType::Host).unwrap();
    assert_eq!(from_serials.hash, from_cert.hash);
}

#[test]
fn known_machine_id_text_round_trips() {
    let text = "fm100htv4fu8fpktl0e0qrg4dl58g2bc2g7naq0l6c15ruc22po1i5rfsq0";
    let id = MachineId::parse(text).unwrap();
    assert_eq!(id.source(), MachineIdSource::Tpm);
    assert_eq!(id.machine_type(), MachineType::Host);
    assert_eq!(id.to_string(), text);
}

#[test]
fn machine_id_text_is_base32_of_the_hash() {
    let id = MachineId::new(MachineIdSource::ProductBoardChassisSerial, [0u8; 32], MachineType::Dpu);
    assert_eq!(id.to_string(), format!("fm100ds{}", "0".repeat(52)));
    let mut hash = [0u8; 32];
    hash[0] = 0xff;
    hash[31] = 0x01;
    let id = MachineId::new(MachineIdSource::Tpm, hash, MachineType::PredictedHost);
    // 0xff then four zero bits: "vs" begins the text; the last byte 0x01
    // shifted left by four bits ends it with "g".
    let text = id.to_string();
    assert!(text.starts_with("fm100ptvs"), "{text}");
    assert!(text.ends_with("0g"), "{text}");
    assert_eq!(MachineId::parse(&text).unwrap(), id);
}

#[test]
fn malformed_machine_id_texts_are_rejected() {
    let good = "fm100htv4fu8fpktl0e0qrg4dl58g2bc2g7naq0l6c15ruc22po1i5rfsq0";
    let bad = [
        "",
        "not-a-machine-id",
        "fm100xtv4fu8fpktl0e0qrg4dl58g2bc2g7naq0l6c15ruc22po1i5rfsq0",
        "fm100hxv4fu8fpktl0e0qrg4dl58g2bc2g7naq0l6c15ruc22po1i5rfsq0",
        "fm200htv4fu8fpktl0e0qrg4dl58g2bc2g7naq0l6c15ruc22po1i5rfsq0",
        "fm100htv4fu8fpktl0e0qrg4dl58g2bc2g7naq0l6c15ruc22po1i5rfsq1",
        "fm100htv4fu8fpktl0e0qrg4dl58g2bc2g7naq0l6c15ruc22po1i5rfsqw",
        "fm100htv4fu8fpktl0e0qrg4dl58g2bc2g7naq0l6c15ruc22po1i5rfsq",
    ];
    for text in bad {
        let err = MachineId::parse(text).err().unwrap();
        assert_eq!(err.0, text);
    }
    assert!(MachineId::parse(good).is_ok());
}

#[test]
fn missing_hardware_info_messages() {
    assert_eq!(MissingHardwareInfo::TPMCertEmpty.to_string(), "The TPM certificate has no bytes");
    assert_eq!(MissingHardwareInfo::Serial.to_string(), "Serial number missing (product, board and chassis)");
    assert_eq!(MissingHardwareInfo::All.to_string(), "TPM and DMI data are both missing");
}
