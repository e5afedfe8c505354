use efi_varstore::edk2::{EDK2FirmwareVolume2Attributes, EDK2VariableStore, EDK2VaribleState, ParseError};
use efi_varstore::EfiAttributes;

const FS_GUID: u128 = 0xfff12b8d_7696_4c8b_a985_2747075b4f50;
const VS_GUID: u128 = 0xaaf32c78_947b_439a_a180_2e144ec37792;
const VENDOR: u128 = 0x8be4df61_93ca_11d2_aa0d_00e098032b8c;
const OTHER: u128 = 0xa634888c_e878_4151_aef2_54135322fd0b;

struct Rec {
    state: u8,
    attr: u32,
    name: &'static str,
    guid: u128,
    data: Vec<u8>,
}

fn guid_bytes(g: u128) -> Vec<u8> {
    let mut out = Vec::new();
    out.extend_from_slice(&((g >> 96) as u32).to_le_bytes());
    out.extend_from_slice(&((g >> 80) as u16).to_le_bytes());
    out.extend_from_slice(&((g >> 64) as u16).to_le_bytes());
    out.extend_from_slice(&(g as u64).to_be_bytes());
    out
}

fn record_bytes(r: &Rec) -> Vec<u8> {
    let units: Vec<u16> = r.name.encode_utf16().chain(std::iter::once(0)).collect();
    let mut out = Vec::new();
    out.extend_from_slice(&0x55aau16.to_le_bytes());
    out.push(r.state);
    out.push(0);
    out.extend_from_slice(&r.attr.to_le_bytes());
    out.extend_from_slice(&7u64.to_le_bytes());
    out.extend_from_slice(&[0x11; 16]);
    out.extend_from_slice(&3u32.to_le_bytes());
    out.extend_from_slice(&((units.len() * 2) as u32).to_le_bytes());
    out.extend_from_slice(&(r.data.len() as u32).to_le_bytes());
    out.extend_from_slice(&guid_bytes(r.guid));
    for u in units {
        out.extend_from_slice(&u.to_le_bytes());
    }
    out.extend_from_slice(&r.data);
    out
}

/// An image of `size` bytes in all holding `recs`, the rest erased.
fn image(recs: &[Rec], size: usize) -> Vec<u8> {
    let mut b = vec![0u8; 16];
    b.extend_from_slice(&guid_bytes(FS_GUID));
    b.extend_from_slice(&(size as u64).to_le_bytes());
    b.extend_from_slice(b"_FVH");
    b.extend_from_slice(&0x0004_feffu32.to_le_bytes());
    b.extend_from_slice(&0x48u16.to_le_bytes());
    b.extend_from_slice(&0u16.to_le_bytes());
    b.extend_from_slice(&[0, 0, 0, 2]);
    b.extend_from_slice(&[0u8; 16]);
    b.extend_from_slice(&guid_bytes(VS_GUID));
    b.extend_from_slice(&((size - 0x48) as u32).to_le_bytes());
    b.extend_from_slice(&[0x5a, 0xfe, 0, 0, 0, 0, 0, 0]);
    assert_eq!(b.len(), 100);
    for r in recs {
        while b.len() % 4 != 0 {
            b.push(0xff);
        }
        b.extend_from_slice(&record_bytes(r));
    }
    assert!(b.len() <= size);
    b.resize(size, 0xff);
    b
}

fn sample() -> Vec<Rec> {
    vec![
        Rec { state: EDK2VaribleState::VAR_ADDED, attr: 0x7, name: "Boot0000", guid: VENDOR, data: vec![1, 2, 3] },
        Rec { state: EDK2VaribleState::DELETED, attr: 0x3, name: "Gone", guid: VENDOR, data: vec![9; 10] },
        Rec { state: EDK2VaribleState::VAR_ADDED, attr: 0x3, name: "L", guid: OTHER, data: vec![] },
        Rec { state: EDK2VaribleState::IN_DELETED_TRANSITION, attr: 0x7, name: "Moving", guid: OTHER, data: vec![5] },
        Rec { state: EDK2VaribleState::ADDED_AND_DELETED, attr: 0x7, name: "Both", guid: OTHER, data: vec![6, 6] },
        Rec { state: EDK2VaribleState::HEADER_VALID_ONLY, attr: 0x7, name: "Half", guid: OTHER, data: vec![] },
        Rec {
            state: EDK2VaribleState::VAR_ADDED,
            attr: 0x27,
            name: "AVeryMuchLongerVariableName",
            guid: VENDOR,
            data: (0..77u8).collect(),
        },
    ]
}

#[test]
fn decodes_live_records_of_differing_sizes() {
    let recs = sample();
    let (vars, store) = EDK2VariableStore::from_bytes(image(&recs, 2048)).unwrap();
    assert_eq!(store.variables.len(), 7);
    assert_eq!(vars.len(), 3);
    let live: Vec<&Rec> = recs.iter().filter(|r| r.state == EDK2VaribleState::VAR_ADDED).collect();
    for (v, r) in vars.iter().zip(live) {
        assert_eq!(v.name, r.name);
        assert_eq!(v.guid, r.guid);
        assert_eq!(v.data, r.data);
        assert_eq!(v.attr.bits(), r.attr);
    }
    assert_eq!(store.variables[1].name, "Gone");
    assert!(!store.variables[1].state.is_valid());
    assert!(store.variables[0].state.is_valid());
    assert_eq!(store.variables[0].monotonic_count, 7);
    assert_eq!(store.variables[0].pubkey_index, 3);
    assert_eq!(store.variables[0].name_size, 18);
    assert_eq!(store.variables[0].timestamp, vec![0x11; 16]);
    assert_eq!(store.header.fs_guid, FS_GUID);
    assert_eq!(store.header.vs_guid, VS_GUID);
    assert_eq!(store.header.revision, 2);
    assert_eq!(store.header.variable_size, 2048 - 0x48);
    assert_eq!(store.header.signature, b"_FVH".to_vec());
    assert!(store.header.attributes.contains(
        EDK2FirmwareVolume2Attributes::READ_DISABLED_CAP
            | EDK2FirmwareVolume2Attributes::READ_ENABLED_CAP
            | EDK2FirmwareVolume2Attributes::WRITE_LOCK_STATUS
            | EDK2FirmwareVolume2Attributes::ALIGNMENT_16
    ));
}

#[test]
fn decodes_store_filled_to_the_end() {
    let recs = vec![Rec { state: EDK2VaribleState::VAR_ADDED, attr: 0x3, name: "A", guid: VENDOR, data: vec![1] }];
    let size = 100 + record_bytes(&recs[0]).len();
    let (vars, store) = EDK2VariableStore::from_bytes(image(&recs, size)).unwrap();
    assert_eq!(vars.len(), 1);
    assert_eq!(store.variables.len(), 1);
}

#[test]
fn decodes_empty_store() {
    let (vars, store) = EDK2VariableStore::from_bytes(image(&[], 512)).unwrap();
    assert!(vars.is_empty());
    assert!(store.variables.is_empty());
}

#[test]
fn changed_header_bytes_rejected() {
    let good = image(&sample(), 2048);
    for (at, err) in [
        (16usize, ParseError::FileSystemGuid),
        (31, ParseError::FileSystemGuid),
        (40, ParseError::Signature),
        (43, ParseError::Signature),
        (55, ParseError::Revision),
    ] {
        let mut b = good.clone();
        b[at] ^= 0x01;
        assert_eq!(EDK2VariableStore::from_bytes(b).unwrap_err(), err);
    }
}

#[test]
fn header_errors() {
    let good = image(&[], 512);
    assert_eq!(EDK2VariableStore::from_bytes(good[..99].to_vec()).unwrap_err(), ParseError::Truncated);
    let mut b = good.clone();
    b[3] = 1;
    assert_eq!(EDK2VariableStore::from_bytes(b).unwrap_err(), ParseError::ReservedNotZero);
    let mut b = good.clone();
    b[45] = 0x01;
    assert_eq!(EDK2VariableStore::from_bytes(b).unwrap_err(), ParseError::FirmwareVolumeAttributes);
    let mut b = good.clone();
    b[48] = 0x40;
    assert_eq!(EDK2VariableStore::from_bytes(b).unwrap_err(), ParseError::HeaderLength);
    let mut b = good.clone();
    b[80] ^= 0x10;
    assert_eq!(EDK2VariableStore::from_bytes(b).unwrap_err(), ParseError::VariableStoreGuid);
    let mut b = good.clone();
    b[88..92].copy_from_slice(&(512u32).to_le_bytes());
    assert_eq!(EDK2VariableStore::from_bytes(b).unwrap_err(), ParseError::VariableArea);
    let mut b = good.clone();
    b[88..92].copy_from_slice(&(20u32).to_le_bytes());
    assert_eq!(EDK2VariableStore::from_bytes(b).unwrap_err(), ParseError::VariableArea);
}

#[test]
fn record_errors() {
    let one = vec![Rec { state: EDK2VaribleState::VAR_ADDED, attr: 0x3, name: "Ab", guid: VENDOR, data: vec![1, 2] }];
    let good = image(&one, 512);
    assert!(EDK2VariableStore::from_bytes(good.clone()).is_ok());

    let mut b = good.clone();
    b[100] = 0x00;
    assert_eq!(EDK2VariableStore::from_bytes(b).unwrap_err(), ParseError::RecordSignature);

    let mut b = good.clone();
    b[105] = 0x01;
    assert_eq!(EDK2VariableStore::from_bytes(b).unwrap_err(), ParseError::RecordAttributes);

    let mut b = good.clone();
    b[140..144].copy_from_slice(&(1000u32).to_le_bytes());
    assert_eq!(EDK2VariableStore::from_bytes(b).unwrap_err(), ParseError::RecordTruncated);

    let mut b = good.clone();
    b[160] = 0;
    assert_eq!(EDK2VariableStore::from_bytes(b).unwrap_err(), ParseError::RecordName);

    let mut b = good.clone();
    b[164] = 0x41;
    assert_eq!(EDK2VariableStore::from_bytes(b).unwrap_err(), ParseError::RecordName);

    let mut b = good.clone();
    b[88..92].copy_from_slice(&(100u32 - 0x48 + 30).to_le_bytes());
    assert_eq!(EDK2VariableStore::from_bytes(b).unwrap_err(), ParseError::RecordTruncated);
}

#[test]
fn decoded_names_come_from_ucs2() {
    let one = vec![Rec { state: EDK2VaribleState::VAR_ADDED, attr: 0x3, name: "Zé\u{4e2d}", guid: OTHER, data: vec![] }];
    let (vars, _) = EDK2VariableStore::from_bytes(image(&one, 256)).unwrap();
    assert_eq!(vars[0].name, "Zé\u{4e2d}");
    assert_eq!(vars[0].guid, OTHER);
}

#[test]
fn state_flags() {
    let s = EDK2VaribleState::from_bits(EDK2VaribleState::ADDED_AND_DELETED);
    assert!(!s.is_valid());
    assert_eq!(s.bits(), 0x3c);
    assert!(EDK2VaribleState::from_bits(0x3f).is_valid());
    assert!(EDK2VaribleState::from_bits(0x3f).contains(0x3c));
    assert!(EDK2FirmwareVolume2Attributes::from_bits(0x100).is_none());
    assert_eq!(EDK2FirmwareVolume2Attributes::from_bits(0x8000_0001).unwrap().bits(), 0x8000_0001);
    assert_eq!(EfiAttributes::ALL, 0xff);
}
