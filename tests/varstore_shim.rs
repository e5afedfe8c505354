use efi_varstore::varstore::{EfiVariable, Varstore, TESTING_GUID};
use efi_varstore::{EfiAttributes, EfiStatus};

fn attrs(bits: u32) -> EfiAttributes {
    EfiAttributes::from_bits(bits).unwrap()
}

#[test]
fn varstore_shim_set_simple() {
    let mut varstore = Varstore::new();

    let status = varstore.set_variable(
        "TestExist".to_string(),
        TESTING_GUID,
        &vec![1, 2, 3, 4],
        attrs(EfiAttributes::BOOTSERVICE_ACCESS),
    );
    assert!(status.is_ok());

    assert!(varstore.request_get(&String::from("TestExist"), TESTING_GUID).is_ok());
    assert_eq!(
        varstore.request_get(&String::from("TestExist"), TESTING_GUID).unwrap().data,
        vec![1, 2, 3, 4]
    );
}

#[test]
fn get_success() {
    let mut varstore = Varstore::new();
    varstore.insert_new("TestExist".to_string(), vec![1, 2, 3, 4], attrs(EfiAttributes::BOOTSERVICE_ACCESS));

    let mut attributes = EfiAttributes::from_bits(0);
    let mut buf = [0u8; 4];
    let mut data_size = buf.len();

    let res = varstore.get_variable(
        &String::from("TestExist"),
        &TESTING_GUID,
        attributes.as_mut(),
        Some(buf.as_mut_slice()),
        &mut data_size,
    );
    assert!(res.is_success());
    assert_eq!(&buf, &[1, 2, 3, 4]);
    assert!(attributes.unwrap().contains(EfiAttributes::BOOTSERVICE_ACCESS));
    assert!(attributes.unwrap().complement().contains(EfiAttributes::RUNTIME_ACCESS));
}

#[test]
fn get_error() {
    let mut varstore = Varstore::new();
    let data = vec![1, 2, 3, 4];
    let data_len = data.len();
    let var = EfiVariable::new(
        "TestExist".to_string(),
        TESTING_GUID,
        data,
        attrs(EfiAttributes::BOOTSERVICE_ACCESS | EfiAttributes::RUNTIME_ACCESS),
    );

    varstore.insert(var.clone());

    let mut buf = [0u8; 4];

    // No Buffer, but enough size
    let mut data_size = 10;
    let res = varstore.get_variable(&String::from("TestExist"), &TESTING_GUID, None, None, &mut data_size);
    assert_eq!(res, EfiStatus::InvalidParameter);

    // No Buffer, not enough size
    data_size = 0;
    let res = varstore.get_variable(&String::from("TestExist"), &TESTING_GUID, None, None, &mut data_size);
    assert_eq!(res, EfiStatus::BufferTooSmall);
    assert_eq!(data_size, data_len);

    // Buffer != size
    data_size = buf.len() + 1;
    let res = varstore.get_variable(
        &String::from("TestExist"),
        &TESTING_GUID,
        None,
        Some(buf.as_mut_slice()),
        &mut data_size,
    );
    assert_eq!(res, EfiStatus::InvalidParameter);
}

#[test]
fn get_variable_fills_start_of_larger_buffer_and_hides_append() {
    let mut varstore = Varstore::new();
    varstore.insert(EfiVariable::new(
        "Wide".to_string(),
        TESTING_GUID,
        vec![7, 8],
        attrs(EfiAttributes::BOOTSERVICE_ACCESS | EfiAttributes::APPEND_WRITE),
    ));
    let mut attributes = EfiAttributes::from_bits(0);
    let mut buf = [9u8; 5];
    let mut data_size = 5;
    let res = varstore.get_variable(
        &String::from("Wide"),
        &TESTING_GUID,
        attributes.as_mut(),
        Some(buf.as_mut_slice()),
        &mut data_size,
    );
    assert_eq!(res, EfiStatus::Success);
    assert_eq!(buf, [7, 8, 9, 9, 9]);
    assert_eq!(data_size, 2);
    assert_eq!(attributes.unwrap().bits(), EfiAttributes::BOOTSERVICE_ACCESS);
}

#[test]
fn get_variable_missing_leaves_size() {
    let varstore = Varstore::new();
    let mut data_size = 3;
    let res = varstore.get_variable(&String::from("Nope"), &TESTING_GUID, None, None, &mut data_size);
    assert_eq!(res, EfiStatus::NotFound);
    assert_eq!(data_size, 3);
}

#[test]
fn get_next_variable_walks_with_sizes() {
    let mut varstore = Varstore::new();
    let other_guid: u128 = 0x8be4df61_93ca_11d2_aa0d_00e098032b8c;
    varstore.insert_new("Ab".to_string(), vec![1], attrs(EfiAttributes::BOOTSERVICE_ACCESS));
    varstore.insert(EfiVariable::new(
        "Longer".to_string(),
        other_guid,
        vec![2],
        attrs(EfiAttributes::BOOTSERVICE_ACCESS),
    ));

    let mut name = String::new();
    let mut guid = TESTING_GUID;
    let mut size = 100;
    assert_eq!(varstore.get_next_variable(&mut name, &mut size, &mut guid), EfiStatus::Success);
    assert_eq!(name, "Ab");
    assert_eq!(size, 6);
    assert_eq!(guid, TESTING_GUID);

    size = 4;
    assert_eq!(varstore.get_next_variable(&mut name, &mut size, &mut guid), EfiStatus::BufferTooSmall);
    assert_eq!(size, 14);
    assert_eq!(name, "Ab");

    assert_eq!(varstore.get_next_variable(&mut name, &mut size, &mut guid), EfiStatus::Success);
    assert_eq!(name, "Longer");
    assert_eq!(guid, other_guid);

    assert_eq!(varstore.get_next_variable(&mut name, &mut size, &mut guid), EfiStatus::NotFound);

    let mut unknown = "Unknown".to_string();
    assert_eq!(varstore.get_next_variable(&mut unknown, &mut size, &mut guid), EfiStatus::InvalidParameter);
}

#[test]
fn get_next_variable_rejects_name_outside_ucs2() {
    let mut varstore = Varstore::new();
    varstore.insert_new("A\u{1F600}".to_string(), vec![1], attrs(EfiAttributes::BOOTSERVICE_ACCESS));
    let mut name = String::new();
    let mut guid = TESTING_GUID;
    let mut size = 100;
    assert_eq!(varstore.get_next_variable(&mut name, &mut size, &mut guid), EfiStatus::InvalidParameter);
    assert_eq!(size, 100);
    assert_eq!(name, "");
}

#[test]
fn query_variable_info_is_unsupported() {
    let mut varstore = Varstore::new();
    let (a, b, c) = (0usize, 0usize, 0usize);
    let status = varstore.request_query_variable_info(attrs(0), &a, &b, &c);
    assert_eq!(status, EfiStatus::Unsupported);
    assert!(status.is_error());
}
