use efi_varstore::varstore::{EfiVariable, NextResponse, Varstore, TESTING_GUID};
use efi_varstore::{EfiAttributes, EfiStatus};

fn attrs(bits: u32) -> EfiAttributes {
    EfiAttributes::from_bits(bits).unwrap()
}

fn boot() -> EfiAttributes {
    attrs(EfiAttributes::BOOTSERVICE_ACCESS)
}

fn boot_runtime() -> EfiAttributes {
    attrs(EfiAttributes::BOOTSERVICE_ACCESS | EfiAttributes::RUNTIME_ACCESS)
}

#[test]
fn varstore_creating() {
    let varstore = Varstore::with_limits(42, 690);
    assert_eq!(varstore.max_name_length(), 42);
    assert_eq!(varstore.max_data_length(), 690);
}

#[test]
fn get_next() {
    let mut varstore = Varstore::new();

    let empty = varstore.request_get_next("".to_string(), TESTING_GUID);
    assert_eq!(empty, NextResponse::EndReached);

    let invalid = varstore.request_get_next("INVALID".to_string(), TESTING_GUID);
    assert_eq!(invalid, NextResponse::Invalid);

    varstore.insert_new("Test_1".to_string(), vec![1, 2, 3, 4], boot_runtime());
    varstore.insert_new("Test_2".to_string(), vec![1, 2, 3, 4], boot_runtime());
    varstore.insert_new("Test_3".to_string(), vec![1, 2, 3, 4], boot_runtime());
    varstore.insert_new("Test_4".to_string(), vec![1, 2, 3, 4], boot_runtime());

    let first = varstore.request_get_next("".to_string(), TESTING_GUID);
    assert!(first.is_found());

    let var = first.unwrap();
    assert_eq!(var.name.to_owned(), "Test_1".to_string());

    let next = varstore.request_get_next(var.name.to_owned(), TESTING_GUID);
    assert!(next.is_found());
    let var = next.unwrap();
    assert_eq!(var.name.to_owned(), "Test_2");

    let end = varstore.request_get_next("Test_4".to_string(), TESTING_GUID);
    assert!(end.is_end());

    let non_exist = varstore.request_get_next("Test_NonExist".to_string(), TESTING_GUID);
    assert!(non_exist.is_invalid());
}

#[test]
fn get_full_access() {
    let mut varstore = Varstore::new();
    let var = EfiVariable::new("TestExist".to_string(), TESTING_GUID, vec![1, 2, 3, 4], boot_runtime());
    varstore.insert(var.clone());

    assert!(varstore.request_get(&String::from("TestExist"), TESTING_GUID).is_ok());
    assert_eq!(
        varstore.request_get(&String::from("TestExist"), TESTING_GUID).unwrap().data,
        vec![1, 2, 3, 4]
    );

    assert!(varstore.request_get(&String::from("TestNonExist"), TESTING_GUID).is_err());

    assert_eq!(
        varstore.request_get(&String::from("TestNonExist"), TESTING_GUID).unwrap_err(),
        EfiStatus::NotFound
    );
}

#[test]
fn get_runtime_access() {
    let mut varstore = Varstore::new();

    let var1 = EfiVariable::new("TestBootservice".to_string(), TESTING_GUID, vec![4, 3, 2, 1], boot());
    varstore.insert(var1.clone());

    let var2 = EfiVariable::new("TestRuntime".to_string(), TESTING_GUID, vec![4, 3, 2, 1], boot_runtime());
    varstore.insert(var2.clone());

    assert!(varstore.request_get(&String::from("TestBootservice"), TESTING_GUID).is_ok());

    varstore.exit_boot_services();

    assert!(varstore.request_get(&String::from("TestBootservice"), TESTING_GUID).is_err());

    assert!(varstore.request_get(&String::from("TestRuntime"), TESTING_GUID).is_ok());
    assert_eq!(
        varstore.request_get(&String::from("TestRuntime"), TESTING_GUID).unwrap().data,
        vec![4, 3, 2, 1]
    );
}

#[test]
fn varstore_set_simple() {
    let mut varstore = Varstore::new();

    let var = EfiVariable::new("Test".to_string(), TESTING_GUID, vec![1, 2, 3, 4], boot());

    let mut test = var.clone();
    test.name = "Test1".to_string();
    varstore.request_set(&test).unwrap();

    test = var.clone();
    test.name = "Test2".to_string();
    varstore.request_set(&test).unwrap();

    // Setting twice should not have any effect
    varstore.request_set(&test).unwrap();

    test = var.clone();
    test.name = "Test3".to_string();
    varstore.request_set(&test).unwrap();

    assert_eq!(varstore.len(), 3);
}

#[test]
fn set_limited() {
    let mut varstore = Varstore::with_limits(10, 10);
    let data = EfiVariable::new(
        "Test".to_string(),
        TESTING_GUID,
        vec![1, 2, 3, 4, 5, 6, 7, 8, 9, 10, 11, 12, 13],
        boot(),
    );

    let name = EfiVariable::new(
        "NameIsDefintelyLongerThanTenCharacters".to_string(),
        TESTING_GUID,
        vec![1, 2, 3, 4, 5, 6, 7, 8, 9, 10, 11, 12, 13],
        boot(),
    );

    let err = varstore.request_set(&name);
    assert_eq!(err, Err(EfiStatus::InvalidParameter));

    let err = varstore.request_set(&data);
    assert_eq!(err, Err(EfiStatus::InvalidParameter));

    assert_eq!(varstore.len(), 0);
}

#[test]
fn set_overwrite() {
    let mut varstore = Varstore::new();

    let var = EfiVariable::new("Test".to_string(), TESTING_GUID, vec![1, 2, 3, 4], boot());

    let test = var.clone();
    varstore.request_set(&test).unwrap();

    let mut test = var.clone();
    test.data = vec![9, 8, 7, 6];
    varstore.request_set(&test).unwrap();
    assert_eq!(varstore.len(), 1);

    assert_eq!(
        varstore.request_get(&String::from("Test"), TESTING_GUID).unwrap().data,
        vec![9, 8, 7, 6],
    );
}

#[test]
fn set_delete() {
    let mut varstore = Varstore::new();

    let runtimeaccess_var =
        &mut EfiVariable::new("RuntimeAccess".to_string(), TESTING_GUID, vec![1, 2, 3, 4], boot_runtime());

    varstore.request_set(runtimeaccess_var).unwrap();

    assert!(varstore.request_get(&String::from("RuntimeAccess"), TESTING_GUID).is_ok());

    // Delete by setting empty payload
    runtimeaccess_var.data = vec![];
    varstore.request_set(runtimeaccess_var).unwrap();

    assert!(varstore.request_get(&String::from("RuntimeAccess"), TESTING_GUID).is_err());

    assert_eq!(
        varstore.request_get(&String::from("RuntimeAccess"), TESTING_GUID).unwrap_err(),
        EfiStatus::NotFound
    );

    let bootaccess_var = &mut EfiVariable::new("BootAccess".to_string(), TESTING_GUID, vec![2, 3, 4, 5], boot());

    let mut append_var = bootaccess_var.clone();
    append_var.attr.insert(EfiAttributes::APPEND_WRITE);
    // Append with 0 size payload is a no-op
    varstore.request_set(&append_var).unwrap();

    assert!(varstore.request_get(&String::from("BootAccess"), TESTING_GUID).is_ok());
    assert_eq!(
        varstore.request_get(&String::from("BootAccess"), TESTING_GUID).unwrap().data,
        vec![2, 3, 4, 5],
    );

    varstore.exit_boot_services();

    // Cannot delete boottime accessible during runtime
    assert_eq!(varstore.len(), 1);

    bootaccess_var.data = vec![];
    let err = varstore.request_set(bootaccess_var).unwrap_err();
    assert_eq!(err, EfiStatus::InvalidParameter);
    assert_eq!(varstore.len(), 1);
}
