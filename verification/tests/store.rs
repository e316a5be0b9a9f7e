use mydns_adapter::hive::{Hive, HiveKey, HiveValue};
use mydns_adapter::registry::{
    Config, RegReply, RegRequest, StoreError, ERROR_ACCESS_DENIED, ERROR_BAD_PATHNAME,
    ERROR_FILE_NOT_FOUND, ERROR_INVALID_HANDLE, ERROR_NO_MORE_ITEMS, ERROR_SUCCESS, REG_DWORD, REG_SZ,
};
use mydns_adapter::store::{
    delete_config, find_config, get_config, load_all_configs, save_to_registry,
};

fn config(id: &str, password: &str, v4: bool, v6: bool) -> Config {
    Config {
        master_id: id.to_string(),
        password: password.to_string(),
        ipv4_notify: v4,
        ipv6_notify: v6,
    }
}

fn hive_with(profiles: &[(&str, &str, bool, bool)]) -> Hive {
    let mut hive = Hive::new();
    for (id, password, v4, v6) in profiles {
        assert_eq!(save_to_registry(&mut hive, id, password, *v4, *v6), Ok(()));
    }
    hive
}

fn overwrite(hive: &mut Hive, id: &str, name: &str, kind: u32, data: &[u8]) {
    let path = format!("Software\\MyDNSAdapter\\{}", id);
    assert_eq!(hive.perform(&RegRequest::CreateKey { path }).status, ERROR_SUCCESS);
    let request = RegRequest::SetValue { name: name.to_string(), kind, data: data.to_vec() };
    assert_eq!(hive.perform(&request).status, ERROR_SUCCESS);
    assert_eq!(hive.perform(&RegRequest::CloseChild).status, ERROR_SUCCESS);
}

#[test]
fn a_new_hive_holds_no_profiles() {
    let mut hive = Hive::new();
    assert_eq!(load_all_configs(&mut hive), Ok(Vec::new()));
    assert!(!hive.is_present());
    assert!(!hive.is_read_only());
    assert!(hive.is_idle());
    assert!(hive.keys().is_empty());
    assert_eq!(hive, Hive::new());
}

#[test]
fn a_saved_profile_is_got_back_exactly() {
    let mut hive = Hive::new();
    assert_eq!(save_to_registry(&mut hive, "mydns123456", "s3cr3t パス", true, false), Ok(()));
    assert_eq!(get_config(&mut hive, "mydns123456"), Ok(config("mydns123456", "s3cr3t パス", true, false)));
    assert!(hive.is_idle());
}

#[test]
fn every_combination_of_flags_is_got_back() {
    for v4 in [false, true] {
        for v6 in [false, true] {
            let mut hive = Hive::new();
            assert_eq!(save_to_registry(&mut hive, "mydns1", "pw", v4, v6), Ok(()));
            assert_eq!(get_config(&mut hive, "mydns1"), Ok(config("mydns1", "pw", v4, v6)));
        }
    }
}

#[test]
fn an_empty_password_is_kept() {
    let mut hive = hive_with(&[("mydns1", "", true, true)]);
    assert_eq!(load_all_configs(&mut hive), Ok(vec![config("mydns1", "", true, true)]));
}

#[test]
fn saving_again_overwrites_in_place() {
    let mut hive = hive_with(&[("mydns1", "a", true, true), ("mydns2", "b", false, false)]);
    assert_eq!(save_to_registry(&mut hive, "mydns1", "changed", false, true), Ok(()));
    assert_eq!(
        load_all_configs(&mut hive),
        Ok(vec![config("mydns1", "changed", false, true), config("mydns2", "b", false, false)])
    );
    assert_eq!(hive.keys().len(), 2);
    assert_eq!(hive.keys()[0].values.len(), 3);
}

#[test]
fn profiles_are_listed_in_the_order_of_their_keys() {
    let mut hive = hive_with(&[("mydns3", "c", true, false), ("mydns1", "a", false, true)]);
    assert_eq!(
        load_all_configs(&mut hive),
        Ok(vec![config("mydns3", "c", true, false), config("mydns1", "a", false, true)])
    );
}

#[test]
fn getting_what_was_never_saved_is_not_found() {
    let mut hive = hive_with(&[("mydns1", "a", true, true)]);
    assert_eq!(get_config(&mut hive, "mydns2"), Err(StoreError::NotFound));
    let mut empty = Hive::new();
    assert_eq!(get_config(&mut empty, "mydns1"), Err(StoreError::NotFound));
}

#[test]
fn a_deleted_profile_is_not_found() {
    let mut hive = hive_with(&[("mydns1", "a", true, true), ("mydns2", "b", true, false)]);
    assert_eq!(delete_config(&mut hive, "mydns1"), Ok(()));
    assert_eq!(get_config(&mut hive, "mydns1"), Err(StoreError::NotFound));
    assert_eq!(load_all_configs(&mut hive), Ok(vec![config("mydns2", "b", true, false)]));
}

#[test]
fn deleting_what_does_not_exist_is_not_found_and_changes_nothing() {
    let mut hive = hive_with(&[("mydns1", "a", true, true)]);
    let before = hive_with(&[("mydns1", "a", true, true)]);
    assert_eq!(delete_config(&mut hive, "mydns2"), Err(StoreError::NotFound));
    assert_eq!(hive, before);
    let mut empty = Hive::new();
    assert_eq!(delete_config(&mut empty, "mydns1"), Err(StoreError::NotFound));
    assert_eq!(empty, Hive::new());
}

#[test]
fn a_hive_that_refuses_writing_fails_with_its_status() {
    let mut hive = hive_with(&[("mydns1", "a", true, true)]);
    hive.set_read_only(true);
    assert!(hive.is_read_only());
    let denied = Err(StoreError::Persistence { code: ERROR_ACCESS_DENIED });
    assert_eq!(save_to_registry(&mut hive, "mydns1", "b", false, false), denied);
    assert_eq!(save_to_registry(&mut hive, "mydns2", "b", false, false), denied);
    assert_eq!(delete_config(&mut hive, "mydns1"), denied);
    assert_eq!(delete_config(&mut hive, "mydns2"), denied);
    assert_eq!(load_all_configs(&mut hive), Ok(vec![config("mydns1", "a", true, true)]));
    hive.set_read_only(false);
    assert_eq!(save_to_registry(&mut hive, "mydns2", "b", false, false), Ok(()));
}

#[test]
fn an_id_that_cannot_name_a_key_is_refused() {
    let mut hive = Hive::new();
    let bad = Err(StoreError::Persistence { code: ERROR_BAD_PATHNAME });
    assert_eq!(save_to_registry(&mut hive, "", "pw", true, true), bad);
    assert_eq!(save_to_registry(&mut hive, "a\\b", "pw", true, true), bad);
    assert_eq!(hive, Hive::new());
}

#[test]
fn a_password_is_cut_at_a_character_of_number_zero() {
    let mut hive = hive_with(&[("mydns1", "ab\u{0}cd", true, true)]);
    assert_eq!(get_config(&mut hive, "mydns1"), Ok(config("mydns1", "ab", true, true)));
}

#[test]
fn a_flag_of_the_wrong_type_reads_as_off_and_hides_no_other_profile() {
    let mut hive = hive_with(&[
        ("mydns1", "a", true, true),
        ("mydns2", "b", true, true),
        ("mydns3", "c", false, true),
    ]);
    overwrite(&mut hive, "mydns2", "IPv4Notify", REG_SZ, &[0x31, 0, 0, 0]);
    assert_eq!(
        load_all_configs(&mut hive),
        Ok(vec![
            config("mydns1", "a", true, true),
            config("mydns2", "b", false, true),
            config("mydns3", "c", false, true),
        ])
    );
}

#[test]
fn a_password_of_the_wrong_type_reads_as_empty() {
    let mut hive = hive_with(&[("mydns1", "a", true, true), ("mydns2", "b", true, true)]);
    overwrite(&mut hive, "mydns1", "Password", REG_DWORD, &[1, 0, 0, 0]);
    assert_eq!(
        load_all_configs(&mut hive),
        Ok(vec![config("mydns1", "", true, true), config("mydns2", "b", true, true)])
    );
}

#[test]
fn a_key_without_values_reads_as_a_blank_profile() {
    let mut hive = hive_with(&[("mydns1", "a", true, true)]);
    let path = "Software\\MyDNSAdapter\\bare".to_string();
    assert_eq!(hive.perform(&RegRequest::CreateKey { path }).status, ERROR_SUCCESS);
    assert_eq!(hive.perform(&RegRequest::CloseChild).status, ERROR_SUCCESS);
    assert_eq!(
        load_all_configs(&mut hive),
        Ok(vec![config("mydns1", "a", true, true), config("bare", "", false, false)])
    );
}

#[test]
fn a_key_that_cannot_be_opened_is_passed_over() {
    let mut hive = hive_with(&[
        ("mydns1", "a", true, true),
        ("mydns2", "b", true, true),
        ("mydns3", "c", false, true),
    ]);
    assert!(hive.set_locked("mydns2", true));
    assert!(!hive.set_locked("mydns9", true));
    assert_eq!(
        load_all_configs(&mut hive),
        Ok(vec![config("mydns1", "a", true, true), config("mydns3", "c", false, true)])
    );
    assert_eq!(get_config(&mut hive, "mydns2"), Err(StoreError::NotFound));
    assert_eq!(
        save_to_registry(&mut hive, "mydns2", "x", true, true),
        Err(StoreError::Persistence { code: ERROR_ACCESS_DENIED })
    );
    assert!(hive.set_locked("mydns2", false));
    assert_eq!(get_config(&mut hive, "mydns2"), Ok(config("mydns2", "b", true, true)));
}

#[test]
fn a_key_that_cannot_be_opened_can_still_be_deleted() {
    let mut hive = hive_with(&[("mydns1", "a", true, true), ("mydns2", "b", true, true)]);
    assert!(hive.set_locked("mydns1", true));
    assert_eq!(delete_config(&mut hive, "mydns1"), Ok(()));
    assert_eq!(load_all_configs(&mut hive), Ok(vec![config("mydns2", "b", true, true)]));
}

#[test]
fn saving_leaves_other_values_of_the_key_alone() {
    let mut hive = hive_with(&[("mydns1", "a", true, true)]);
    overwrite(&mut hive, "mydns1", "Comment", REG_SZ, &[0x78, 0, 0, 0]);
    assert_eq!(save_to_registry(&mut hive, "mydns1", "b", false, false), Ok(()));
    assert_eq!(hive.keys()[0].values.len(), 4);
    assert_eq!(
        hive.keys()[0].values[3],
        HiveValue { name: "Comment".to_string(), kind: REG_SZ, data: vec![0x78, 0, 0, 0] }
    );
    assert_eq!(get_config(&mut hive, "mydns1"), Ok(config("mydns1", "b", false, false)));
}

#[test]
fn the_hive_keeps_what_was_written_byte_by_byte() {
    let hive = hive_with(&[("mydns1", "pw", true, false)]);
    assert!(hive.is_present());
    assert_eq!(
        *hive.keys(),
        vec![HiveKey {
            name: "mydns1".to_string(),
            locked: false,
            values: vec![
                HiveValue {
                    name: "Password".to_string(),
                    kind: REG_SZ,
                    data: vec![0x70, 0, 0x77, 0, 0, 0],
                },
                HiveValue { name: "IPv4Notify".to_string(), kind: REG_DWORD, data: vec![1, 0, 0, 0] },
                HiveValue { name: "IPv6Notify".to_string(), kind: REG_DWORD, data: vec![0, 0, 0, 0] },
            ],
        }]
    );
}

#[test]
fn requests_without_an_open_key_are_refused() {
    let mut hive = hive_with(&[("mydns1", "a", true, true)]);
    let invalid = RegReply::of_status(ERROR_INVALID_HANDLE);
    assert_eq!(hive.perform(&RegRequest::EnumChild { index: 0 }), invalid);
    assert_eq!(hive.perform(&RegRequest::OpenChild { name: "mydns1".to_string() }), invalid);
    assert_eq!(hive.perform(&RegRequest::QueryValue { name: "Password".to_string() }), invalid);
    assert_eq!(hive.perform(&RegRequest::DeleteChild { name: "mydns1".to_string() }), invalid);
    assert_eq!(hive.perform(&RegRequest::CloseChild), invalid);
    assert_eq!(hive.perform(&RegRequest::CloseRoot), invalid);
    let set = RegRequest::SetValue { name: "x".to_string(), kind: REG_SZ, data: Vec::new() };
    assert_eq!(hive.perform(&set), invalid);
}

#[test]
fn the_hive_answers_enumeration_and_queries() {
    let mut hive = hive_with(&[("mydns1", "a", true, false)]);
    let open = RegRequest::OpenRoot { path: "Software\\MyDNSAdapter".to_string(), write: false };
    assert_eq!(hive.perform(&open).status, ERROR_SUCCESS);
    let named = hive.perform(&RegRequest::EnumChild { index: 0 });
    assert_eq!(named.status, ERROR_SUCCESS);
    assert_eq!(named.name, "mydns1".encode_utf16().collect::<Vec<u16>>());
    assert_eq!(hive.perform(&RegRequest::EnumChild { index: 1 }).status, ERROR_NO_MORE_ITEMS);
    assert_eq!(
        hive.perform(&RegRequest::OpenChild { name: "other".to_string() }).status,
        ERROR_FILE_NOT_FOUND
    );
    assert_eq!(hive.perform(&RegRequest::OpenChild { name: "mydns1".to_string() }).status, ERROR_SUCCESS);
    let flag = hive.perform(&RegRequest::QueryValue { name: "IPv4Notify".to_string() });
    assert_eq!(flag, RegReply { status: 0, kind: REG_DWORD, name: Vec::new(), data: vec![1, 0, 0, 0] });
    assert_eq!(
        hive.perform(&RegRequest::QueryValue { name: "Missing".to_string() }).status,
        ERROR_FILE_NOT_FOUND
    );
    let other = RegRequest::OpenRoot { path: "Software\\Other".to_string(), write: false };
    assert_eq!(hive.perform(&other).status, ERROR_FILE_NOT_FOUND);
}

#[test]
fn find_config_gives_the_first_profile_of_an_id() {
    let configs = vec![
        config("mydns1", "a", true, true),
        config("mydns2", "b", false, true),
        config("mydns1", "c", false, false),
    ];
    assert_eq!(find_config(&configs, "mydns1"), Some(config("mydns1", "a", true, true)));
    assert_eq!(find_config(&configs, "mydns2"), Some(config("mydns2", "b", false, true)));
    assert_eq!(find_config(&configs, "mydns3"), None);
    assert_eq!(find_config(&Vec::new(), "mydns1"), None);
}
