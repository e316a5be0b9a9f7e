use mydns_adapter::registry::{
    classify_status, configs_or_empty, get_reg_dword, get_reg_string, set_reg_dword, set_reg_string, Config, LoadPhase,
    LoadStep, Loader, RegReply, RegRequest, StoreError, ERROR_ACCESS_DENIED, ERROR_FILE_NOT_FOUND,
    ERROR_NO_MORE_ITEMS, ERROR_SUCCESS, REG_DWORD, REG_SZ,
};
use mydns_adapter::writer::{DeletePhase, DeleteStep, Deleter, SavePhase, SaveStep, Saver};

fn status(code: u32) -> RegReply {
    RegReply::of_status(code)
}

fn value(kind: u32, data: &[u8]) -> RegReply {
    RegReply { status: ERROR_SUCCESS, kind, name: Vec::new(), data: data.to_vec() }
}

fn named(name: &str) -> RegReply {
    RegReply { status: ERROR_SUCCESS, kind: 0, name: name.encode_utf16().collect(), data: Vec::new() }
}

fn ask_load(step: LoadStep) -> (Loader, RegRequest) {
    match step {
        LoadStep::Ask { loader, request } => (loader, request),
        LoadStep::Done { outcome } => panic!("the reading ended early: {:?}", outcome),
    }
}

fn end_load(step: LoadStep) -> Result<Vec<Config>, StoreError> {
    match step {
        LoadStep::Done { outcome } => outcome,
        LoadStep::Ask { request, .. } => panic!("the reading goes on: {:?}", request),
    }
}

fn ask_save(step: SaveStep) -> (Saver, RegRequest) {
    match step {
        SaveStep::Ask { saver, request } => (saver, request),
        SaveStep::Done { outcome } => panic!("the saving ended early: {:?}", outcome),
    }
}

fn ask_delete(step: DeleteStep) -> (Deleter, RegRequest) {
    match step {
        DeleteStep::Ask { deleter, request } => (deleter, request),
        DeleteStep::Done { outcome } => panic!("the deleting ended early: {:?}", outcome),
    }
}

#[test]
fn default_config_is_blank() {
    let config = Config::default();
    assert_eq!(config.master_id, "");
    assert_eq!(config.password, "");
    assert!(!config.ipv4_notify);
    assert!(!config.ipv6_notify);
}

#[test]
fn clone_keeps_every_field() {
    let config = Config {
        master_id: "mydns1".to_string(),
        password: "secret".to_string(),
        ipv4_notify: true,
        ipv6_notify: false,
    };
    assert_eq!(config.clone(), config);
}

#[test]
fn a_text_is_written_as_terminated_utf16() {
    let request = set_reg_string("Password", "ab");
    assert_eq!(
        request,
        RegRequest::SetValue {
            name: "Password".to_string(),
            kind: REG_SZ,
            data: vec![0x61, 0x00, 0x62, 0x00, 0x00, 0x00],
        }
    );
    let empty = set_reg_string("Password", "");
    assert_eq!(
        empty,
        RegRequest::SetValue { name: "Password".to_string(), kind: 1, data: vec![0x00, 0x00] }
    );
}

#[test]
fn a_flag_is_written_as_a_word() {
    assert_eq!(
        set_reg_dword("IPv4Notify", 1),
        RegRequest::SetValue { name: "IPv4Notify".to_string(), kind: REG_DWORD, data: vec![1, 0, 0, 0] }
    );
    assert_eq!(
        set_reg_dword("IPv6Notify", 0),
        RegRequest::SetValue { name: "IPv6Notify".to_string(), kind: 4, data: vec![0, 0, 0, 0] }
    );
}

#[test]
fn a_stored_text_is_read_up_to_its_terminator() {
    assert_eq!(get_reg_string(&value(REG_SZ, &[0x61, 0, 0x62, 0, 0, 0])), "ab");
    assert_eq!(get_reg_string(&value(REG_SZ, &[0x61, 0, 0, 0, 0x62, 0])), "a");
    assert_eq!(get_reg_string(&value(REG_SZ, &[0x61, 0, 0x62, 0])), "ab");
    assert_eq!(get_reg_string(&value(REG_SZ, &[0xD1, 0x30, 0, 0])), "パ");
}

#[test]
fn a_text_that_is_missing_or_of_another_type_reads_as_empty() {
    assert_eq!(get_reg_string(&status(ERROR_FILE_NOT_FOUND)), "");
    assert_eq!(get_reg_string(&value(REG_DWORD, &[0x61, 0, 0, 0])), "");
    assert_eq!(get_reg_string(&value(REG_SZ, &[])), "");
    assert_eq!(get_reg_string(&value(REG_SZ, &[0x61])), "");
    let failed = RegReply { status: 234, kind: REG_SZ, name: Vec::new(), data: vec![0x61, 0] };
    assert_eq!(get_reg_string(&failed), "");
}

#[test]
fn a_stored_word_is_read() {
    assert_eq!(get_reg_dword(&value(REG_DWORD, &[1, 0, 0, 0])), 1);
    assert_eq!(get_reg_dword(&value(REG_DWORD, &[0x78, 0x56, 0x34, 0x12])), 0x1234_5678);
    assert_eq!(get_reg_dword(&value(REG_DWORD, &[1])), 1);
}

#[test]
fn a_word_that_is_missing_or_of_another_type_reads_as_zero() {
    assert_eq!(get_reg_dword(&status(ERROR_FILE_NOT_FOUND)), 0);
    assert_eq!(get_reg_dword(&value(REG_SZ, &[1, 0, 0, 0])), 0);
    assert_eq!(get_reg_dword(&value(REG_DWORD, &[1, 0, 0, 0, 0])), 0);
    assert_eq!(get_reg_dword(&value(REG_DWORD, &[])), 0);
}

#[test]
fn statuses_stand_for_outcomes() {
    assert_eq!(classify_status(ERROR_SUCCESS), Ok(()));
    assert_eq!(classify_status(ERROR_FILE_NOT_FOUND), Err(StoreError::NotFound));
    assert_eq!(classify_status(ERROR_ACCESS_DENIED), Err(StoreError::Persistence { code: 5 }));
    assert_eq!(classify_status(1), Err(StoreError::Persistence { code: 1 }));
}

#[test]
fn reading_begins_by_opening_the_root_for_reading() {
    let (loader, request) = Loader::start();
    assert_eq!(loader.phase, LoadPhase::OpeningRoot);
    assert_eq!(
        request,
        RegRequest::OpenRoot { path: "Software\\MyDNSAdapter".to_string(), write: false }
    );
}

#[test]
fn a_root_that_does_not_exist_holds_no_profiles() {
    let (loader, _) = Loader::start();
    assert_eq!(end_load(loader.step(&status(ERROR_FILE_NOT_FOUND))), Ok(Vec::new()));
}

#[test]
fn a_root_that_cannot_be_opened_is_a_failure_of_the_store() {
    let (loader, _) = Loader::start();
    assert_eq!(
        end_load(loader.step(&status(ERROR_ACCESS_DENIED))),
        Err(StoreError::Persistence { code: ERROR_ACCESS_DENIED })
    );
}

#[test]
fn a_root_without_children_holds_no_profiles() {
    let (loader, _) = Loader::start();
    let (loader, request) = ask_load(loader.step(&status(ERROR_SUCCESS)));
    assert_eq!(request, RegRequest::EnumChild { index: 0 });
    let (loader, request) = ask_load(loader.step(&status(ERROR_NO_MORE_ITEMS)));
    assert_eq!(request, RegRequest::CloseRoot);
    assert_eq!(end_load(loader.step(&status(ERROR_SUCCESS))), Ok(Vec::new()));
}

#[test]
fn a_child_is_read_value_by_value() {
    let (loader, _) = Loader::start();
    let (loader, _) = ask_load(loader.step(&status(ERROR_SUCCESS)));
    let (loader, request) = ask_load(loader.step(&named("mydns1")));
    assert_eq!(request, RegRequest::OpenChild { name: "mydns1".to_string() });
    let (loader, request) = ask_load(loader.step(&status(ERROR_SUCCESS)));
    assert_eq!(request, RegRequest::QueryValue { name: "Password".to_string() });
    let (loader, request) = ask_load(loader.step(&value(REG_SZ, &[0x70, 0, 0x77, 0, 0, 0])));
    assert_eq!(request, RegRequest::QueryValue { name: "IPv4Notify".to_string() });
    let (loader, request) = ask_load(loader.step(&value(REG_DWORD, &[1, 0, 0, 0])));
    assert_eq!(request, RegRequest::QueryValue { name: "IPv6Notify".to_string() });
    let (loader, request) = ask_load(loader.step(&value(REG_DWORD, &[0, 0, 0, 0])));
    assert_eq!(request, RegRequest::CloseChild);
    let (loader, request) = ask_load(loader.step(&status(ERROR_SUCCESS)));
    assert_eq!(request, RegRequest::EnumChild { index: 1 });
    let (loader, request) = ask_load(loader.step(&status(ERROR_NO_MORE_ITEMS)));
    assert_eq!(request, RegRequest::CloseRoot);
    let configs = end_load(loader.step(&status(ERROR_SUCCESS))).unwrap();
    assert_eq!(
        configs,
        vec![Config {
            master_id: "mydns1".to_string(),
            password: "pw".to_string(),
            ipv4_notify: true,
            ipv6_notify: false,
        }]
    );
}

#[test]
fn a_flag_is_set_only_by_the_word_one() {
    let (loader, _) = Loader::start();
    let (loader, _) = ask_load(loader.step(&status(ERROR_SUCCESS)));
    let (loader, _) = ask_load(loader.step(&named("mydns1")));
    let (loader, _) = ask_load(loader.step(&status(ERROR_SUCCESS)));
    let (loader, _) = ask_load(loader.step(&status(ERROR_FILE_NOT_FOUND)));
    let (loader, _) = ask_load(loader.step(&value(REG_DWORD, &[2, 0, 0, 0])));
    let (loader, _) = ask_load(loader.step(&value(REG_SZ, &[1, 0, 0, 0])));
    assert_eq!(loader.configs.len(), 1);
    assert_eq!(loader.configs[0].master_id, "mydns1");
    assert_eq!(loader.configs[0].password, "");
    assert!(!loader.configs[0].ipv4_notify);
    assert!(!loader.configs[0].ipv6_notify);
}

#[test]
fn a_child_that_cannot_be_named_is_passed_over() {
    let (loader, _) = Loader::start();
    let (loader, _) = ask_load(loader.step(&status(ERROR_SUCCESS)));
    let (loader, request) = ask_load(loader.step(&status(234)));
    assert_eq!(request, RegRequest::EnumChild { index: 1 });
    assert!(loader.configs.is_empty());
}

#[test]
fn a_child_that_cannot_be_opened_is_passed_over() {
    let (loader, _) = Loader::start();
    let (loader, _) = ask_load(loader.step(&status(ERROR_SUCCESS)));
    let (loader, _) = ask_load(loader.step(&named("broken")));
    let (loader, request) = ask_load(loader.step(&status(ERROR_ACCESS_DENIED)));
    assert_eq!(request, RegRequest::EnumChild { index: 1 });
    assert!(loader.configs.is_empty());
    let (loader, _) = ask_load(loader.step(&named("mydns2")));
    let (loader, _) = ask_load(loader.step(&status(ERROR_SUCCESS)));
    let (loader, _) = ask_load(loader.step(&value(REG_SZ, &[0x78, 0, 0, 0])));
    let (loader, _) = ask_load(loader.step(&value(REG_DWORD, &[1, 0, 0, 0])));
    let (loader, _) = ask_load(loader.step(&value(REG_DWORD, &[1, 0, 0, 0])));
    assert_eq!(loader.configs.len(), 1);
    assert_eq!(loader.configs[0].master_id, "mydns2");
    assert_eq!(loader.configs[0].password, "x");
}

#[test]
fn reading_stops_at_the_last_position_that_can_be_asked_for() {
    let loader = Loader {
        phase: LoadPhase::ClosingChild,
        index: u32::MAX,
        current: Config::default(),
        configs: Vec::new(),
    };
    let (loader, request) = ask_load(loader.step(&status(ERROR_SUCCESS)));
    assert_eq!(request, RegRequest::CloseRoot);
    assert_eq!(loader.phase, LoadPhase::ClosingRoot);
}

#[test]
fn saving_writes_the_three_values_in_order() {
    let (saver, request) = Saver::start("mydns1", "pw", true, false);
    assert_eq!(saver.phase, SavePhase::Creating);
    assert_eq!(
        request,
        RegRequest::CreateKey { path: "Software\\MyDNSAdapter\\mydns1".to_string() }
    );
    let (saver, request) = ask_save(saver.step(&status(ERROR_SUCCESS)));
    assert_eq!(request, set_reg_string("Password", "pw"));
    let (saver, request) = ask_save(saver.step(&status(ERROR_SUCCESS)));
    assert_eq!(request, set_reg_dword("IPv4Notify", 1));
    let (saver, request) = ask_save(saver.step(&status(ERROR_SUCCESS)));
    assert_eq!(request, set_reg_dword("IPv6Notify", 0));
    let (saver, request) = ask_save(saver.step(&status(ERROR_SUCCESS)));
    assert_eq!(request, RegRequest::CloseChild);
    match saver.step(&status(ERROR_SUCCESS)) {
        SaveStep::Done { outcome } => assert_eq!(outcome, Ok(())),
        SaveStep::Ask { request, .. } => panic!("the saving goes on: {:?}", request),
    }
}

#[test]
fn a_key_that_cannot_be_created_ends_the_saving() {
    let (saver, _) = Saver::start("mydns1", "pw", true, true);
    match saver.step(&status(ERROR_ACCESS_DENIED)) {
        SaveStep::Done { outcome } => {
            assert_eq!(outcome, Err(StoreError::Persistence { code: ERROR_ACCESS_DENIED }))
        },
        SaveStep::Ask { request, .. } => panic!("the saving goes on: {:?}", request),
    }
}

#[test]
fn a_value_that_cannot_be_written_ends_the_saving_after_the_key_is_closed() {
    let (saver, _) = Saver::start("mydns1", "pw", true, true);
    let (saver, _) = ask_save(saver.step(&status(ERROR_SUCCESS)));
    let (saver, _) = ask_save(saver.step(&status(ERROR_SUCCESS)));
    let (saver, request) = ask_save(saver.step(&status(112)));
    assert_eq!(request, RegRequest::CloseChild);
    match saver.step(&status(ERROR_SUCCESS)) {
        SaveStep::Done { outcome } => assert_eq!(outcome, Err(StoreError::Persistence { code: 112 })),
        SaveStep::Ask { request, .. } => panic!("the saving goes on: {:?}", request),
    }
}

#[test]
fn deleting_opens_the_root_for_writing_and_deletes_the_child() {
    let (deleter, request) = Deleter::start("mydns1");
    assert_eq!(deleter.phase, DeletePhase::OpeningRoot);
    assert_eq!(
        request,
        RegRequest::OpenRoot { path: "Software\\MyDNSAdapter".to_string(), write: true }
    );
    let (deleter, request) = ask_delete(deleter.step(&status(ERROR_SUCCESS)));
    assert_eq!(request, RegRequest::DeleteChild { name: "mydns1".to_string() });
    let (deleter, request) = ask_delete(deleter.step(&status(ERROR_SUCCESS)));
    assert_eq!(request, RegRequest::CloseRoot);
    match deleter.step(&status(ERROR_SUCCESS)) {
        DeleteStep::Done { outcome } => assert_eq!(outcome, Ok(())),
        DeleteStep::Ask { request, .. } => panic!("the deleting goes on: {:?}", request),
    }
}

#[test]
fn deleting_what_does_not_exist_is_not_found() {
    let (deleter, _) = Deleter::start("mydns1");
    let (deleter, _) = ask_delete(deleter.step(&status(ERROR_SUCCESS)));
    let (deleter, _) = ask_delete(deleter.step(&status(ERROR_FILE_NOT_FOUND)));
    match deleter.step(&status(ERROR_SUCCESS)) {
        DeleteStep::Done { outcome } => assert_eq!(outcome, Err(StoreError::NotFound)),
        DeleteStep::Ask { request, .. } => panic!("the deleting goes on: {:?}", request),
    }
    let (deleter, _) = Deleter::start("mydns1");
    match deleter.step(&status(ERROR_FILE_NOT_FOUND)) {
        DeleteStep::Done { outcome } => assert_eq!(outcome, Err(StoreError::NotFound)),
        DeleteStep::Ask { request, .. } => panic!("the deleting goes on: {:?}", request),
    }
}

#[test]
fn deleting_from_a_root_that_refuses_writing_is_a_failure_of_the_store() {
    let (deleter, _) = Deleter::start("mydns1");
    match deleter.step(&status(ERROR_ACCESS_DENIED)) {
        DeleteStep::Done { outcome } => {
            assert_eq!(outcome, Err(StoreError::Persistence { code: ERROR_ACCESS_DENIED }))
        },
        DeleteStep::Ask { request, .. } => panic!("the deleting goes on: {:?}", request),
    }
}

#[test]
fn a_reading_that_failed_counts_as_no_profiles() {
    let one = vec![Config {
        master_id: "mydns1".to_string(),
        password: "pw".to_string(),
        ipv4_notify: true,
        ipv6_notify: true,
    }];
    assert_eq!(configs_or_empty(Ok(one.clone())), one);
    assert_eq!(configs_or_empty(Err(StoreError::Persistence { code: 5 })), Vec::new());
    assert_eq!(configs_or_empty(Err(StoreError::NotFound)), Vec::new());
}
