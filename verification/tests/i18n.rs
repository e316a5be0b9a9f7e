use mydns_adapter::i18n::{get_msg, get_msg_en, get_msg_lang, japanese, LANG_JAPANESE};

#[test]
fn english_text_for_known_key() {
    assert_eq!(get_msg_lang("password_prompt", false), "Password");
    assert_eq!(get_msg_en("log_service_started"), "Service started.");
}

#[test]
fn japanese_text_for_known_key() {
    assert_eq!(get_msg_lang("password_prompt", true), "パスワード");
    assert_eq!(get_msg("not_set", 1041), "(未設定)");
}

#[test]
fn other_language_identifiers_select_english() {
    assert_eq!(get_msg("not_set", 1033), "(Not set)");
    assert_eq!(get_msg("not_set", 0), "(Not set)");
}

#[test]
fn unknown_key_stands_for_itself() {
    assert_eq!(get_msg_lang("no_such_key", true), "no_such_key");
    assert_eq!(get_msg_en(""), "");
}

#[test]
fn only_one_language_identifier_is_japanese() {
    assert_eq!(LANG_JAPANESE, 1041);
    assert!(japanese(1041));
    assert!(!japanese(1033));
    assert!(!japanese(0));
}

#[test]
fn every_key_has_its_english_text() {
    let expected = [
        ("config_title", "--- MyDNS Adapter Configuration ---"),
        ("registry_save_fail_fmt", "\n[Failed] Registry save error: {}"),
        ("input_prompt_pw_fmt", "Enter {} (Current: {}, Enter to keep): "),
        ("yes_no_invalid", "Please enter 'y' or 'n', or press Enter."),
        ("view_list_fmt", "MasterID: {id},  Password: {pw},  IPv4 Notify: {v4},  IPv6 Notify: {v6}"),
        ("invalid_master_id_prefix", "MasterID must start with 'mydns'."),
        ("service_installed_fmt", "Service '{}' installed and started successfully."),
        ("log_service_failed_fmt", "Service failed to run: {}"),
        ("log_config_missing", "MasterID or Password is not set. Please run configuration mode first."),
        ("log_notify_status_fmt", "Notified {}: Status {}"),
        ("log_ipv6_fail_fmt", "IPv6 Notification failed: {}"),
    ];
    for (key, text) in expected {
        assert_eq!(get_msg_en(key), text);
    }
}

#[test]
fn texts_that_do_not_differ_between_the_languages() {
    for key in ["master_id_prompt", "yes", "no", "yes_no_hint_true", "confirm_prompt_fmt"] {
        assert_eq!(get_msg_lang(key, true), get_msg_lang(key, false));
    }
}
