use mydns_adapter::cli::{
    account_log, check_new_id, confirm_prompt, default_hint, fill2, flag_word, input_prompt,
    is_service_invocation, mask_password, parse_number, parse_yes_no, read_answer, resolve_input,
    select_account, select_mode, start_edit, view_line, view_lines, yes_no_prompt, AccountAction,
    AddError, Args, EditStart, Mode,
};
use mydns_adapter::logging::{LogEntry, LogLevel};
use mydns_adapter::registry::Config;

fn no_args() -> Args {
    Args {
        add: false,
        edit: None,
        remove: None,
        view: false,
        list: false,
        notify: false,
        ipv4: false,
        ipv6: false,
        install: false,
        uninstall: false,
        restart: false,
    }
}

fn config(id: &str, password: &str, v4: bool, v6: bool) -> Config {
    Config {
        master_id: id.to_string(),
        password: password.to_string(),
        ipv4_notify: v4,
        ipv6_notify: v6,
    }
}

fn accounts() -> Vec<Config> {
    vec![
        config("mydns111111", "alpha", true, true),
        config("mydns222222", "", false, true),
        config("3", "numeric", true, false),
    ]
}

fn strings(args: &[&str]) -> Vec<String> {
    args.iter().map(|a| a.to_string()).collect()
}

#[test]
fn without_arguments_an_account_is_edited() {
    assert_eq!(select_mode(no_args()), Mode::Edit { target: None });
}

#[test]
fn each_argument_selects_its_mode() {
    assert_eq!(select_mode(Args { install: true, ..no_args() }), Mode::Install);
    assert_eq!(select_mode(Args { uninstall: true, ..no_args() }), Mode::Uninstall);
    assert_eq!(select_mode(Args { restart: true, ..no_args() }), Mode::Restart);
    assert_eq!(select_mode(Args { add: true, ..no_args() }), Mode::Add);
    assert_eq!(
        select_mode(Args { remove: Some("mydns1".to_string()), ..no_args() }),
        Mode::Remove { id: "mydns1".to_string() }
    );
    assert_eq!(
        select_mode(Args { edit: Some("mydns1".to_string()), ..no_args() }),
        Mode::Edit { target: Some("mydns1".to_string()) }
    );
    assert_eq!(
        select_mode(Args { edit: Some("_INTERACTIVE_".to_string()), ..no_args() }),
        Mode::Edit { target: None }
    );
    assert_eq!(select_mode(Args { view: true, ..no_args() }), Mode::View);
    assert_eq!(select_mode(Args { list: true, ..no_args() }), Mode::View);
}

#[test]
fn notify_arguments_select_the_protocols() {
    assert_eq!(
        select_mode(Args { notify: true, ..no_args() }),
        Mode::Notify { use_ipv4: true, use_ipv6: true }
    );
    assert_eq!(
        select_mode(Args { ipv4: true, ..no_args() }),
        Mode::Notify { use_ipv4: true, use_ipv6: false }
    );
    assert_eq!(
        select_mode(Args { ipv6: true, ..no_args() }),
        Mode::Notify { use_ipv4: false, use_ipv6: true }
    );
    assert_eq!(
        select_mode(Args { ipv4: true, ipv6: true, ..no_args() }),
        Mode::Notify { use_ipv4: true, use_ipv6: true }
    );
}

#[test]
fn of_several_arguments_the_first_in_rank_wins() {
    let all = Args {
        add: true,
        edit: Some("a".to_string()),
        remove: Some("b".to_string()),
        view: true,
        list: true,
        notify: true,
        ipv4: true,
        ipv6: true,
        install: true,
        uninstall: true,
        restart: true,
    };
    assert_eq!(select_mode(all), Mode::Install);
    let some = Args {
        edit: Some("a".to_string()),
        remove: Some("b".to_string()),
        view: true,
        notify: true,
        ..no_args()
    };
    assert_eq!(select_mode(some), Mode::Remove { id: "b".to_string() });
    assert_eq!(select_mode(Args { view: true, notify: true, ..no_args() }), Mode::View);
}

#[test]
fn the_service_is_asked_for_by_its_flag() {
    assert!(is_service_invocation(&strings(&["prog", "--service"])));
    assert!(is_service_invocation(&strings(&["prog", "-x", "-s"])));
    assert!(!is_service_invocation(&strings(&["prog", "--services", "-S", "service"])));
    assert!(!is_service_invocation(&Vec::new()));
}

#[test]
fn a_new_id_must_be_unused_and_begin_as_the_providers_ids_do() {
    assert_eq!(check_new_id(&accounts(), "mydns333333"), Ok(()));
    assert_eq!(check_new_id(&accounts(), "mydns111111"), Err(AddError::AlreadyExists));
    assert_eq!(check_new_id(&accounts(), "3"), Err(AddError::AlreadyExists));
    assert_eq!(check_new_id(&accounts(), "other"), Err(AddError::InvalidPrefix));
    assert_eq!(check_new_id(&accounts(), ""), Err(AddError::InvalidPrefix));
    assert_eq!(check_new_id(&accounts(), "MYDNS1"), Err(AddError::InvalidPrefix));
    assert_eq!(check_new_id(&Vec::new(), "mydns"), Ok(()));
}

#[test]
fn numbers_are_read_as_the_standard_library_reads_them() {
    let max = usize::MAX.to_string();
    let over = format!("{}0", usize::MAX);
    let next = format!("{}", usize::MAX as u128 + 1);
    let inputs = [
        "", "0", "1", "42", "007", "+5", "+", "-", "-1", "++1", "1+", " 1", "1 ", "1a", "a", "１",
        "12345678901234567890123", max.as_str(), over.as_str(), next.as_str(), "+0", "٣",
    ];
    for input in inputs {
        assert_eq!(parse_number(input), input.parse::<usize>().ok(), "{:?}", input);
    }
}

#[test]
fn an_answer_selects_by_position_or_by_id() {
    let accounts = accounts();
    assert_eq!(select_account(&accounts, "1"), Some(accounts[0].clone()));
    assert_eq!(select_account(&accounts, " 2\n"), Some(accounts[1].clone()));
    assert_eq!(select_account(&accounts, "3"), Some(accounts[2].clone()));
    assert_eq!(select_account(&accounts, "mydns222222\r\n"), Some(accounts[1].clone()));
}

#[test]
fn an_answer_that_is_no_position_and_no_id_selects_nothing() {
    let accounts = accounts();
    assert_eq!(select_account(&accounts, "0"), None);
    assert_eq!(select_account(&accounts, "4"), None);
    assert_eq!(select_account(&accounts, ""), None);
    assert_eq!(select_account(&accounts, "mydns999999"), None);
    assert_eq!(select_account(&Vec::new(), "1"), None);
    let two = vec![config("a", "", true, true), config("3", "", true, true)];
    assert_eq!(select_account(&two, "3"), None);
}

#[test]
fn an_empty_line_stands_for_the_default() {
    assert_eq!(resolve_input("\n", "kept"), "kept");
    assert_eq!(resolve_input("   \r\n", "kept"), "kept");
    assert_eq!(resolve_input("", ""), "");
    assert_eq!(resolve_input("  new value \n", "kept"), "new value");
}

#[test]
fn a_missing_password_is_shown_as_a_note() {
    assert_eq!(mask_password("", false), "(Not set)");
    assert_eq!(mask_password("", true), "(未設定)");
}

#[test]
fn a_short_password_is_shown_as_stars_only() {
    assert_eq!(mask_password("a", false), "*");
    assert_eq!(mask_password("ab", false), "**");
    assert_eq!(mask_password("abcd", true), "****");
    assert_eq!(mask_password("パスワ", false), "***");
}

#[test]
fn a_longer_password_shows_its_first_middle_and_last_character() {
    assert_eq!(mask_password("abcde", false), "a*c*e");
    assert_eq!(mask_password("abcdef", false), "a**d*f");
    assert_eq!(mask_password("0123456789", false), "0****5***9");
    assert_eq!(mask_password("パスワードです", true), "パ**ー**す");
}

#[test]
fn two_places_are_filled_one_after_the_other() {
    assert_eq!(fill2("{} and {}", "a", "b"), "a and b");
    assert_eq!(fill2("{} only", "a", "b"), "a only");
    assert_eq!(fill2("none", "a", "b"), "none");
    assert_eq!(fill2("{} and {}", "{}", "b"), "b and {}");
}

#[test]
fn the_prompt_for_a_value_shows_the_default() {
    assert_eq!(input_prompt("MasterID", "", false, false), "Enter MasterID: ");
    assert_eq!(input_prompt("Password", "", true, false), "Enter Password: ");
    assert_eq!(input_prompt("MasterID", "mydns1", false, false), "Enter MasterID (Current: mydns1): ");
    assert_eq!(
        input_prompt("Password", "secret", true, false),
        "Enter Password (Current: s**r*t, Enter to keep): "
    );
    assert_eq!(
        input_prompt("パスワード", "secret", true, true),
        "パスワードを入力してください (現在値: s**r*t, 変更しない場合はEnter): "
    );
    assert_eq!(input_prompt("MasterID", "", false, true), "MasterIDを入力してください: ");
}

#[test]
fn the_words_for_flags_and_hints() {
    assert_eq!(flag_word(true, false), "Yes");
    assert_eq!(flag_word(false, true), "No");
    assert_eq!(default_hint(true, false), "(Y/n)");
    assert_eq!(default_hint(false, true), "(y/N)");
}

#[test]
fn the_question_for_a_flag_shows_its_value_and_the_default() {
    assert_eq!(
        yes_no_prompt("Enable IPv4 notification?", true, false),
        "Enable IPv4 notification? (Current: Yes) (Y/n): "
    );
    assert_eq!(
        yes_no_prompt("IPv6通知を有効にしますか？", false, true),
        "IPv6通知を有効にしますか？ (現在値: No) (y/N): "
    );
}

#[test]
fn the_question_for_a_confirmation_shows_the_default() {
    assert_eq!(confirm_prompt("Really?", false, false), "Really? (y/N): ");
    assert_eq!(confirm_prompt("Really?", true, true), "Really? (Y/n): ");
}

#[test]
fn answers_are_read_without_regard_to_case_and_white_space() {
    assert_eq!(parse_yes_no("y\n", false), Some(true));
    assert_eq!(parse_yes_no(" Y \r\n", false), Some(true));
    assert_eq!(parse_yes_no("n", true), Some(false));
    assert_eq!(parse_yes_no("N\n", true), Some(false));
    assert_eq!(parse_yes_no("\n", true), Some(true));
    assert_eq!(parse_yes_no("", false), Some(false));
    assert_eq!(parse_yes_no("   ", false), Some(false));
}

#[test]
fn other_answers_are_no_answer() {
    assert_eq!(parse_yes_no("yes", true), None);
    assert_eq!(parse_yes_no("no", false), None);
    assert_eq!(parse_yes_no("y n", true), None);
    assert_eq!(parse_yes_no("はい", true), None);
    assert_eq!(read_answer("Y", false), None);
    assert_eq!(read_answer("y", false), Some(true));
    assert_eq!(read_answer("n", true), Some(false));
    assert_eq!(read_answer("", true), Some(true));
}

#[test]
fn a_line_of_the_listing_has_fields_of_fixed_width() {
    assert_eq!(
        view_line(&config("mydns123456", "secret", true, false), false),
        "MasterID: mydns123456,  Password: s**r*t     ,  IPv4 Notify: Yes,  IPv6 Notify: No "
    );
    assert_eq!(
        view_line(&config("mydns1", "", false, true), true),
        "MasterID: mydns1     ,  パスワード: (未設定)      ,  IPv4 Notify: No ,  IPv6 Notify: Yes"
    );
    assert_eq!(
        view_line(&config("mydns1234567890", "0123456789abcdef", true, true), false),
        "MasterID: mydns123456,  Password: 0*******8**,  IPv4 Notify: Yes,  IPv6 Notify: Yes"
    );
}

#[test]
fn actions_on_accounts_are_recorded() {
    assert_eq!(
        account_log(AccountAction::Added, "mydns1", None),
        LogEntry { level: LogLevel::Info, text: "Account added: mydns1".to_string() }
    );
    assert_eq!(
        account_log(AccountAction::Edited, "mydns1", None),
        LogEntry { level: LogLevel::Info, text: "Account edited: mydns1".to_string() }
    );
    assert_eq!(
        account_log(AccountAction::Removed, "mydns1", None),
        LogEntry { level: LogLevel::Info, text: "Account removed: mydns1".to_string() }
    );
    assert_eq!(
        account_log(AccountAction::Added, "mydns1", Some("denied")),
        LogEntry { level: LogLevel::Error, text: "Failed to add account mydns1: denied".to_string() }
    );
    assert_eq!(
        account_log(AccountAction::Edited, "mydns1", Some("denied")),
        LogEntry { level: LogLevel::Error, text: "Failed to edit account mydns1: denied".to_string() }
    );
    assert_eq!(
        account_log(AccountAction::Removed, "mydns1", Some("denied")),
        LogEntry { level: LogLevel::Error, text: "Failed to remove account mydns1: denied".to_string() }
    );
}

#[test]
fn editing_without_accounts_offers_to_add_one() {
    assert_eq!(start_edit(&Vec::new(), None), EditStart::OfferAdd);
    assert_eq!(start_edit(&Vec::new(), Some("mydns111111")), EditStart::OfferAdd);
}

#[test]
fn editing_a_named_account_needs_that_account() {
    let accounts = accounts();
    assert_eq!(
        start_edit(&accounts, Some("mydns222222")),
        EditStart::Chosen { config: accounts[1].clone() }
    );
    assert_eq!(start_edit(&accounts, Some("mydns999999")), EditStart::NotFound);
    assert_eq!(start_edit(&accounts, Some("1")), EditStart::NotFound);
}

#[test]
fn editing_without_a_name_asks_for_a_selection() {
    assert_eq!(start_edit(&accounts(), None), EditStart::AskSelection);
}

#[test]
fn the_listing_has_a_line_for_each_account_or_a_note() {
    assert_eq!(view_lines(&Vec::new(), false), vec!["No accounts are configured.".to_string()]);
    assert_eq!(view_lines(&Vec::new(), true), vec!["アカウントが設定されていません。".to_string()]);
    let accounts = accounts();
    let lines = view_lines(&accounts, false);
    assert_eq!(lines.len(), 3);
    for (line, account) in lines.iter().zip(accounts.iter()) {
        assert_eq!(*line, view_line(account, false));
    }
}
