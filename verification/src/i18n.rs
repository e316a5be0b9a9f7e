//! The message catalogue.
//!
//! Every text shown to the operator or written to the log is looked up here by
//! its key, in Japanese or in English. A key that the catalogue does not hold
//! stands for itself.

use vstd::prelude::*;
use crate::text::str_eq;

verus! {

/// The language identifier under which the host reports a Japanese user interface.
pub const LANG_JAPANESE: u16 = 1041;

/// Whether a user-interface language identifier selects the Japanese texts.
pub open spec fn is_japanese(ui_language: u16) -> bool {
    ui_language == LANG_JAPANESE
}

/// Decides whether a user-interface language identifier selects the Japanese
/// texts.
pub fn japanese(ui_language: u16) -> (yes: bool)
    ensures
        yes == is_japanese(ui_language),
{
    ui_language == LANG_JAPANESE
}

/// The catalogue as a function: the text for `key` in the chosen language.
pub open spec fn message(key: Seq<char>, is_jp: bool) -> Seq<char> {
    if key == "config_title"@ {
        if is_jp { "--- MyDNS Adapter 設定 ---"@ } else { "--- MyDNS Adapter Configuration ---"@ }
    } else if key == "config_loaded"@ {
        if is_jp { "\n現在の設定を読み込みました。変更しない項目はEnterキーを押してください。"@ } else { "\nCurrent configuration loaded. Press Enter to keep current values."@ }
    } else if key == "master_id_prompt"@ {
        "MasterID"@
    } else if key == "password_prompt"@ {
        if is_jp { "パスワード"@ } else { "Password"@ }
    } else if key == "ipv4_notify_prompt"@ {
        if is_jp { "IPv4通知を有効にしますか？"@ } else { "Enable IPv4 notification?"@ }
    } else if key == "ipv6_notify_prompt"@ {
        if is_jp { "IPv6通知を有効にしますか？"@ } else { "Enable IPv6 notification?"@ }
    } else if key == "registry_save_success"@ {
        if is_jp { "\n[成功] 設定をレジストリに保存しました。"@ } else { "\n[Success] Configuration saved to registry."@ }
    } else if key == "registry_save_fail_fmt"@ {
        if is_jp { "\n[失敗] レジストリ保存エラー: {}"@ } else { "\n[Failed] Registry save error: {}"@ }
    } else if key == "input_prompt_pw_fmt"@ {
        if is_jp { "{}を入力してください (現在値: {}, 変更しない場合はEnter): "@ } else { "Enter {} (Current: {}, Enter to keep): "@ }
    } else if key == "input_prompt_fmt"@ {
        if is_jp { "{}を入力してください (現在値: {}): "@ } else { "Enter {} (Current: {}): "@ }
    } else if key == "input_prompt_new_fmt"@ {
        if is_jp { "{}を入力してください: "@ } else { "Enter {}: "@ }
    } else if key == "not_set"@ {
        if is_jp { "(未設定)"@ } else { "(Not set)"@ }
    } else if key == "yes_no_prompt_fmt"@ {
        if is_jp { "{} (現在値: {}) {}: "@ } else { "{} (Current: {}) {}: "@ }
    } else if key == "yes_no_hint_true"@ {
        "(Y/n)"@
    } else if key == "yes_no_hint_false"@ {
        "(y/N)"@
    } else if key == "yes_no_invalid"@ {
        if is_jp { "'y' または 'n' を入力するか、Enterキーを押してください。"@ } else { "Please enter 'y' or 'n', or press Enter."@ }
    } else if key == "view_title"@ {
        if is_jp { "--- 現在のMyDNS Adapter設定 ---"@ } else { "--- Current MyDNS Settings ---"@ }
    } else if key == "view_master_id_fmt"@ {
        "MasterID: {}"@
    } else if key == "view_password_fmt"@ {
        if is_jp { "パスワード: {}"@ } else { "Password: {}"@ }
    } else if key == "view_ipv4_fmt"@ {
        "IPv4 Notify: {}"@
    } else if key == "view_ipv6_fmt"@ {
        "IPv6 Notify: {}"@
    } else if key == "yes"@ {
        "Yes"@
    } else if key == "no"@ {
        "No"@
    } else if key == "view_no_accounts"@ {
        if is_jp { "アカウントが設定されていません。"@ } else { "No accounts are configured."@ }
    } else if key == "view_list_fmt"@ {
        if is_jp { "MasterID: {id},  パスワード: {pw},  IPv4 Notify: {v4},  IPv6 Notify: {v6}"@ } else { "MasterID: {id},  Password: {pw},  IPv4 Notify: {v4},  IPv6 Notify: {v6}"@ }
    } else if key == "add_title"@ {
        if is_jp { "--- 新規アカウント追加 ---"@ } else { "--- Add New Account ---"@ }
    } else if key == "edit_title"@ {
        if is_jp { "--- アカウント編集 ---"@ } else { "--- Edit Account ---"@ }
    } else if key == "remove_title"@ {
        if is_jp { "--- アカウント削除 ---"@ } else { "--- Remove Account ---"@ }
    } else if key == "account_exists_fmt"@ {
        if is_jp { "アカウント '{}' は既に存在します。"@ } else { "Account '{}' already exists."@ }
    } else if key == "account_not_found_fmt"@ {
        if is_jp { "アカウント '{}' は見つかりませんでした。"@ } else { "Account '{}' not found."@ }
    } else if key == "select_account_prompt"@ {
        if is_jp { "編集するアカウントを選択してください:"@ } else { "Select an account to edit:"@ }
    } else if key == "select_account_index_prompt"@ {
        if is_jp { "番号またはMasterIDを入力してください: "@ } else { "Enter number or MasterID: "@ }
    } else if key == "invalid_selection"@ {
        if is_jp { "無効な選択です。"@ } else { "Invalid selection."@ }
    } else if key == "confirm_remove_fmt"@ {
        if is_jp { "本当にアカウント '{}' を削除しますか？"@ } else { "Are you sure you want to remove account '{}'?"@ }
    } else if key == "confirm_prompt_fmt"@ {
        "{} {}: "@
    } else if key == "remove_success"@ {
        if is_jp { "[成功] アカウントを削除しました。"@ } else { "[Success] Account removed successfully."@ }
    } else if key == "remove_fail_fmt"@ {
        if is_jp { "[失敗] アカウント削除エラー: {}"@ } else { "[Failed] Failed to remove account: {}"@ }
    } else if key == "add_success"@ {
        if is_jp { "[成功] アカウントを追加しました。"@ } else { "[Success] Account added successfully."@ }
    } else if key == "no_accounts_add_prompt"@ {
        if is_jp { "アカウントが見つかりません。新規作成しますか？"@ } else { "No accounts found. Create new?"@ }
    } else if key == "operation_cancelled"@ {
        if is_jp { "操作をキャンセルしました。"@ } else { "Operation cancelled."@ }
    } else if key == "edit_target_fmt"@ {
        if is_jp { "対象アカウント: {}"@ } else { "Target Account: {}"@ }
    } else if key == "invalid_master_id_prefix"@ {
        if is_jp { "MasterIDは 'mydns' で始まる必要があります。"@ } else { "MasterID must start with 'mydns'."@ }
    } else if key == "admin_required_install"@ {
        if is_jp { "サービスのインストールには管理者権限が必要です。管理者として実行してください。"@ } else { "Administrator privileges are required to install the service. Please run as administrator."@ }
    } else if key == "service_installing_fmt"@ {
        if is_jp { "サービス '{}' をインストールしています..."@ } else { "Service '{}' installing..."@ }
    } else if key == "service_installed_fmt"@ {
        if is_jp { "サービス '{}' が正常にインストールされ、開始されました。"@ } else { "Service '{}' installed and started successfully."@ }
    } else if key == "admin_required_uninstall"@ {
        if is_jp { "サービスのアンインストールには管理者権限が必要です。管理者として実行してください。"@ } else { "Administrator privileges are required to uninstall the service. Please run as administrator."@ }
    } else if key == "service_not_installed_fmt"@ {
        if is_jp { "サービス '{}' はインストールされていません。"@ } else { "Service '{}' is not installed."@ }
    } else if key == "service_stopping_fmt"@ {
        if is_jp { "サービス '{}' を停止しています..."@ } else { "Stopping service '{}'..."@ }
    } else if key == "service_stopped"@ {
        if is_jp { "サービスが停止しました。"@ } else { "Service stopped."@ }
    } else if key == "service_waiting_stop"@ {
        if is_jp { "サービスの停止を待機しています..."@ } else { "Waiting for service to stop..."@ }
    } else if key == "service_not_running"@ {
        if is_jp { "サービスが起動していません。"@ } else { "Service is not running."@ }
    } else if key == "service_uninstalled_fmt"@ {
        if is_jp { "サービス '{}' が正常にアンインストールされました。"@ } else { "Service '{}' uninstalled successfully."@ }
    } else if key == "log_service_failed_fmt"@ {
        if is_jp { "サービスの実行に失敗しました: {}"@ } else { "Service failed to run: {}"@ }
    } else if key == "log_service_started"@ {
        if is_jp { "サービスを開始しました。"@ } else { "Service started."@ }
    } else if key == "log_service_config_missing"@ {
        if is_jp { "MasterIDまたはパスワードが設定されていません。サービスを停止します。"@ } else { "MasterID or Password is not set. Service will stop."@ }
    } else if key == "log_service_stopping"@ {
        if is_jp { "サービスを停止します。"@ } else { "Service stopping."@ }
    } else if key == "admin_required_restart"@ {
        if is_jp { "サービスの再起動には管理者権限が必要です。管理者として実行してください。"@ } else { "Administrator privileges are required to restart the service. Please run as administrator."@ }
    } else if key == "service_restarted_successfully"@ {
        if is_jp { "サービスを再起動しました。"@ } else { "Service restarted successfully."@ }
    } else if key == "log_notify_start"@ {
        if is_jp { "即時通知を開始します。"@ } else { "Starting immediate notification."@ }
    } else if key == "log_config_missing"@ {
        if is_jp { "MasterIDまたはパスワードが設定されていません。先に設定モードを実行してください。"@ } else { "MasterID or Password is not set. Please run configuration mode first."@ }
    } else if key == "log_notify_finish"@ {
        if is_jp { "即時通知が完了しました。"@ } else { "Immediate notification finished."@ }
    } else if key == "log_ipv4_fail_fmt"@ {
        if is_jp { "IPv4通知に失敗しました: {}"@ } else { "IPv4 Notification failed: {}"@ }
    } else if key == "log_ipv6_fail_fmt"@ {
        if is_jp { "IPv6通知に失敗しました: {}"@ } else { "IPv6 Notification failed: {}"@ }
    } else if key == "log_notify_status_fmt"@ {
        if is_jp { "通知完了 {}: ステータス {}"@ } else { "Notified {}: Status {}"@ }
    } else {
        key
    }
}

/// The text for `key`, in Japanese if `is_jp` holds and in English otherwise.
pub fn get_msg_lang(key: &str, is_jp: bool) -> (msg: &str)
    ensures
        msg@ == message(key@, is_jp),
{
    if str_eq(key, "config_title") {
        if is_jp { "--- MyDNS Adapter 設定 ---" } else { "--- MyDNS Adapter Configuration ---" }
    } else if str_eq(key, "config_loaded") {
        if is_jp { "\n現在の設定を読み込みました。変更しない項目はEnterキーを押してください。" } else { "\nCurrent configuration loaded. Press Enter to keep current values." }
    } else if str_eq(key, "master_id_prompt") {
        "MasterID"
    } else if str_eq(key, "password_prompt") {
        if is_jp { "パスワード" } else { "Password" }
    } else if str_eq(key, "ipv4_notify_prompt") {
        if is_jp { "IPv4通知を有効にしますか？" } else { "Enable IPv4 notification?" }
    } else if str_eq(key, "ipv6_notify_prompt") {
        if is_jp { "IPv6通知を有効にしますか？" } else { "Enable IPv6 notification?" }
    } else if str_eq(key, "registry_save_success") {
        if is_jp { "\n[成功] 設定をレジストリに保存しました。" } else { "\n[Success] Configuration saved to registry." }
    } else if str_eq(key, "registry_save_fail_fmt") {
        if is_jp { "\n[失敗] レジストリ保存エラー: {}" } else { "\n[Failed] Registry save error: {}" }
    } else if str_eq(key, "input_prompt_pw_fmt") {
        if is_jp { "{}を入力してください (現在値: {}, 変更しない場合はEnter): " } else { "Enter {} (Current: {}, Enter to keep): " }
    } else if str_eq(key, "input_prompt_fmt") {
        if is_jp { "{}を入力してください (現在値: {}): " } else { "Enter {} (Current: {}): " }
    } else if str_eq(key, "input_prompt_new_fmt") {
        if is_jp { "{}を入力してください: " } else { "Enter {}: " }
    } else if str_eq(key, "not_set") {
        if is_jp { "(未設定)" } else { "(Not set)" }
    } else if str_eq(key, "yes_no_prompt_fmt") {
        if is_jp { "{} (現在値: {}) {}: " } else { "{} (Current: {}) {}: " }
    } else if str_eq(key, "yes_no_hint_true") {
        "(Y/n)"
    } else if str_eq(key, "yes_no_hint_false") {
        "(y/N)"
    } else if str_eq(key, "yes_no_invalid") {
        if is_jp { "'y' または 'n' を入力するか、Enterキーを押してください。" } else { "Please enter 'y' or 'n', or press Enter." }
    } else if str_eq(key, "view_title") {
        if is_jp { "--- 現在のMyDNS Adapter設定 ---" } else { "--- Current MyDNS Settings ---" }
    } else if str_eq(key, "view_master_id_fmt") {
        "MasterID: {}"
    } else if str_eq(key, "view_password_fmt") {
        if is_jp { "パスワード: {}" } else { "Password: {}" }
    } else if str_eq(key, "view_ipv4_fmt") {
        "IPv4 Notify: {}"
    } else if str_eq(key, "view_ipv6_fmt") {
        "IPv6 Notify: {}"
    } else if str_eq(key, "yes") {
        "Yes"
    } else if str_eq(key, "no") {
        "No"
    } else if str_eq(key, "view_no_accounts") {
        if is_jp { "アカウントが設定されていません。" } else { "No accounts are configured." }
    } else if str_eq(key, "view_list_fmt") {
        if is_jp { "MasterID: {id},  パスワード: {pw},  IPv4 Notify: {v4},  IPv6 Notify: {v6}" } else { "MasterID: {id},  Password: {pw},  IPv4 Notify: {v4},  IPv6 Notify: {v6}" }
    } else if str_eq(key, "add_title") {
        if is_jp { "--- 新規アカウント追加 ---" } else { "--- Add New Account ---" }
    } else if str_eq(key, "edit_title") {
        if is_jp { "--- アカウント編集 ---" } else { "--- Edit Account ---" }
    } else if str_eq(key, "remove_title") {
        if is_jp { "--- アカウント削除 ---" } else { "--- Remove Account ---" }
    } else if str_eq(key, "account_exists_fmt") {
        if is_jp { "アカウント '{}' は既に存在します。" } else { "Account '{}' already exists." }
    } else if str_eq(key, "account_not_found_fmt") {
        if is_jp { "アカウント '{}' は見つかりませんでした。" } else { "Account '{}' not found." }
    } else if str_eq(key, "select_account_prompt") {
        if is_jp { "編集するアカウントを選択してください:" } else { "Select an account to edit:" }
    } else if str_eq(key, "select_account_index_prompt") {
        if is_jp { "番号またはMasterIDを入力してください: " } else { "Enter number or MasterID: " }
    } else if str_eq(key, "invalid_selection") {
        if is_jp { "無効な選択です。" } else { "Invalid selection." }
    } else if str_eq(key, "confirm_remove_fmt") {
        if is_jp { "本当にアカウント '{}' を削除しますか？" } else { "Are you sure you want to remove account '{}'?" }
    } else if str_eq(key, "confirm_prompt_fmt") {
        "{} {}: "
    } else if str_eq(key, "remove_success") {
        if is_jp { "[成功] アカウントを削除しました。" } else { "[Success] Account removed successfully." }
    } else if str_eq(key, "remove_fail_fmt") {
        if is_jp { "[失敗] アカウント削除エラー: {}" } else { "[Failed] Failed to remove account: {}" }
    } else if str_eq(key, "add_success") {
        if is_jp { "[成功] アカウントを追加しました。" } else { "[Success] Account added successfully." }
    } else if str_eq(key, "no_accounts_add_prompt") {
        if is_jp { "アカウントが見つかりません。新規作成しますか？" } else { "No accounts found. Create new?" }
    } else if str_eq(key, "operation_cancelled") {
        if is_jp { "操作をキャンセルしました。" } else { "Operation cancelled." }
    } else if str_eq(key, "edit_target_fmt") {
        if is_jp { "対象アカウント: {}" } else { "Target Account: {}" }
    } else if str_eq(key, "invalid_master_id_prefix") {
        if is_jp { "MasterIDは 'mydns' で始まる必要があります。" } else { "MasterID must start with 'mydns'." }
    } else if str_eq(key, "admin_required_install") {
        if is_jp { "サービスのインストールには管理者権限が必要です。管理者として実行してください。" } else { "Administrator privileges are required to install the service. Please run as administrator." }
    } else if str_eq(key, "service_installing_fmt") {
        if is_jp { "サービス '{}' をインストールしています..." } else { "Service '{}' installing..." }
    } else if str_eq(key, "service_installed_fmt") {
        if is_jp { "サービス '{}' が正常にインストールされ、開始されました。" } else { "Service '{}' installed and started successfully." }
    } else if str_eq(key, "admin_required_uninstall") {
        if is_jp { "サービスのアンインストールには管理者権限が必要です。管理者として実行してください。" } else { "Administrator privileges are required to uninstall the service. Please run as administrator." }
    } else if str_eq(key, "service_not_installed_fmt") {
        if is_jp { "サービス '{}' はインストールされていません。" } else { "Service '{}' is not installed." }
    } else if str_eq(key, "service_stopping_fmt") {
        if is_jp { "サービス '{}' を停止しています..." } else { "Stopping service '{}'..." }
    } else if str_eq(key, "service_stopped") {
        if is_jp { "サービスが停止しました。" } else { "Service stopped." }
    } else if str_eq(key, "service_waiting_stop") {
        if is_jp { "サービスの停止を待機しています..." } else { "Waiting for service to stop..." }
    } else if str_eq(key, "service_not_running") {
        if is_jp { "サービスが起動していません。" } else { "Service is not running." }
    } else if str_eq(key, "service_uninstalled_fmt") {
        if is_jp { "サービス '{}' が正常にアンインストールされました。" } else { "Service '{}' uninstalled successfully." }
    } else if str_eq(key, "log_service_failed_fmt") {
        if is_jp { "サービスの実行に失敗しました: {}" } else { "Service failed to run: {}" }
    } else if str_eq(key, "log_service_started") {
        if is_jp { "サービスを開始しました。" } else { "Service started." }
    } else if str_eq(key, "log_service_config_missing") {
        if is_jp { "MasterIDまたはパスワードが設定されていません。サービスを停止します。" } else { "MasterID or Password is not set. Service will stop." }
    } else if str_eq(key, "log_service_stopping") {
        if is_jp { "サービスを停止します。" } else { "Service stopping." }
    } else if str_eq(key, "admin_required_restart") {
        if is_jp { "サービスの再起動には管理者権限が必要です。管理者として実行してください。" } else { "Administrator privileges are required to restart the service. Please run as administrator." }
    } else if str_eq(key, "service_restarted_successfully") {
        if is_jp { "サービスを再起動しました。" } else { "Service restarted successfully." }
    } else if str_eq(key, "log_notify_start") {
        if is_jp { "即時通知を開始します。" } else { "Starting immediate notification." }
    } else if str_eq(key, "log_config_missing") {
        if is_jp { "MasterIDまたはパスワードが設定されていません。先に設定モードを実行してください。" } else { "MasterID or Password is not set. Please run configuration mode first." }
    } else if str_eq(key, "log_notify_finish") {
        if is_jp { "即時通知が完了しました。" } else { "Immediate notification finished." }
    } else if str_eq(key, "log_ipv4_fail_fmt") {
        if is_jp { "IPv4通知に失敗しました: {}" } else { "IPv4 Notification failed: {}" }
    } else if str_eq(key, "log_ipv6_fail_fmt") {
        if is_jp { "IPv6通知に失敗しました: {}" } else { "IPv6 Notification failed: {}" }
    } else if str_eq(key, "log_notify_status_fmt") {
        if is_jp { "通知完了 {}: ステータス {}" } else { "Notified {}: Status {}" }
    } else {
        key
    }
}

/// The English text for `key`, whatever the language of the host: the log is
/// written in one language so that it reads the same on every machine.
pub fn get_msg_en(key: &str) -> (msg: &str)
    ensures
        msg@ == message(key@, false),
{
    get_msg_lang(key, false)
}

/// The text for `key` in the language of the user interface, given the
/// language identifier that the host reports.
pub fn get_msg(key: &str, ui_language: u16) -> (msg: &str)
    ensures
        msg@ == message(key@, is_japanese(ui_language)),
{
    get_msg_lang(key, japanese(ui_language))
}

} // verus!
