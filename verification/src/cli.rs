//! What the command line decides: which mode the arguments ask for, whether
//! a new account may be added, which account an operator's answer selects,
//! and what the prompts and listings say.

use vstd::prelude::*;
use crate::i18n::{get_msg_lang, message};
use crate::logging::{LogEntry, LogEntryView, LogLevel};
use crate::registry::{config_views, Config, ConfigView};
use crate::store::{find_config, lookup};
use crate::text::{
    chars_of, fit, fitted, has_prefix, join2, join3, lowercase_of, push_char, repeat_char, repeated,
    replace_all, replace_first, replaced_all, replaced_first, starts_with, str_eq, to_lowercase,
    trim, trimmed,
};

verus! {

/// The arguments of the command line, as they were given.
#[derive(Debug, PartialEq, Eq)]
pub struct Args {
    pub add: bool,
    /// The account to edit; the marker `_INTERACTIVE_` where none was named.
    pub edit: Option<String>,
    pub remove: Option<String>,
    pub view: bool,
    pub list: bool,
    pub notify: bool,
    pub ipv4: bool,
    pub ipv6: bool,
    pub install: bool,
    pub uninstall: bool,
    pub restart: bool,
}

/// The arguments as a mathematical value.
pub struct ArgsView {
    pub add: bool,
    pub edit: Option<Seq<char>>,
    pub remove: Option<Seq<char>>,
    pub view: bool,
    pub list: bool,
    pub notify: bool,
    pub ipv4: bool,
    pub ipv6: bool,
    pub install: bool,
    pub uninstall: bool,
    pub restart: bool,
}

/// A text that may be missing, as a mathematical value.
pub open spec fn option_view(text: Option<String>) -> Option<Seq<char>> {
    match text {
        Some(t) => Some(t@),
        None => None,
    }
}

impl View for Args {
    type V = ArgsView;

    open spec fn view(&self) -> ArgsView {
        ArgsView {
            add: self.add,
            edit: option_view(self.edit),
            remove: option_view(self.remove),
            view: self.view,
            list: self.list,
            notify: self.notify,
            ipv4: self.ipv4,
            ipv6: self.ipv6,
            install: self.install,
            uninstall: self.uninstall,
            restart: self.restart,
        }
    }
}

/// What the program is asked to do.
#[derive(Debug, PartialEq, Eq)]
pub enum Mode {
    Install,
    Uninstall,
    Restart,
    Add,
    Remove { id: String },
    /// Edit the account `target`, or one that the operator selects.
    Edit { target: Option<String> },
    View,
    Notify { use_ipv4: bool, use_ipv6: bool },
}

/// A mode as a mathematical value.
pub enum ModeView {
    Install,
    Uninstall,
    Restart,
    Add,
    Remove { id: Seq<char> },
    Edit { target: Option<Seq<char>> },
    View,
    Notify { use_ipv4: bool, use_ipv6: bool },
}

impl View for Mode {
    type V = ModeView;

    open spec fn view(&self) -> ModeView {
        match *self {
            Mode::Install => ModeView::Install,
            Mode::Uninstall => ModeView::Uninstall,
            Mode::Restart => ModeView::Restart,
            Mode::Add => ModeView::Add,
            Mode::Remove { id } => ModeView::Remove { id: id@ },
            Mode::Edit { target } => ModeView::Edit { target: option_view(target) },
            Mode::View => ModeView::View,
            Mode::Notify { use_ipv4, use_ipv6 } => ModeView::Notify { use_ipv4, use_ipv6 },
        }
    }
}

/// The value of the edit argument when no account was named.
pub open spec fn interactive_marker() -> Seq<char> {
    "_INTERACTIVE_"@
}

/// The mode that the arguments ask for. Where several are given, the first
/// of install, uninstall, restart, add, remove, edit, view and notify wins;
/// without any, an account is edited.
pub open spec fn mode_of(args: ArgsView) -> ModeView {
    if args.install {
        ModeView::Install
    } else if args.uninstall {
        ModeView::Uninstall
    } else if args.restart {
        ModeView::Restart
    } else if args.add {
        ModeView::Add
    } else if args.remove is Some {
        ModeView::Remove { id: args.remove->0 }
    } else if args.edit is Some {
        if args.edit->0 == interactive_marker() {
            ModeView::Edit { target: None }
        } else {
            ModeView::Edit { target: args.edit }
        }
    } else if args.view || args.list {
        ModeView::View
    } else if args.notify || args.ipv4 || args.ipv6 {
        ModeView::Notify { use_ipv4: args.notify || args.ipv4, use_ipv6: args.notify || args.ipv6 }
    } else {
        ModeView::Edit { target: None }
    }
}

/// Decides the mode.
pub fn select_mode(args: Args) -> (mode: Mode)
    ensures
        mode@ == mode_of(args@),
{
    if args.install {
        Mode::Install
    } else if args.uninstall {
        Mode::Uninstall
    } else if args.restart {
        Mode::Restart
    } else if args.add {
        Mode::Add
    } else {
        match args.remove {
            Some(id) => Mode::Remove { id },
            None => {
                match args.edit {
                    Some(target) => {
                        if str_eq(target.as_str(), "_INTERACTIVE_") {
                            Mode::Edit { target: None }
                        } else {
                            Mode::Edit { target: Some(target) }
                        }
                    },
                    None => {
                        if args.view || args.list {
                            Mode::View
                        } else if args.notify || args.ipv4 || args.ipv6 {
                            Mode::Notify {
                                use_ipv4: args.notify || args.ipv4,
                                use_ipv6: args.notify || args.ipv6,
                            }
                        } else {
                            Mode::Edit { target: None }
                        }
                    },
                }
            },
        }
    }
}

/// Whether an argument asks for the service to be run.
pub open spec fn is_service_flag(arg: Seq<char>) -> bool {
    arg == "--service"@ || arg == "-s"@
}

/// Whether the program is started as the service: one of its arguments asks
/// for that.
pub fn is_service_invocation(args: &Vec<String>) -> (yes: bool)
    ensures
        yes == exists|i: int| 0 <= i < args@.len() && is_service_flag(#[trigger] args@[i]@),
{
    let mut i: usize = 0;
    while i < args.len()
        invariant
            i <= args.len(),
            forall|j: int| 0 <= j < i ==> !is_service_flag(#[trigger] args@[j]@),
        decreases args.len() - i,
    {
        if str_eq(args[i].as_str(), "--service") || str_eq(args[i].as_str(), "-s") {
            assert(is_service_flag(args@[i as int]@));
            return true;
        }
        i = i + 1;
    }
    false
}

/// Why an account cannot be added.
#[derive(Clone, Copy, Debug, PartialEq, Eq)]
pub enum AddError {
    /// An account with the id exists.
    AlreadyExists,
    /// The id does not begin as the provider's ids do.
    InvalidPrefix,
}

/// The beginning of every id of the provider.
pub open spec fn id_prefix() -> Seq<char> {
    "mydns"@
}

/// Whether an account with the id `id` may be added to `configs`.
pub open spec fn new_id_check(configs: Seq<ConfigView>, id: Seq<char>) -> Result<(), AddError> {
    if lookup(configs, id) is Some {
        Err(AddError::AlreadyExists)
    } else if !has_prefix(id, id_prefix()) {
        Err(AddError::InvalidPrefix)
    } else {
        Ok(())
    }
}

/// Decides whether an account with the id `id` may be added.
pub fn check_new_id(configs: &Vec<Config>, id: &str) -> (outcome: Result<(), AddError>)
    ensures
        outcome == new_id_check(config_views(configs@), id@),
{
    if find_config(configs, id).is_some() {
        Err(AddError::AlreadyExists)
    } else if !starts_with(id, "mydns") {
        Err(AddError::InvalidPrefix)
    } else {
        Ok(())
    }
}

/// Whether a character is a decimal digit.
pub open spec fn is_digit(c: char) -> bool {
    '0' <= c <= '9'
}

/// The number that decimal digits stand for.
pub open spec fn digits_value(digits: Seq<char>) -> nat
    decreases digits.len(),
{
    if digits.len() == 0 {
        0
    } else {
        (digits_value(digits.drop_last()) * 10 + (digits.last() as u32 - '0' as u32)) as nat
    }
}

/// The digits of a number as it may be written: all of it, but for one plus
/// sign in front.
pub open spec fn unsigned_part(s: Seq<char>) -> Seq<char> {
    if s.len() > 0 && s[0] == '+' {
        s.drop_first()
    } else {
        s
    }
}

/// The number that a text stands for, if it is one that fits a machine
/// word: one or more decimal digits, with or without a plus sign in front.
pub open spec fn parsed_number(s: Seq<char>) -> Option<nat> {
    let digits = unsigned_part(s);
    if digits.len() > 0 && (forall|i: int| 0 <= i < digits.len() ==> is_digit(digits[i]))
        && digits_value(digits) <= usize::MAX {
        Some(digits_value(digits))
    } else {
        None
    }
}

/// A number written with more digits is at least as large.
pub proof fn lemma_digits_monotone(digits: Seq<char>, k: int)
    requires
        0 <= k <= digits.len(),
        forall|i: int| 0 <= i < digits.len() ==> is_digit(digits[i]),
    ensures
        digits_value(digits.take(k)) <= digits_value(digits),
    decreases digits.len() - k,
{
    if k < digits.len() {
        lemma_digits_monotone(digits, k + 1);
        assert(digits.take(k + 1).drop_last() =~= digits.take(k));
        assert(digits.take(k + 1).last() == digits[k]);
    } else {
        assert(digits.take(k) =~= digits);
    }
}

/// Reads a number.
pub fn parse_number(s: &str) -> (number: Option<usize>)
    ensures
        match number {
            Some(n) => parsed_number(s@) == Some(n as nat),
            None => parsed_number(s@) is None,
        },
{
    let chars = chars_of(s);
    let start: usize = if chars.len() > 0 && chars[0] == '+' {
        1
    } else {
        0
    };
    let ghost digits = unsigned_part(s@);
    assert(digits =~= chars@.subrange(start as int, chars@.len() as int));
    if start == chars.len() {
        return None;
    }
    let mut value: usize = 0;
    let mut i: usize = start;
    assert(digits.take(0) =~= Seq::<char>::empty());
    while i < chars.len()
        invariant
            start <= i <= chars.len(),
            start < chars.len(),
            digits == unsigned_part(s@),
            digits == chars@.subrange(start as int, chars@.len() as int),
            forall|j: int| 0 <= j < i - start ==> is_digit(digits[j]),
            value == digits_value(digits.take(i - start)),
        decreases chars.len() - i,
    {
        let c: char = chars[i];
        assert(digits[i - start] == c);
        if c < '0' || c > '9' {
            assert(!is_digit(digits[i - start]));
            return None;
        }
        let digit: usize = (c as u32 - '0' as u32) as usize;
        proof {
            assert(digits.take(i - start + 1).drop_last() =~= digits.take(i - start));
            assert(digits.take(i - start + 1).last() == c);
        }
        if value > (usize::MAX - digit) / 10 {
            proof {
                assert(value * 10 + digit > usize::MAX);
                assert(digits_value(digits.take(i - start + 1)) == value * 10 + digit);
                if forall|j: int| 0 <= j < digits.len() ==> is_digit(digits[j]) {
                    lemma_digits_monotone(digits, i - start + 1);
                }
            }
            return None;
        }
        assert(digits_value(digits.take(i - start + 1)) == value * 10 + digit);
        value = value * 10 + digit;
        i = i + 1;
    }
    assert(digits.take(digits.len() as int) =~= digits);
    Some(value)
}

/// The account that an operator's answer selects: the account at that
/// position, counted from one, where the answer is a number, and the account
/// with that id otherwise. A number that is no position selects nothing.
pub open spec fn selection(configs: Seq<ConfigView>, input: Seq<char>) -> Option<ConfigView> {
    let answer = trimmed(input);
    match parsed_number(answer) {
        Some(n) => {
            if 1 <= n <= configs.len() {
                Some(configs[n - 1])
            } else {
                None
            }
        },
        None => lookup(configs, answer),
    }
}

/// Finds the account that an operator's answer selects.
pub fn select_account(configs: &Vec<Config>, input: &str) -> (chosen: Option<Config>)
    ensures
        match chosen {
            Some(c) => selection(config_views(configs@), input@) == Some(c@),
            None => selection(config_views(configs@), input@) is None,
        },
{
    let answer = trim(input);
    match parse_number(answer.as_str()) {
        Some(n) => {
            if 1 <= n && n <= configs.len() {
                let chosen = configs[n - 1].clone();
                assert(config_views(configs@)[n - 1] == configs@[n - 1]@);
                Some(chosen)
            } else {
                assert(config_views(configs@).len() == configs@.len());
                None
            }
        },
        None => find_config(configs, answer.as_str()),
    }
}

/// What an operator's line stands for: the line without the white space
/// around it, or `default` where nothing is left.
pub open spec fn resolved(input: Seq<char>, default: Seq<char>) -> Seq<char> {
    if trimmed(input).len() == 0 {
        default
    } else {
        trimmed(input)
    }
}

/// Reads an operator's line as a value.
pub fn resolve_input(input: &str, default: &str) -> (value: String)
    ensures
        value@ == resolved(input@, default@),
{
    let answer = trim(input);
    if answer.as_str().is_empty() {
        default.to_owned()
    } else {
        answer
    }
}

/// A password as it is shown: a note where there is none, stars only for
/// up to four characters, and otherwise stars but for the first character,
/// the middle one and the last.
pub open spec fn masked(pw: Seq<char>, is_jp: bool) -> Seq<char> {
    let len = pw.len() as int;
    if len == 0 {
        message("not_set"@, is_jp)
    } else if len <= 4 {
        repeated('*', len as nat)
    } else {
        Seq::new(
            len as nat,
            |i: int|
                if i == 0 || i == len - 1 || i == len / 2 {
                    pw[i]
                } else {
                    '*'
                },
        )
    }
}

/// Masks a password for display.
pub fn mask_password(pw: &str, is_jp: bool) -> (shown: String)
    ensures
        shown@ == masked(pw@, is_jp),
{
    let chars = chars_of(pw);
    let len: usize = chars.len();
    if len == 0 {
        return get_msg_lang("not_set", is_jp).to_owned();
    }
    if len <= 4 {
        return repeat_char('*', len);
    }
    let mut shown = String::new();
    let mut i: usize = 0;
    while i < len
        invariant
            i <= len,
            len == chars.len(),
            len > 4,
            chars@ == pw@,
            shown@ == masked(pw@, is_jp).take(i as int),
        decreases len - i,
    {
        let c: char = if i == 0 || i == len - 1 || i == len / 2 {
            chars[i]
        } else {
            '*'
        };
        push_char(&mut shown, c);
        assert(shown@ =~= masked(pw@, is_jp).take(i + 1));
        i = i + 1;
    }
    assert(masked(pw@, is_jp).take(len as int) =~= masked(pw@, is_jp));
    shown
}

/// A text with two places filled, one after the other.
pub open spec fn filled2(template: Seq<char>, first: Seq<char>, second: Seq<char>) -> Seq<char> {
    replaced_first(replaced_first(template, "{}"@, first), "{}"@, second)
}

/// Fills the first two places of a text.
pub fn fill2(template: &str, first: &str, second: &str) -> (out: String)
    ensures
        out@ == filled2(template@, first@, second@),
{
    let once = replace_first(template, "{}", first);
    replace_first(once.as_str(), "{}", second)
}

/// The prompt for a value: without a default, a plain request; with one, a
/// request that shows the default, masked if it is a password.
pub open spec fn input_prompt_text(prompt: Seq<char>, default: Seq<char>, is_password: bool, is_jp: bool) -> Seq<
    char,
> {
    if default.len() == 0 {
        replaced_all(message("input_prompt_new_fmt"@, is_jp), "{}"@, prompt)
    } else if is_password {
        filled2(message("input_prompt_pw_fmt"@, is_jp), prompt, masked(default, is_jp))
    } else {
        filled2(message("input_prompt_fmt"@, is_jp), prompt, default)
    }
}

/// Makes the prompt for a value.
pub fn input_prompt(prompt: &str, default: &str, is_password: bool, is_jp: bool) -> (text: String)
    ensures
        text@ == input_prompt_text(prompt@, default@, is_password, is_jp),
{
    if default.is_empty() {
        replace_all(get_msg_lang("input_prompt_new_fmt", is_jp), "{}", prompt)
    } else if is_password {
        let shown = mask_password(default, is_jp);
        fill2(get_msg_lang("input_prompt_pw_fmt", is_jp), prompt, shown.as_str())
    } else {
        fill2(get_msg_lang("input_prompt_fmt", is_jp), prompt, default)
    }
}

/// The key of the word for a flag.
pub open spec fn flag_key(flag: bool) -> Seq<char> {
    if flag {
        "yes"@
    } else {
        "no"@
    }
}

/// The key of the hint that shows which answer is the default.
pub open spec fn hint_key(default: bool) -> Seq<char> {
    if default {
        "yes_no_hint_true"@
    } else {
        "yes_no_hint_false"@
    }
}

/// The question for a flag that shows its current value.
pub open spec fn yes_no_prompt_text(prompt: Seq<char>, default: bool, is_jp: bool) -> Seq<char> {
    replaced_first(
        filled2(message("yes_no_prompt_fmt"@, is_jp), prompt, message(flag_key(default), is_jp)),
        "{}"@,
        message(hint_key(default), is_jp),
    )
}

/// The word for a flag.
pub fn flag_word(flag: bool, is_jp: bool) -> (word: &'static str)
    ensures
        word@ == message(flag_key(flag), is_jp),
{
    get_msg_lang(
        if flag {
            "yes"
        } else {
            "no"
        },
        is_jp,
    )
}

/// The hint that shows which answer is the default.
pub fn default_hint(default: bool, is_jp: bool) -> (hint: &'static str)
    ensures
        hint@ == message(hint_key(default), is_jp),
{
    get_msg_lang(
        if default {
            "yes_no_hint_true"
        } else {
            "yes_no_hint_false"
        },
        is_jp,
    )
}

/// Makes the question for a flag that shows its current value.
pub fn yes_no_prompt(prompt: &str, default: bool, is_jp: bool) -> (text: String)
    ensures
        text@ == yes_no_prompt_text(prompt@, default, is_jp),
{
    let two = fill2(get_msg_lang("yes_no_prompt_fmt", is_jp), prompt, flag_word(default, is_jp));
    replace_first(two.as_str(), "{}", default_hint(default, is_jp))
}

/// The question that asks for a confirmation.
pub open spec fn confirm_prompt_text(prompt: Seq<char>, default: bool, is_jp: bool) -> Seq<char> {
    filled2(message("confirm_prompt_fmt"@, is_jp), prompt, message(hint_key(default), is_jp))
}

/// Makes the question that asks for a confirmation.
pub fn confirm_prompt(prompt: &str, default: bool, is_jp: bool) -> (text: String)
    ensures
        text@ == confirm_prompt_text(prompt@, default, is_jp),
{
    fill2(get_msg_lang("confirm_prompt_fmt", is_jp), prompt, default_hint(default, is_jp))
}

/// What an answer in lower case says: nothing is the default, `y` is yes,
/// `n` is no, and anything else is no answer.
pub open spec fn answer_of(lowered: Seq<char>, default: bool) -> Option<bool> {
    if lowered.len() == 0 {
        Some(default)
    } else if lowered == "y"@ {
        Some(true)
    } else if lowered == "n"@ {
        Some(false)
    } else {
        None
    }
}

/// Reads an answer that was trimmed and put in lower case.
pub fn read_answer(lowered: &str, default: bool) -> (answer: Option<bool>)
    ensures
        answer == answer_of(lowered@, default),
{
    if lowered.is_empty() {
        Some(default)
    } else if str_eq(lowered, "y") {
        Some(true)
    } else if str_eq(lowered, "n") {
        Some(false)
    } else {
        None
    }
}

/// Reads an operator's answer to a question for yes or no. White space
/// around the answer and the case of its letters do not count. Where the
/// answer is none of yes, no and nothing, there is no result, and the
/// question is to be asked again.
pub fn parse_yes_no(input: &str, default: bool) -> (answer: Option<bool>)
    ensures
        answer == answer_of(lowercase_of(trimmed(input@)), default),
{
    let answer = trim(input);
    let lowered = to_lowercase(answer.as_str());
    read_answer(lowered.as_str(), default)
}

/// One line of the listing of accounts: the id and the masked password in
/// fields of eleven characters, the flags in fields of three, each in its
/// place in the text for a line.
pub open spec fn view_line_text(config: ConfigView, is_jp: bool) -> Seq<char> {
    replaced_all(
        replaced_all(
            replaced_all(
                replaced_all(
                    message("view_list_fmt"@, is_jp),
                    "{id}"@,
                    fitted(config.master_id, 11),
                ),
                "{pw}"@,
                fitted(masked(config.password, is_jp), 11),
            ),
            "{v4}"@,
            fitted(message(flag_key(config.ipv4_notify), is_jp), 3),
        ),
        "{v6}"@,
        fitted(message(flag_key(config.ipv6_notify), is_jp), 3),
    )
}

/// Makes one line of the listing of accounts.
pub fn view_line(config: &Config, is_jp: bool) -> (line: String)
    ensures
        line@ == view_line_text(config@, is_jp),
{
    let id = fit(config.master_id.as_str(), 11);
    let shown = mask_password(config.password.as_str(), is_jp);
    let pw = fit(shown.as_str(), 11);
    let v4 = fit(flag_word(config.ipv4_notify, is_jp), 3);
    let v6 = fit(flag_word(config.ipv6_notify, is_jp), 3);
    let with_id = replace_all(get_msg_lang("view_list_fmt", is_jp), "{id}", id.as_str());
    let with_pw = replace_all(with_id.as_str(), "{pw}", pw.as_str());
    let with_v4 = replace_all(with_pw.as_str(), "{v4}", v4.as_str());
    replace_all(with_v4.as_str(), "{v6}", v6.as_str())
}

/// What was done to an account.
#[derive(Clone, Copy, Debug, PartialEq, Eq)]
pub enum AccountAction {
    Added,
    Edited,
    Removed,
}

/// The words that record an action that was carried out.
pub open spec fn done_words(action: AccountAction) -> Seq<char> {
    match action {
        AccountAction::Added => "Account added: "@,
        AccountAction::Edited => "Account edited: "@,
        AccountAction::Removed => "Account removed: "@,
    }
}

/// The words that record an action that failed.
pub open spec fn failed_words(action: AccountAction) -> Seq<char> {
    match action {
        AccountAction::Added => "Failed to add account "@,
        AccountAction::Edited => "Failed to edit account "@,
        AccountAction::Removed => "Failed to remove account "@,
    }
}

/// The log entry for an action on the account `id`: of level `Info` where it
/// was carried out, of level `Error` with the failure where it was not.
pub open spec fn account_entry(action: AccountAction, id: Seq<char>, failure: Option<Seq<char>>) -> LogEntryView {
    match failure {
        None => LogEntryView { level: LogLevel::Info, text: done_words(action) + id },
        Some(error) => LogEntryView {
            level: LogLevel::Error,
            text: failed_words(action) + id + ": "@ + error,
        },
    }
}

/// Makes the log entry for an action on an account.
pub fn account_log(action: AccountAction, id: &str, failure: Option<&str>) -> (entry: LogEntry)
    ensures
        entry@ == account_entry(
            action,
            id@,
            match failure {
                Some(error) => Some(error@),
                None => None,
            },
        ),
{
    match failure {
        None => {
            let words = match action {
                AccountAction::Added => "Account added: ",
                AccountAction::Edited => "Account edited: ",
                AccountAction::Removed => "Account removed: ",
            };
            LogEntry { level: LogLevel::Info, text: join2(words, id) }
        },
        Some(error) => {
            let words = match action {
                AccountAction::Added => "Failed to add account ",
                AccountAction::Edited => "Failed to edit account ",
                AccountAction::Removed => "Failed to remove account ",
            };
            let mut text = join3(words, id, ": ");
            text.append(error);
            LogEntry { level: LogLevel::Error, text }
        },
    }
}

/// How the editing of an account begins.
#[derive(Debug, PartialEq, Eq)]
pub enum EditStart {
    /// There are no accounts: the operator is offered to add one.
    OfferAdd,
    /// No account was named: the operator selects one.
    AskSelection,
    /// The account that was named, to be edited.
    Chosen { config: Config },
    /// No account has the id that was named.
    NotFound,
}

/// How the editing begins, as a mathematical value.
pub enum EditStartView {
    OfferAdd,
    AskSelection,
    Chosen { config: ConfigView },
    NotFound,
}

impl View for EditStart {
    type V = EditStartView;

    open spec fn view(&self) -> EditStartView {
        match *self {
            EditStart::OfferAdd => EditStartView::OfferAdd,
            EditStart::AskSelection => EditStartView::AskSelection,
            EditStart::Chosen { config } => EditStartView::Chosen { config: config@ },
            EditStart::NotFound => EditStartView::NotFound,
        }
    }
}

/// The rule for the beginning of an editing: without accounts, one is
/// offered to be added; with a target, that account is edited if it exists;
/// without a target, the operator selects.
pub open spec fn edit_start(configs: Seq<ConfigView>, target: Option<Seq<char>>) -> EditStartView {
    if configs.len() == 0 {
        EditStartView::OfferAdd
    } else {
        match target {
            None => EditStartView::AskSelection,
            Some(id) => match lookup(configs, id) {
                Some(config) => EditStartView::Chosen { config },
                None => EditStartView::NotFound,
            },
        }
    }
}

/// Decides how the editing of an account begins.
pub fn start_edit(configs: &Vec<Config>, target: Option<&str>) -> (start: EditStart)
    ensures
        start@ == edit_start(
            config_views(configs@),
            match target {
                Some(id) => Some(id@),
                None => None,
            },
        ),
{
    assert(config_views(configs@).len() == configs@.len());
    if configs.len() == 0 {
        EditStart::OfferAdd
    } else {
        match target {
            None => EditStart::AskSelection,
            Some(id) => match find_config(configs, id) {
                Some(config) => EditStart::Chosen { config },
                None => EditStart::NotFound,
            },
        }
    }
}

/// The listing of accounts: one line for each account, in order, or a note
/// that there are none.
pub open spec fn view_text(configs: Seq<ConfigView>, is_jp: bool) -> Seq<Seq<char>> {
    if configs.len() == 0 {
        seq![message("view_no_accounts"@, is_jp)]
    } else {
        Seq::new(configs.len(), |i: int| view_line_text(configs[i], is_jp))
    }
}

/// Makes the listing of accounts.
pub fn view_lines(configs: &Vec<Config>, is_jp: bool) -> (lines: Vec<String>)
    ensures
        lines@.len() == view_text(config_views(configs@), is_jp).len(),
        forall|i: int|
            0 <= i < lines@.len() ==> #[trigger] lines@[i]@ == view_text(
                config_views(configs@),
                is_jp,
            )[i],
{
    let ghost all = config_views(configs@);
    assert(all.len() == configs@.len());
    let mut lines: Vec<String> = Vec::new();
    if configs.len() == 0 {
        lines.push(get_msg_lang("view_no_accounts", is_jp).to_owned());
        return lines;
    }
    let mut i: usize = 0;
    while i < configs.len()
        invariant
            i <= configs.len(),
            configs.len() > 0,
            all == config_views(configs@),
            lines@.len() == i,
            forall|j: int| 0 <= j < i ==> #[trigger] lines@[j]@ == view_line_text(all[j], is_jp),
        decreases configs.len() - i,
    {
        let line = view_line(&configs[i], is_jp);
        assert(all[i as int] == configs@[i as int]@);
        lines.push(line);
        i = i + 1;
    }
    lines
}

} // verus!
