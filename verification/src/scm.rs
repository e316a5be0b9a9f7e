//! Decisions for installing, removing and restarting the service: how the
//! service is entered with the host, what the host's failure codes mean, and
//! how a running service is brought to a stop.

use vstd::prelude::*;
use crate::i18n::{get_msg_lang, message};
use crate::text::{join3, replace_all, replaced_all};

verus! {

/// The host's failure code for a service that is not installed.
pub const ERROR_SERVICE_DOES_NOT_EXIST: u32 = 1060;

/// The host's failure code for a service that is not running.
pub const ERROR_SERVICE_NOT_ACTIVE: u32 = 1062;

/// The state of a service that has stopped.
pub const SERVICE_STOPPED: u32 = 1;

/// How long to wait before asking again whether the service has stopped, in
/// seconds.
pub const POLL_SECONDS: u64 = 1;

/// The name under which the service is entered with the host.
pub open spec fn service_name() -> Seq<char> {
    "MyDNSAdapterService"@
}

/// The name under which the service is shown.
pub open spec fn display_name() -> Seq<char> {
    "MyDNS.JP IP Notifier"@
}

/// The name under which the service is entered with the host.
pub fn service_name_text() -> (name: &'static str)
    ensures
        name@ == service_name(),
{
    "MyDNSAdapterService"
}

/// The name under which the service is shown.
pub fn display_name_text() -> (name: &'static str)
    ensures
        name@ == display_name(),
{
    "MyDNS.JP IP Notifier"
}

/// The command that the host runs to start the service: the program in
/// double quotes, and the argument that asks for the service.
pub open spec fn command_line(exe: Seq<char>) -> Seq<char> {
    "\""@ + exe + "\" --service"@
}

/// Makes the command that the host runs to start the service.
pub fn service_command_line(exe: &str) -> (command: String)
    ensures
        command@ == command_line(exe@),
{
    join3("\"", exe, "\" --service")
}

/// The result code that wraps a failure code of the host: zero and codes
/// with the top bit set are kept, every other code has its low sixteen bits
/// marked as a host failure.
pub open spec fn hresult_of(code: u32) -> u32 {
    if code == 0 || code >= 0x8000_0000 {
        code
    } else {
        (0x8007_0000 + code % 0x1_0000) as u32
    }
}

/// Wraps a failure code of the host in a result code.
pub fn hresult_from_win32(code: u32) -> (hresult: u32)
    ensures
        hresult == hresult_of(code),
{
    if code == 0 || code >= 0x8000_0000 {
        code
    } else {
        0x8007_0000 + code % 0x1_0000
    }
}

/// What came of a request to the host: it was carried out, or it failed with
/// a result code and a description.
#[derive(Debug, PartialEq, Eq)]
pub enum HostReply {
    Done,
    /// The state of the service, in answer to a query.
    State { state: u32 },
    Failed { hresult: u32, text: String },
}

/// A reply as a mathematical value.
pub enum HostReplyView {
    Done,
    State { state: u32 },
    Failed { hresult: u32, text: Seq<char> },
}

impl View for HostReply {
    type V = HostReplyView;

    open spec fn view(&self) -> HostReplyView {
        match *self {
            HostReply::Done => HostReplyView::Done,
            HostReply::State { state } => HostReplyView::State { state },
            HostReply::Failed { hresult, text } => HostReplyView::Failed { hresult, text: text@ },
        }
    }
}

/// What opening the service gave.
#[derive(Clone, Copy, Debug, PartialEq, Eq)]
pub enum OpenOutcome {
    Opened,
    /// The service is not installed: there is nothing to remove or restart.
    NotInstalled,
    /// The host failed otherwise.
    Failed,
}

/// The rule for opening the service.
pub open spec fn open_outcome(reply: HostReplyView) -> OpenOutcome {
    match reply {
        HostReplyView::Failed { hresult, text } => {
            if hresult == hresult_of(ERROR_SERVICE_DOES_NOT_EXIST) {
                OpenOutcome::NotInstalled
            } else {
                OpenOutcome::Failed
            }
        },
        _ => OpenOutcome::Opened,
    }
}

/// Reads the reply to the request to open the service.
pub fn classify_open(reply: &HostReply) -> (outcome: OpenOutcome)
    ensures
        outcome == open_outcome(reply@),
{
    match reply {
        HostReply::Failed { hresult, text } => {
            if *hresult == hresult_from_win32(ERROR_SERVICE_DOES_NOT_EXIST) {
                OpenOutcome::NotInstalled
            } else {
                OpenOutcome::Failed
            }
        },
        _ => OpenOutcome::Opened,
    }
}

/// The text for `key` with the service's name in its place.
pub open spec fn named_message(key: Seq<char>, is_jp: bool) -> Seq<char> {
    replaced_all(message(key, is_jp), "{}"@, service_name())
}

/// Makes the text for `key` with the service's name in its place.
pub fn service_message(key: &str, is_jp: bool) -> (text: String)
    ensures
        text@ == named_message(key@, is_jp),
{
    replace_all(get_msg_lang(key, is_jp), "{}", "MyDNSAdapterService")
}

/// Where the stopping of the service stands: the request that is out.
#[derive(Clone, Copy, Debug, PartialEq, Eq)]
pub enum StopPhase {
    Controlling,
    Querying,
    Sleeping,
    Finished,
}

/// What the stopping asks for next.
#[derive(Clone, Copy, Debug, PartialEq, Eq)]
pub enum StopAction {
    /// Send the service the signal to stop.
    SendStop,
    /// Ask for the state of the service.
    Query,
    /// Wait this many seconds.
    Sleep { seconds: u64 },
    /// End: the service has stopped or was not running.
    Succeed,
    /// End: the host failed, as the last reply says.
    Fail,
}

/// One step of the stopping: the phase after the reply, what is shown to the
/// operator, and what is asked for next.
#[derive(Debug, PartialEq, Eq)]
pub struct StopStep {
    pub phase: StopPhase,
    pub shown: Option<String>,
    pub action: StopAction,
}

/// A step as a mathematical value.
pub struct StopStepView {
    pub phase: StopPhase,
    pub shown: Option<Seq<char>>,
    pub action: StopAction,
}

impl View for StopStep {
    type V = StopStepView;

    open spec fn view(&self) -> StopStepView {
        StopStepView {
            phase: self.phase,
            shown: match self.shown {
                Some(text) => Some(text@),
                None => None,
            },
            action: self.action,
        }
    }
}

/// The step that ends the stopping on a failure of the host.
pub open spec fn stop_failed() -> StopStepView {
    StopStepView { phase: StopPhase::Finished, shown: None, action: StopAction::Fail }
}

/// The stopping's rule. The service is sent the signal to stop. If it takes
/// the signal, its state is asked for, with a pause between two queries,
/// until it has stopped. A service that is not running needs no stopping.
/// Every other failure of the host ends the stopping with that failure.
pub open spec fn stop_step(phase: StopPhase, reply: HostReplyView, is_jp: bool) -> StopStepView {
    match phase {
        StopPhase::Controlling => {
            match reply {
                HostReplyView::Failed { hresult, text } => {
                    if hresult == hresult_of(ERROR_SERVICE_NOT_ACTIVE) {
                        StopStepView {
                            phase: StopPhase::Finished,
                            shown: Some(message("service_not_running"@, is_jp)),
                            action: StopAction::Succeed,
                        }
                    } else {
                        stop_failed()
                    }
                },
                _ => StopStepView {
                    phase: StopPhase::Querying,
                    shown: Some(named_message("service_stopping_fmt"@, is_jp)),
                    action: StopAction::Query,
                },
            }
        },
        StopPhase::Querying => {
            match reply {
                HostReplyView::State { state } => {
                    if state == SERVICE_STOPPED {
                        StopStepView {
                            phase: StopPhase::Finished,
                            shown: Some(message("service_stopped"@, is_jp)),
                            action: StopAction::Succeed,
                        }
                    } else {
                        StopStepView {
                            phase: StopPhase::Sleeping,
                            shown: Some(message("service_waiting_stop"@, is_jp)),
                            action: StopAction::Sleep { seconds: POLL_SECONDS },
                        }
                    }
                },
                _ => stop_failed(),
            }
        },
        StopPhase::Sleeping => StopStepView {
            phase: StopPhase::Querying,
            shown: None,
            action: StopAction::Query,
        },
        StopPhase::Finished => StopStepView {
            phase: StopPhase::Finished,
            shown: None,
            action: StopAction::Succeed,
        },
    }
}

/// Begins the stopping of the service: the phase and the first request.
pub fn stop_service_start() -> (out: (StopPhase, StopAction))
    ensures
        out == (StopPhase::Controlling, StopAction::SendStop),
{
    (StopPhase::Controlling, StopAction::SendStop)
}

/// Takes the reply to the request that is out and says what is shown and
/// what comes next.
pub fn stop_service(phase: StopPhase, reply: &HostReply, is_jp: bool) -> (step: StopStep)
    ensures
        step@ == stop_step(phase, reply@, is_jp),
{
    match phase {
        StopPhase::Controlling => {
            match reply {
                HostReply::Failed { hresult, text } => {
                    if *hresult == hresult_from_win32(ERROR_SERVICE_NOT_ACTIVE) {
                        StopStep {
                            phase: StopPhase::Finished,
                            shown: Some(get_msg_lang("service_not_running", is_jp).to_owned()),
                            action: StopAction::Succeed,
                        }
                    } else {
                        StopStep { phase: StopPhase::Finished, shown: None, action: StopAction::Fail }
                    }
                },
                _ => StopStep {
                    phase: StopPhase::Querying,
                    shown: Some(service_message("service_stopping_fmt", is_jp)),
                    action: StopAction::Query,
                },
            }
        },
        StopPhase::Querying => {
            match reply {
                HostReply::State { state } => {
                    if *state == SERVICE_STOPPED {
                        StopStep {
                            phase: StopPhase::Finished,
                            shown: Some(get_msg_lang("service_stopped", is_jp).to_owned()),
                            action: StopAction::Succeed,
                        }
                    } else {
                        StopStep {
                            phase: StopPhase::Sleeping,
                            shown: Some(get_msg_lang("service_waiting_stop", is_jp).to_owned()),
                            action: StopAction::Sleep { seconds: POLL_SECONDS },
                        }
                    }
                },
                _ => StopStep { phase: StopPhase::Finished, shown: None, action: StopAction::Fail },
            }
        },
        StopPhase::Sleeping => StopStep {
            phase: StopPhase::Querying,
            shown: None,
            action: StopAction::Query,
        },
        StopPhase::Finished => StopStep {
            phase: StopPhase::Finished,
            shown: None,
            action: StopAction::Succeed,
        },
    }
}

/// What an administrative task is.
#[derive(Clone, Copy, Debug, PartialEq, Eq)]
pub enum AdminTask {
    Install,
    Uninstall,
    Restart,
}

/// The key of the text that refuses a task to an operator without the
/// rights of an administrator.
pub open spec fn refusal_key(task: AdminTask) -> Seq<char> {
    match task {
        AdminTask::Install => "admin_required_install"@,
        AdminTask::Uninstall => "admin_required_uninstall"@,
        AdminTask::Restart => "admin_required_restart"@,
    }
}

/// Whether the operator may carry out a task: only with the rights of an
/// administrator, which show in that the host's service manager can be
/// opened with full access. The refusal is the text to report.
pub fn is_elevated(task: AdminTask, manager_opened: bool, is_jp: bool) -> (outcome: Result<
    (),
    String,
>)
    ensures
        manager_opened ==> outcome is Ok,
        !manager_opened ==> outcome is Err && outcome->Err_0@ == message(refusal_key(task), is_jp),
{
    if manager_opened {
        Ok(())
    } else {
        let key = match task {
            AdminTask::Install => "admin_required_install",
            AdminTask::Uninstall => "admin_required_uninstall",
            AdminTask::Restart => "admin_required_restart",
        };
        Err(get_msg_lang(key, is_jp).to_owned())
    }
}

} // verus!
