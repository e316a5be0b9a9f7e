//! The schedule controller: the service's life from start to stop.
//!
//! The controller does nothing by itself. It says which action is due, and is
//! told what came of it; from that it says the next action. The service
//! registers for stop signals, reports that it runs, loads the profiles once,
//! notifies them all, and then waits: each time the wait runs out it notifies
//! them all again, and when a stop signal arrives, or the source of signals
//! is gone, it reports that it has stopped and ends. A service without
//! profiles reports that it has stopped with a failure and ends at once.

use vstd::prelude::*;
use crate::i18n::{get_msg_en, message};
use crate::logging::{entry_views, LogEntry, LogEntryView, LogLevel};
use crate::registry::{
    config_views, configs_or_empty, read_or_empty, Config, ConfigView, StoreError,
};
use crate::text::{replace_all, replaced_all};

verus! {

/// How long the service waits between two passes, in seconds.
pub const WAIT_SECONDS: u64 = 300;

/// The exit code of a service that stopped as asked.
pub const EXIT_SUCCESS: u32 = 0;

/// The exit code of a service that found no profiles.
pub const EXIT_CONFIGURATION: u32 = 1;

/// The states of the service.
#[derive(Clone, Copy, Debug, PartialEq, Eq)]
pub enum ServiceState {
    Starting,
    Running,
    StoppingRequested,
    Stopped,
}

/// A control signal from the host.
#[derive(Clone, Copy, Debug, PartialEq, Eq)]
pub enum ServiceControl {
    Stop,
    Interrogate,
    Other,
}

/// What the host is told of a control signal.
#[derive(Clone, Copy, Debug, PartialEq, Eq)]
pub enum ControlResult {
    NoError,
    NotImplemented,
}

/// What is done about a control signal: whether the service is told to stop,
/// and what the host is told.
#[derive(Clone, Copy, Debug, PartialEq, Eq)]
pub struct ControlDecision {
    pub forward_stop: bool,
    pub result: ControlResult,
}

/// The rule for control signals: a stop and an interrogation tell the service
/// to stop; every other signal is not implemented and tells it nothing.
pub open spec fn control_decision(control: ServiceControl) -> ControlDecision {
    match control {
        ServiceControl::Stop | ServiceControl::Interrogate => ControlDecision {
            forward_stop: true,
            result: ControlResult::NoError,
        },
        ServiceControl::Other => ControlDecision {
            forward_stop: false,
            result: ControlResult::NotImplemented,
        },
    }
}

/// Decides what is done about a control signal.
pub fn handle_control(control: ServiceControl) -> (decision: ControlDecision)
    ensures
        decision == control_decision(control),
{
    match control {
        ServiceControl::Stop | ServiceControl::Interrogate => ControlDecision {
            forward_stop: true,
            result: ControlResult::NoError,
        },
        ServiceControl::Other => ControlDecision {
            forward_stop: false,
            result: ControlResult::NotImplemented,
        },
    }
}

/// How a wait ended.
#[derive(Clone, Copy, Debug, PartialEq, Eq)]
pub enum WaitResult {
    /// A stop signal arrived.
    Signalled,
    /// The time ran out.
    TimedOut,
    /// The source of stop signals is gone.
    Disconnected,
}

/// What the host is told of the service.
#[derive(Clone, Copy, Debug, PartialEq, Eq)]
pub enum Report {
    /// The service runs and accepts a stop signal.
    Running,
    /// The service has stopped, with this exit code.
    Stopped { exit_code: u32 },
}

/// What the service does next.
#[derive(Clone, Copy, Debug, PartialEq, Eq)]
pub enum ServiceAction {
    /// Register with the host for control signals.
    Register,
    /// Tell the host how the service stands.
    Tell { report: Report },
    /// Read the profiles from the store.
    LoadProfiles,
    /// Notify every loaded profile, in order.
    Dispatch,
    /// Wait for a stop signal, at most this many seconds.
    Wait { seconds: u64 },
    /// End; `failed` says whether the service ended on a failure of the host.
    Exit { failed: bool },
}

/// What came of an action.
#[derive(Debug)]
pub enum ServiceEvent {
    /// `Register`, `Tell` or `Dispatch` was carried out.
    Done,
    /// `Register` or `Tell` failed; `error` says how.
    Failed { error: String },
    /// `LoadProfiles` ended: the profiles, or why they could not be read.
    Loaded { outcome: Result<Vec<Config>, StoreError> },
    /// `Wait` ended.
    Waited { result: WaitResult },
}

/// An event as a mathematical value.
pub enum EventView {
    Done,
    Failed { error: Seq<char> },
    Loaded { outcome: Result<Seq<ConfigView>, StoreError> },
    Waited { result: WaitResult },
}

impl View for ServiceEvent {
    type V = EventView;

    open spec fn view(&self) -> EventView {
        match *self {
            ServiceEvent::Done => EventView::Done,
            ServiceEvent::Failed { error } => EventView::Failed { error: error@ },
            ServiceEvent::Loaded { outcome } => EventView::Loaded {
                outcome: match outcome {
                    Ok(configs) => Ok(config_views(configs@)),
                    Err(e) => Err(e),
                },
            },
            ServiceEvent::Waited { result } => EventView::Waited { result },
        }
    }
}

/// Where the controller stands: the action that is out.
#[derive(Clone, Copy, Debug, PartialEq, Eq)]
pub enum Phase {
    Registering,
    ReportingRunning,
    Loading,
    Dispatching,
    Waiting,
    /// Telling the host that the service stopped for want of profiles.
    ReportingMissing,
    /// Telling the host that the service stopped as asked.
    ReportingStopped,
    Finished,
}

/// The state of the service in each phase.
pub open spec fn state_of(phase: Phase) -> ServiceState {
    match phase {
        Phase::Registering | Phase::ReportingRunning | Phase::Loading | Phase::ReportingMissing => {
            ServiceState::Starting
        },
        Phase::Dispatching | Phase::Waiting => ServiceState::Running,
        Phase::ReportingStopped => ServiceState::StoppingRequested,
        Phase::Finished => ServiceState::Stopped,
    }
}

/// The controller: its phase and the profiles that it loaded.
#[derive(Debug)]
pub struct Controller {
    pub phase: Phase,
    pub configs: Vec<Config>,
}

/// A controller as a mathematical value.
pub struct ControllerView {
    pub phase: Phase,
    pub configs: Seq<ConfigView>,
}

impl View for Controller {
    type V = ControllerView;

    open spec fn view(&self) -> ControllerView {
        ControllerView { phase: self.phase, configs: config_views(self.configs@) }
    }
}

/// One step of the controller: the controller after the event, what goes to
/// the log, and the action that is due.
#[derive(Debug)]
pub struct ServiceStep {
    pub controller: Controller,
    pub log: Vec<LogEntry>,
    pub action: ServiceAction,
}

/// A step as a mathematical value.
pub struct StepView {
    pub controller: ControllerView,
    pub log: Seq<LogEntryView>,
    pub action: ServiceAction,
}

impl View for ServiceStep {
    type V = StepView;

    open spec fn view(&self) -> StepView {
        StepView { controller: self.controller@, log: entry_views(self.log@), action: self.action }
    }
}

/// The controller before its first event.
pub open spec fn service_start() -> ControllerView {
    ControllerView { phase: Phase::Registering, configs: Seq::empty() }
}

/// An entry of level `Info` with the English text for `key`.
pub open spec fn info(key: Seq<char>) -> LogEntryView {
    LogEntryView { level: LogLevel::Info, text: message(key, false) }
}

/// An entry of level `Error` with the English text for `key`.
pub open spec fn error(key: Seq<char>) -> LogEntryView {
    LogEntryView { level: LogLevel::Error, text: message(key, false) }
}

/// The entry that records a failure of the host.
pub open spec fn failure_entry(error: Seq<char>) -> LogEntryView {
    LogEntryView {
        level: LogLevel::Error,
        text: replaced_all(message("log_service_failed_fmt"@, false), "{}"@, error),
    }
}

/// The step that ends the service on a failure of the host.
pub open spec fn fail_step(c: ControllerView, error: Seq<char>) -> StepView {
    StepView {
        controller: ControllerView { phase: Phase::Finished, ..c },
        log: seq![failure_entry(error)],
        action: ServiceAction::Exit { failed: true },
    }
}

/// What is said of an event that does not answer the action that is out.
pub open spec fn unexpected() -> Seq<char> {
    "unexpected event"@
}

/// The step that follows an action of the host: the next step if it was
/// carried out, the end of the service if it failed or was answered by
/// another event.
pub open spec fn after_host(c: ControllerView, event: EventView, next: StepView) -> StepView {
    match event {
        EventView::Done => next,
        EventView::Failed { error } => fail_step(c, error),
        _ => fail_step(c, unexpected()),
    }
}

/// The controller's rule: what follows from the event that answers the action
/// that is out.
pub open spec fn service_step(c: ControllerView, event: EventView) -> StepView {
    match c.phase {
        Phase::Registering => after_host(
            c,
            event,
            StepView {
                controller: ControllerView { phase: Phase::ReportingRunning, ..c },
                log: Seq::empty(),
                action: ServiceAction::Tell { report: Report::Running },
            },
        ),
        Phase::ReportingRunning => after_host(
            c,
            event,
            StepView {
                controller: ControllerView { phase: Phase::Loading, ..c },
                log: seq![info("log_service_started"@)],
                action: ServiceAction::LoadProfiles,
            },
        ),
        Phase::Loading => {
            match event {
                EventView::Loaded { outcome } => {
                    let configs = read_or_empty(outcome);
                    if configs.len() == 0 {
                        StepView {
                            controller: ControllerView { phase: Phase::ReportingMissing, ..c },
                            log: seq![error("log_service_config_missing"@)],
                            action: ServiceAction::Tell {
                                report: Report::Stopped { exit_code: EXIT_CONFIGURATION },
                            },
                        }
                    } else {
                        StepView {
                            controller: ControllerView { phase: Phase::Dispatching, configs },
                            log: Seq::empty(),
                            action: ServiceAction::Dispatch,
                        }
                    }
                },
                _ => fail_step(c, unexpected()),
            }
        },
        Phase::Dispatching => {
            match event {
                EventView::Done => StepView {
                    controller: ControllerView { phase: Phase::Waiting, ..c },
                    log: Seq::empty(),
                    action: ServiceAction::Wait { seconds: WAIT_SECONDS },
                },
                _ => fail_step(c, unexpected()),
            }
        },
        Phase::Waiting => {
            match event {
                EventView::Waited { result } => {
                    match result {
                        WaitResult::TimedOut => StepView {
                            controller: ControllerView { phase: Phase::Dispatching, ..c },
                            log: Seq::empty(),
                            action: ServiceAction::Dispatch,
                        },
                        WaitResult::Signalled | WaitResult::Disconnected => StepView {
                            controller: ControllerView { phase: Phase::ReportingStopped, ..c },
                            log: seq![info("log_service_stopping"@)],
                            action: ServiceAction::Tell {
                                report: Report::Stopped { exit_code: EXIT_SUCCESS },
                            },
                        },
                    }
                },
                _ => fail_step(c, unexpected()),
            }
        },
        Phase::ReportingMissing | Phase::ReportingStopped => after_host(
            c,
            event,
            StepView {
                controller: ControllerView { phase: Phase::Finished, ..c },
                log: Seq::empty(),
                action: ServiceAction::Exit { failed: false },
            },
        ),
        Phase::Finished => StepView {
            controller: c,
            log: Seq::empty(),
            action: ServiceAction::Exit { failed: false },
        },
    }
}

/// An entry with the English text for `key`.
fn entry(level: LogLevel, key: &str) -> (e: LogEntry)
    ensures
        e@ == (LogEntryView { level, text: message(key@, false) }),
{
    LogEntry { level, text: get_msg_en(key).to_owned() }
}

/// A log of one entry.
fn single(e: LogEntry) -> (log: Vec<LogEntry>)
    ensures
        entry_views(log@) == seq![e@],
{
    let mut log: Vec<LogEntry> = Vec::new();
    log.push(e);
    assert(entry_views(log@) =~= seq![e@]);
    log
}

/// An empty log.
fn silent() -> (log: Vec<LogEntry>)
    ensures
        entry_views(log@) == Seq::<LogEntryView>::empty(),
{
    let log: Vec<LogEntry> = Vec::new();
    assert(entry_views(log@) =~= Seq::<LogEntryView>::empty());
    log
}

impl Controller {
    /// Begins the service: the controller and its first action.
    pub fn start() -> (out: (Controller, ServiceAction))
        ensures
            out.0@ == service_start(),
            out.1 == ServiceAction::Register,
    {
        let controller = Controller { phase: Phase::Registering, configs: Vec::new() };
        assert(config_views(controller.configs@) =~= Seq::empty());
        (controller, ServiceAction::Register)
    }

    /// The state of the service.
    pub fn state(&self) -> (state: ServiceState)
        ensures
            state == state_of(self@.phase),
    {
        match self.phase {
            Phase::Registering | Phase::ReportingRunning | Phase::Loading | Phase::ReportingMissing => {
                ServiceState::Starting
            },
            Phase::Dispatching | Phase::Waiting => ServiceState::Running,
            Phase::ReportingStopped => ServiceState::StoppingRequested,
            Phase::Finished => ServiceState::Stopped,
        }
    }

    /// Ends the service on a failure of the host.
    fn fail(self, error: &str) -> (step: ServiceStep)
        ensures
            step@ == fail_step(self@, error@),
    {
        let mut controller = self;
        controller.phase = Phase::Finished;
        let text = replace_all(get_msg_en("log_service_failed_fmt"), "{}", error);
        ServiceStep {
            controller,
            log: single(LogEntry { level: LogLevel::Error, text }),
            action: ServiceAction::Exit { failed: true },
        }
    }

    /// Goes on after an action of the host.
    fn proceed(self, event: ServiceEvent, phase: Phase, log: Vec<LogEntry>, action: ServiceAction) -> (step:
        ServiceStep)
        ensures
            step@ == after_host(
                self@,
                event@,
                StepView {
                    controller: ControllerView { phase, ..self@ },
                    log: entry_views(log@),
                    action,
                },
            ),
    {
        match event {
            ServiceEvent::Done => {
                let mut controller = self;
                controller.phase = phase;
                ServiceStep { controller, log, action }
            },
            ServiceEvent::Failed { error } => self.fail(error.as_str()),
            _ => self.fail("unexpected event"),
        }
    }

    /// Takes the event that answers the action that is out and says what is
    /// logged and which action is due.
    pub fn step(self, event: ServiceEvent) -> (step: ServiceStep)
        ensures
            step@ == service_step(self@, event@),
    {
        match self.phase {
            Phase::Registering => self.proceed(
                event,
                Phase::ReportingRunning,
                silent(),
                ServiceAction::Tell { report: Report::Running },
            ),
            Phase::ReportingRunning => self.proceed(
                event,
                Phase::Loading,
                single(entry(LogLevel::Info, "log_service_started")),
                ServiceAction::LoadProfiles,
            ),
            Phase::Loading => {
                match event {
                    ServiceEvent::Loaded { outcome } => {
                        let configs = configs_or_empty(outcome);
                        let mut controller = self;
                        if configs.len() == 0 {
                            controller.phase = Phase::ReportingMissing;
                            ServiceStep {
                                controller,
                                log: single(entry(LogLevel::Error, "log_service_config_missing")),
                                action: ServiceAction::Tell {
                                    report: Report::Stopped { exit_code: EXIT_CONFIGURATION },
                                },
                            }
                        } else {
                            controller.phase = Phase::Dispatching;
                            controller.configs = configs;
                            ServiceStep { controller, log: silent(), action: ServiceAction::Dispatch }
                        }
                    },
                    _ => self.fail("unexpected event"),
                }
            },
            Phase::Dispatching => {
                match event {
                    ServiceEvent::Done => {
                        let mut controller = self;
                        controller.phase = Phase::Waiting;
                        ServiceStep {
                            controller,
                            log: silent(),
                            action: ServiceAction::Wait { seconds: WAIT_SECONDS },
                        }
                    },
                    _ => self.fail("unexpected event"),
                }
            },
            Phase::Waiting => {
                match event {
                    ServiceEvent::Waited { result } => {
                        let mut controller = self;
                        match result {
                            WaitResult::TimedOut => {
                                controller.phase = Phase::Dispatching;
                                ServiceStep {
                                    controller,
                                    log: silent(),
                                    action: ServiceAction::Dispatch,
                                }
                            },
                            WaitResult::Signalled | WaitResult::Disconnected => {
                                controller.phase = Phase::ReportingStopped;
                                ServiceStep {
                                    controller,
                                    log: single(entry(LogLevel::Info, "log_service_stopping")),
                                    action: ServiceAction::Tell {
                                        report: Report::Stopped { exit_code: EXIT_SUCCESS },
                                    },
                                }
                            },
                        }
                    },
                    _ => self.fail("unexpected event"),
                }
            },
            Phase::ReportingMissing | Phase::ReportingStopped => self.proceed(
                event,
                Phase::Finished,
                silent(),
                ServiceAction::Exit { failed: false },
            ),
            Phase::Finished => ServiceStep {
                controller: self,
                log: silent(),
                action: ServiceAction::Exit { failed: false },
            },
        }
    }
}

/// The actions that a run of events draws from a controller, one for each event.
pub open spec fn run_actions(c: ControllerView, events: Seq<EventView>) -> Seq<ServiceAction>
    decreases events.len(),
{
    if events.len() == 0 {
        Seq::empty()
    } else {
        let step = service_step(c, events[0]);
        seq![step.action] + run_actions(step.controller, events.drop_first())
    }
}

/// The controller after a run of events.
pub open spec fn run_end(c: ControllerView, events: Seq<EventView>) -> ControllerView
    decreases events.len(),
{
    if events.len() == 0 {
        c
    } else {
        run_end(service_step(c, events[0]).controller, events.drop_first())
    }
}

/// The number of passes among actions.
pub open spec fn passes(actions: Seq<ServiceAction>) -> nat
    decreases actions.len(),
{
    if actions.len() == 0 {
        0
    } else {
        passes(actions.drop_first()) + if actions[0] == ServiceAction::Dispatch {
            1nat
        } else {
            0nat
        }
    }
}

/// The number of waits among events that ended because the time ran out.
pub open spec fn timeouts(events: Seq<EventView>) -> nat
    decreases events.len(),
{
    if events.len() == 0 {
        0
    } else {
        timeouts(events.drop_first()) + if events[0] == (EventView::Waited {
            result: WaitResult::TimedOut,
        }) {
            1nat
        } else {
            0nat
        }
    }
}

/// The passes that a controller may still make without a wait running out:
/// the first pass, as long as the profiles are not loaded.
pub open spec fn passes_due(phase: Phase) -> nat {
    match phase {
        Phase::Registering | Phase::ReportingRunning | Phase::Loading => 1,
        _ => 0,
    }
}

/// A stop signal during the wait, or the loss of the source of signals,
/// leads to the end without another pass: the service tells the host that it
/// stopped with success, and once that is done, it ends in the state
/// `Stopped`.
pub proof fn lemma_stop_during_wait(c: ControllerView, result: WaitResult)
    requires
        c.phase == Phase::Waiting,
        result != WaitResult::TimedOut,
    ensures
        ({
            let first = service_step(c, EventView::Waited { result });
            let second = service_step(first.controller, EventView::Done);
            &&& first.action == ServiceAction::Tell { report: Report::Stopped { exit_code: EXIT_SUCCESS } }
            &&& state_of(first.controller.phase) == ServiceState::StoppingRequested
            &&& second.action == ServiceAction::Exit { failed: false }
            &&& state_of(second.controller.phase) == ServiceState::Stopped
        }),
{
}

/// A wait that runs out leads to exactly one pass over the profiles that were
/// loaded at the start, and then to the next wait.
pub proof fn lemma_timeout_during_wait(c: ControllerView)
    requires
        c.phase == Phase::Waiting,
    ensures
        ({
            let first = service_step(c, EventView::Waited { result: WaitResult::TimedOut });
            let second = service_step(first.controller, EventView::Done);
            &&& first.action == ServiceAction::Dispatch
            &&& first.controller.configs == c.configs
            &&& second.action == ServiceAction::Wait { seconds: WAIT_SECONDS }
            &&& second.controller == c
        }),
{
}

/// A service that finds no profiles, or cannot read them, makes no pass: it
/// tells the host that it stopped with the exit code for a missing
/// configuration and ends in the state `Stopped`.
pub proof fn lemma_start_without_profiles(outcome: Result<Seq<ConfigView>, StoreError>)
    requires
        outcome matches Ok(configs) ==> configs.len() == 0,
    ensures
        ({
            let events = seq![
                EventView::Done,
                EventView::Done,
                EventView::Loaded { outcome },
                EventView::Done,
            ];
            &&& run_actions(service_start(), events) == seq![
                ServiceAction::Tell { report: Report::Running },
                ServiceAction::LoadProfiles,
                ServiceAction::Tell { report: Report::Stopped { exit_code: EXIT_CONFIGURATION } },
                ServiceAction::Exit { failed: false },
            ]
            &&& passes(run_actions(service_start(), events)) == 0
            &&& state_of(run_end(service_start(), events).phase) == ServiceState::Stopped
        }),
{
    let events = seq![
        EventView::Done,
        EventView::Done,
        EventView::Loaded { outcome },
        EventView::Done,
    ];
    let expected = seq![
        ServiceAction::Tell { report: Report::Running },
        ServiceAction::LoadProfiles,
        ServiceAction::Tell { report: Report::Stopped { exit_code: EXIT_CONFIGURATION } },
        ServiceAction::Exit { failed: false },
    ];
    reveal_with_fuel(run_actions, 5);
    reveal_with_fuel(run_end, 5);
    reveal_with_fuel(passes, 5);
    let e1 = events.drop_first();
    let e2 = e1.drop_first();
    let e3 = e2.drop_first();
    assert(e1[0] == EventView::Done);
    assert(e2[0] == EventView::Loaded { outcome });
    assert(e3[0] == EventView::Done);
    assert(e3.drop_first().len() == 0);
    assert(run_actions(service_start(), events) =~= expected);
    let a1 = expected.drop_first();
    let a2 = a1.drop_first();
    let a3 = a2.drop_first();
    assert(a3.drop_first().len() == 0);
}

/// Whatever events arrive, the service makes at most one pass for each wait
/// that ran out, and one more if it has not made its first.
pub proof fn lemma_passes_bounded(c: ControllerView, events: Seq<EventView>)
    ensures
        passes(run_actions(c, events)) <= passes_due(c.phase) + timeouts(events),
    decreases events.len(),
{
    if events.len() > 0 {
        let step = service_step(c, events[0]);
        let rest = events.drop_first();
        lemma_passes_bounded(step.controller, rest);
        let actions = run_actions(c, events);
        assert(actions.drop_first() =~= run_actions(step.controller, rest));
        assert(actions[0] == step.action);
    }
}

/// Once the service is told to stop, or has found no profiles, it makes no
/// pass any more, whatever events arrive.
pub proof fn lemma_no_pass_after_stop(c: ControllerView, events: Seq<EventView>)
    requires
        c.phase == Phase::ReportingStopped || c.phase == Phase::ReportingMissing || c.phase
            == Phase::Finished,
    ensures
        passes(run_actions(c, events)) == 0,
    decreases events.len(),
{
    if events.len() > 0 {
        let step = service_step(c, events[0]);
        let rest = events.drop_first();
        lemma_no_pass_after_stop(step.controller, rest);
        let actions = run_actions(c, events);
        assert(actions.drop_first() =~= run_actions(step.controller, rest));
        assert(actions[0] == step.action);
    }
}

} // verus!
