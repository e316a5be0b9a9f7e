use mydns_adapter::logging::{LogEntry, LogLevel};
use mydns_adapter::registry::{Config, StoreError};
use mydns_adapter::service::{
    handle_control, ControlDecision, ControlResult, Controller, Phase, Report, ServiceAction,
    ServiceControl, ServiceEvent, ServiceState, ServiceStep, WaitResult, EXIT_CONFIGURATION,
    EXIT_SUCCESS, WAIT_SECONDS,
};

fn profiles() -> Vec<Config> {
    vec![
        Config {
            master_id: "mydns1".to_string(),
            password: "a".to_string(),
            ipv4_notify: true,
            ipv6_notify: true,
        },
        Config {
            master_id: "mydns2".to_string(),
            password: "b".to_string(),
            ipv4_notify: false,
            ipv6_notify: true,
        },
    ]
}

fn waited(result: WaitResult) -> ServiceEvent {
    ServiceEvent::Waited { result }
}

fn running() -> Controller {
    let (controller, _) = Controller::start();
    let controller = controller.step(ServiceEvent::Done).controller;
    let controller = controller.step(ServiceEvent::Done).controller;
    let step = controller.step(ServiceEvent::Loaded { outcome: Ok(profiles()) });
    assert_eq!(step.action, ServiceAction::Dispatch);
    step.controller
}

fn waiting() -> Controller {
    let step = running().step(ServiceEvent::Done);
    assert_eq!(step.action, ServiceAction::Wait { seconds: 300 });
    step.controller
}

fn drive(mut controller: Controller, events: Vec<ServiceEvent>) -> (Controller, Vec<ServiceAction>) {
    let mut actions = Vec::new();
    for event in events {
        let ServiceStep { controller: next, action, .. } = controller.step(event);
        controller = next;
        actions.push(action);
    }
    (controller, actions)
}

fn passes(actions: &[ServiceAction]) -> usize {
    actions.iter().filter(|a| **a == ServiceAction::Dispatch).count()
}

#[test]
fn the_wait_lasts_five_minutes() {
    assert_eq!(WAIT_SECONDS, 5 * 60);
}

#[test]
fn stop_and_interrogate_tell_the_service_to_stop() {
    let stop = ControlDecision { forward_stop: true, result: ControlResult::NoError };
    assert_eq!(handle_control(ServiceControl::Stop), stop);
    assert_eq!(handle_control(ServiceControl::Interrogate), stop);
}

#[test]
fn other_signals_are_not_implemented_and_tell_the_service_nothing() {
    assert_eq!(
        handle_control(ServiceControl::Other),
        ControlDecision { forward_stop: false, result: ControlResult::NotImplemented }
    );
}

#[test]
fn the_service_begins_by_registering() {
    let (controller, action) = Controller::start();
    assert_eq!(action, ServiceAction::Register);
    assert_eq!(controller.phase, Phase::Registering);
    assert_eq!(controller.state(), ServiceState::Starting);
}

#[test]
fn a_service_with_profiles_reports_running_loads_notifies_and_waits() {
    let (controller, _) = Controller::start();
    let step = controller.step(ServiceEvent::Done);
    assert_eq!(step.action, ServiceAction::Tell { report: Report::Running });
    assert!(step.log.is_empty());
    let step = step.controller.step(ServiceEvent::Done);
    assert_eq!(step.action, ServiceAction::LoadProfiles);
    assert_eq!(
        step.log,
        vec![LogEntry { level: LogLevel::Info, text: "Service started.".to_string() }]
    );
    assert_eq!(step.controller.state(), ServiceState::Starting);
    let step = step.controller.step(ServiceEvent::Loaded { outcome: Ok(profiles()) });
    assert_eq!(step.action, ServiceAction::Dispatch);
    assert!(step.log.is_empty());
    assert_eq!(step.controller.state(), ServiceState::Running);
    assert_eq!(step.controller.configs, profiles());
    let step = step.controller.step(ServiceEvent::Done);
    assert_eq!(step.action, ServiceAction::Wait { seconds: WAIT_SECONDS });
    assert_eq!(step.controller.phase, Phase::Waiting);
    assert_eq!(step.controller.state(), ServiceState::Running);
}

#[test]
fn a_service_without_profiles_stops_at_once_with_a_failure() {
    let (controller, _) = Controller::start();
    let events = vec![
        ServiceEvent::Done,
        ServiceEvent::Done,
        ServiceEvent::Loaded { outcome: Ok(Vec::new()) },
    ];
    let (controller, actions) = drive(controller, events);
    assert_eq!(
        actions,
        vec![
            ServiceAction::Tell { report: Report::Running },
            ServiceAction::LoadProfiles,
            ServiceAction::Tell { report: Report::Stopped { exit_code: EXIT_CONFIGURATION } },
        ]
    );
    assert_ne!(EXIT_CONFIGURATION, EXIT_SUCCESS);
    assert_eq!(controller.state(), ServiceState::Starting);
    let step = controller.step(ServiceEvent::Done);
    assert_eq!(step.action, ServiceAction::Exit { failed: false });
    assert_eq!(step.controller.state(), ServiceState::Stopped);
    assert_eq!(passes(&actions), 0);
}

#[test]
fn a_service_without_profiles_records_that_the_configuration_is_missing() {
    let (controller, _) = Controller::start();
    let controller = controller.step(ServiceEvent::Done).controller;
    let controller = controller.step(ServiceEvent::Done).controller;
    let step = controller.step(ServiceEvent::Loaded { outcome: Ok(Vec::new()) });
    assert_eq!(
        step.log,
        vec![LogEntry {
            level: LogLevel::Error,
            text: "MasterID or Password is not set. Service will stop.".to_string(),
        }]
    );
}

#[test]
fn a_store_that_cannot_be_read_counts_as_no_profiles() {
    let (controller, _) = Controller::start();
    let controller = controller.step(ServiceEvent::Done).controller;
    let controller = controller.step(ServiceEvent::Done).controller;
    let outcome = Err(StoreError::Persistence { code: 5 });
    let step = controller.step(ServiceEvent::Loaded { outcome });
    assert_eq!(
        step.action,
        ServiceAction::Tell { report: Report::Stopped { exit_code: EXIT_CONFIGURATION } }
    );
    assert_eq!(step.controller.phase, Phase::ReportingMissing);
}

#[test]
fn a_stop_signal_during_the_wait_ends_the_service_without_another_pass() {
    let step = waiting().step(waited(WaitResult::Signalled));
    assert_eq!(step.action, ServiceAction::Tell { report: Report::Stopped { exit_code: EXIT_SUCCESS } });
    assert_eq!(
        step.log,
        vec![LogEntry { level: LogLevel::Info, text: "Service stopping.".to_string() }]
    );
    assert_eq!(step.controller.state(), ServiceState::StoppingRequested);
    let step = step.controller.step(ServiceEvent::Done);
    assert_eq!(step.action, ServiceAction::Exit { failed: false });
    assert_eq!(step.controller.state(), ServiceState::Stopped);
}

#[test]
fn losing_the_source_of_signals_ends_the_service_like_a_stop_signal() {
    let step = waiting().step(waited(WaitResult::Disconnected));
    assert_eq!(step.action, ServiceAction::Tell { report: Report::Stopped { exit_code: 0 } });
    assert_eq!(step.controller.state(), ServiceState::StoppingRequested);
}

#[test]
fn a_wait_that_runs_out_gives_exactly_one_more_pass_and_then_the_next_wait() {
    let step = waiting().step(waited(WaitResult::TimedOut));
    assert_eq!(step.action, ServiceAction::Dispatch);
    assert_eq!(step.controller.configs, profiles());
    let step = step.controller.step(ServiceEvent::Done);
    assert_eq!(step.action, ServiceAction::Wait { seconds: 300 });
    assert_eq!(step.controller.phase, Phase::Waiting);
    assert_eq!(step.controller.configs, profiles());
}

#[test]
fn a_run_makes_one_pass_at_the_start_and_one_for_each_wait_that_ran_out() {
    let (controller, _) = Controller::start();
    let events = vec![
        ServiceEvent::Done,
        ServiceEvent::Done,
        ServiceEvent::Loaded { outcome: Ok(profiles()) },
        ServiceEvent::Done,
        waited(WaitResult::TimedOut),
        ServiceEvent::Done,
        waited(WaitResult::TimedOut),
        ServiceEvent::Done,
        waited(WaitResult::TimedOut),
        ServiceEvent::Done,
        waited(WaitResult::Signalled),
        ServiceEvent::Done,
    ];
    let (controller, actions) = drive(controller, events);
    assert_eq!(passes(&actions), 4);
    assert_eq!(actions.last(), Some(&ServiceAction::Exit { failed: false }));
    assert_eq!(controller.state(), ServiceState::Stopped);
}

#[test]
fn a_failure_of_the_host_ends_the_service_and_is_recorded() {
    let (controller, _) = Controller::start();
    let step = controller.step(ServiceEvent::Failed { error: "access denied".to_string() });
    assert_eq!(step.action, ServiceAction::Exit { failed: true });
    assert_eq!(
        step.log,
        vec![LogEntry {
            level: LogLevel::Error,
            text: "Service failed to run: access denied".to_string(),
        }]
    );
    assert_eq!(step.controller.state(), ServiceState::Stopped);
    let step = waiting().step(waited(WaitResult::Signalled)).controller.step(ServiceEvent::Failed {
        error: "gone".to_string(),
    });
    assert_eq!(step.action, ServiceAction::Exit { failed: true });
}

#[test]
fn an_event_that_does_not_answer_the_action_ends_the_service() {
    let step = running().step(waited(WaitResult::TimedOut));
    assert_eq!(step.action, ServiceAction::Exit { failed: true });
    assert_eq!(step.controller.phase, Phase::Finished);
    assert_eq!(
        step.log,
        vec![LogEntry {
            level: LogLevel::Error,
            text: "Service failed to run: unexpected event".to_string(),
        }]
    );
    let step = waiting().step(ServiceEvent::Done);
    assert_eq!(step.action, ServiceAction::Exit { failed: true });
}

#[test]
fn a_service_that_has_ended_stays_ended() {
    let ended = waiting()
        .step(waited(WaitResult::Signalled))
        .controller
        .step(ServiceEvent::Done)
        .controller;
    let events = vec![
        waited(WaitResult::TimedOut),
        ServiceEvent::Done,
        ServiceEvent::Loaded { outcome: Ok(profiles()) },
    ];
    let (controller, actions) = drive(ended, events);
    assert_eq!(passes(&actions), 0);
    assert_eq!(controller.state(), ServiceState::Stopped);
}
