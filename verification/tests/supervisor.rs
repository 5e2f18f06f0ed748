use siscom_consumer::logging::{LogLevel, LogLine};
use siscom_consumer::supervisor::{
    ShutdownStep, StartStep, Supervisor, SupervisorAction, SupervisorEvent, SupervisorState,
    HEALTH_PROBE_PERIOD_SECS, HEALTH_PROBE_TIMEOUT_SECS, STATISTICS_PERIOD_SECS,
};

#[test]
fn probe_and_statistics_cadence() {
    assert_eq!(HEALTH_PROBE_PERIOD_SECS, 30);
    assert_eq!(HEALTH_PROBE_TIMEOUT_SECS, 5);
    assert_eq!(STATISTICS_PERIOD_SECS, 60);
}

#[test]
fn service_comes_up_step_by_step() {
    let (mut supervisor, first) = Supervisor::new();
    assert_eq!(first, SupervisorAction::Start(StartStep::BuildStore));
    let expected = [
        SupervisorAction::Start(StartStep::BuildConsumer),
        SupervisorAction::Start(StartStep::BuildProcessor),
        SupervisorAction::Start(StartStep::StartConsumer),
        SupervisorAction::Start(StartStep::SpawnBatcher),
        SupervisorAction::Start(StartStep::SpawnProbes),
        SupervisorAction::AwaitShutdown,
    ];
    for action in expected {
        assert_eq!(supervisor.on_event(SupervisorEvent::StepDone), action);
    }
    assert_eq!(supervisor.state, SupervisorState::Running);
}

#[test]
fn shutdown_drains_before_it_disconnects() {
    let (mut supervisor, _) = Supervisor::new();
    for _ in 0..6 {
        supervisor.on_event(SupervisorEvent::StepDone);
    }
    assert_eq!(
        supervisor.on_event(SupervisorEvent::ShutdownSignal),
        SupervisorAction::Shutdown(ShutdownStep::LogIntent)
    );
    assert_eq!(
        supervisor.on_event(SupervisorEvent::StepDone),
        SupervisorAction::Shutdown(ShutdownStep::DrainBatcher)
    );
    assert_eq!(
        supervisor.on_event(SupervisorEvent::StepFailed),
        SupervisorAction::Shutdown(ShutdownStep::DisconnectConsumer)
    );
    assert_eq!(supervisor.on_event(SupervisorEvent::StepFailed), SupervisorAction::Exit { code: 0 });
    assert_eq!(supervisor.state, SupervisorState::Stopped { exit_code: 0 });
    assert_eq!(supervisor.on_event(SupervisorEvent::StepDone), SupervisorAction::Exit { code: 0 });
}

#[test]
fn ended_task_starts_the_shutdown_too() {
    let mut supervisor = Supervisor { state: SupervisorState::Running };
    assert_eq!(
        supervisor.on_event(SupervisorEvent::TaskEnded),
        SupervisorAction::Shutdown(ShutdownStep::LogIntent)
    );
}

#[test]
fn failed_start_step_exits_non_zero() {
    for failing in 0..6 {
        let (mut supervisor, _) = Supervisor::new();
        for _ in 0..failing {
            supervisor.on_event(SupervisorEvent::StepDone);
        }
        assert_eq!(
            supervisor.on_event(SupervisorEvent::StepFailed),
            SupervisorAction::Exit { code: 1 }
        );
        assert_eq!(supervisor.state, SupervisorState::Stopped { exit_code: 1 });
        assert_eq!(
            supervisor.on_event(SupervisorEvent::ShutdownSignal),
            SupervisorAction::Exit { code: 1 }
        );
    }
}

#[test]
fn consumer_is_started_once() {
    let (mut supervisor, first) = Supervisor::new();
    let mut actions = vec![first];
    let events = [
        SupervisorEvent::StepDone,
        SupervisorEvent::StepDone,
        SupervisorEvent::StepDone,
        SupervisorEvent::StepDone,
        SupervisorEvent::StepDone,
        SupervisorEvent::StepDone,
        SupervisorEvent::ShutdownSignal,
        SupervisorEvent::StepDone,
        SupervisorEvent::StepDone,
        SupervisorEvent::StepDone,
        SupervisorEvent::StepDone,
    ];
    for event in events {
        actions.push(supervisor.on_event(event));
    }
    let starts = actions
        .iter()
        .filter(|a| **a == SupervisorAction::Start(StartStep::StartConsumer))
        .count();
    assert_eq!(starts, 1);
    let drain = actions
        .iter()
        .position(|a| *a == SupervisorAction::Shutdown(ShutdownStep::DrainBatcher))
        .unwrap();
    let disconnect = actions
        .iter()
        .position(|a| *a == SupervisorAction::Shutdown(ShutdownStep::DisconnectConsumer))
        .unwrap();
    assert!(drain < disconnect);
}

#[test]
fn health_report_warns_for_each_unhealthy_service() {
    assert_eq!(
        Supervisor::health_report(true, true),
        vec![LogLine {
            level: LogLevel::Info,
            text: "💚 Todos los servicios están saludables".to_string()
        }]
    );
    assert_eq!(
        Supervisor::health_report(false, true),
        vec![LogLine {
            level: LogLevel::Warn,
            text: "⚠️ Base de datos no está saludable".to_string()
        }]
    );
    assert_eq!(
        Supervisor::health_report(true, false),
        vec![LogLine { level: LogLevel::Warn, text: "⚠️ Kafka no está saludable".to_string() }]
    );
    assert_eq!(
        Supervisor::health_report(false, false),
        vec![
            LogLine {
                level: LogLevel::Warn,
                text: "⚠️ Base de datos no está saludable".to_string()
            },
            LogLine { level: LogLevel::Warn, text: "⚠️ Kafka no está saludable".to_string() },
        ]
    );
}
