//! The supervisor: the order in which the service is brought up and taken
//! down, as a machine that is told what came of each step and answers with
//! the next one.

use crate::logging::{LogLevel, LogLine};
use vstd::prelude::*;
use vstd::string::StringExecFns;

verus! {

/// Seconds between two health probes of the store.
pub const HEALTH_PROBE_PERIOD_SECS: u64 = 30;

/// Seconds after which a health probe counts as failed.
pub const HEALTH_PROBE_TIMEOUT_SECS: u64 = 5;

/// Seconds between two reports of the statistics.
pub const STATISTICS_PERIOD_SECS: u64 = 60;

/// The steps that bring the service up, in their order.
#[derive(Debug, Clone, Copy, PartialEq, Eq, Structural)]
pub enum StartStep {
    /// Open the pool of the store and verify the connection.
    BuildStore,
    /// Configure the consumer, without subscribing.
    BuildConsumer,
    /// Construct the batcher, bound to the store.
    BuildProcessor,
    /// Start the consumer and take the inbound channel.
    StartConsumer,
    /// Spawn the loop of the batcher on that channel.
    SpawnBatcher,
    /// Spawn the periodic health probe and the statistics.
    SpawnProbes,
}

/// The steps that take the service down, in their order.
#[derive(Debug, Clone, Copy, PartialEq, Eq, Structural)]
pub enum ShutdownStep {
    /// Log that the service shuts down.
    LogIntent,
    /// Have the batcher stop accepting and flush its batch.
    DrainBatcher,
    /// Disconnect the consumer.
    DisconnectConsumer,
}

/// Where the service stands.
#[derive(Debug, Clone, Copy, PartialEq, Eq, Structural)]
pub enum SupervisorState {
    /// The step is being taken to bring the service up.
    Starting(StartStep),
    /// The service runs; the supervisor waits for the shutdown signal or for
    /// a task to end.
    Running,
    /// The step is being taken to take the service down.
    ShuttingDown(ShutdownStep),
    /// The service has ended with this exit code.
    Stopped { exit_code: i32 },
}

/// What came of what the supervisor asked for.
#[derive(Debug, Clone, Copy, PartialEq, Eq, Structural)]
pub enum SupervisorEvent {
    /// The step succeeded.
    StepDone,
    /// The step failed.
    StepFailed,
    /// The shutdown signal was raised.
    ShutdownSignal,
    /// One of the long-running tasks ended by itself.
    TaskEnded,
}

/// What the supervisor asks for.
#[derive(Debug, Clone, Copy, PartialEq, Eq, Structural)]
pub enum SupervisorAction {
    Start(StartStep),
    AwaitShutdown,
    Shutdown(ShutdownStep),
    Exit { code: i32 },
}

/// The state that follows `state` on `event`. Bringing the service up stops
/// at the first step that fails, with a non-zero exit code. Once the service
/// runs, the signal and the end of a task both start the shutdown, whose
/// steps are all taken, whether one of them fails or not; the exit code is
/// then 0.
pub open spec fn next_state(state: SupervisorState, event: SupervisorEvent) -> SupervisorState {
    match state {
        SupervisorState::Starting(step) => if event is StepFailed {
            SupervisorState::Stopped { exit_code: 1 }
        } else {
            match step {
                StartStep::BuildStore => SupervisorState::Starting(StartStep::BuildConsumer),
                StartStep::BuildConsumer => SupervisorState::Starting(StartStep::BuildProcessor),
                StartStep::BuildProcessor => SupervisorState::Starting(StartStep::StartConsumer),
                StartStep::StartConsumer => SupervisorState::Starting(StartStep::SpawnBatcher),
                StartStep::SpawnBatcher => SupervisorState::Starting(StartStep::SpawnProbes),
                StartStep::SpawnProbes => SupervisorState::Running,
            }
        },
        SupervisorState::Running => SupervisorState::ShuttingDown(ShutdownStep::LogIntent),
        SupervisorState::ShuttingDown(step) => match step {
            ShutdownStep::LogIntent => SupervisorState::ShuttingDown(ShutdownStep::DrainBatcher),
            ShutdownStep::DrainBatcher => SupervisorState::ShuttingDown(
                ShutdownStep::DisconnectConsumer,
            ),
            ShutdownStep::DisconnectConsumer => SupervisorState::Stopped { exit_code: 0 },
        },
        SupervisorState::Stopped { exit_code } => SupervisorState::Stopped { exit_code },
    }
}

/// What the supervisor asks for in a state.
pub open spec fn action_in(state: SupervisorState) -> SupervisorAction {
    match state {
        SupervisorState::Starting(step) => SupervisorAction::Start(step),
        SupervisorState::Running => SupervisorAction::AwaitShutdown,
        SupervisorState::ShuttingDown(step) => SupervisorAction::Shutdown(step),
        SupervisorState::Stopped { exit_code } => SupervisorAction::Exit { code: exit_code },
    }
}

/// How far a state is along the life of the service.
pub open spec fn progress_of(state: SupervisorState) -> nat {
    match state {
        SupervisorState::Starting(StartStep::BuildStore) => 0,
        SupervisorState::Starting(StartStep::BuildConsumer) => 1,
        SupervisorState::Starting(StartStep::BuildProcessor) => 2,
        SupervisorState::Starting(StartStep::StartConsumer) => 3,
        SupervisorState::Starting(StartStep::SpawnBatcher) => 4,
        SupervisorState::Starting(StartStep::SpawnProbes) => 5,
        SupervisorState::Running => 6,
        SupervisorState::ShuttingDown(ShutdownStep::LogIntent) => 7,
        SupervisorState::ShuttingDown(ShutdownStep::DrainBatcher) => 8,
        SupervisorState::ShuttingDown(ShutdownStep::DisconnectConsumer) => 9,
        SupervisorState::Stopped { .. } => 10,
    }
}

/// The supervisor of the service.
#[derive(Debug, Clone, Copy, PartialEq, Eq, Structural)]
pub struct Supervisor {
    pub state: SupervisorState,
}

impl Supervisor {
    /// A supervisor at the first step of bringing the service up.
    pub fn new() -> (started: (Supervisor, SupervisorAction))
        ensures
            started.0.state == SupervisorState::Starting(StartStep::BuildStore),
            started.1 == action_in(started.0.state),
    {
        (
            Supervisor { state: SupervisorState::Starting(StartStep::BuildStore) },
            SupervisorAction::Start(StartStep::BuildStore),
        )
    }

    /// Takes what came of the last request and tells the next one. Every
    /// event moves the service forward until it has stopped, so that each
    /// step is taken at most once and in order: the consumer is started once,
    /// and it is disconnected only after the batcher has been drained.
    pub fn on_event(&mut self, event: SupervisorEvent) -> (action: SupervisorAction)
        ensures
            final(self).state == next_state(old(self).state, event),
            action == action_in(final(self).state),
            old(self).state is Stopped || progress_of(final(self).state) > progress_of(
                old(self).state,
            ),
    {
        let next = match self.state {
            SupervisorState::Starting(step) => match event {
                SupervisorEvent::StepFailed => SupervisorState::Stopped { exit_code: 1 },
                _ => match step {
                    StartStep::BuildStore => SupervisorState::Starting(StartStep::BuildConsumer),
                    StartStep::BuildConsumer => SupervisorState::Starting(
                        StartStep::BuildProcessor,
                    ),
                    StartStep::BuildProcessor => SupervisorState::Starting(
                        StartStep::StartConsumer,
                    ),
                    StartStep::StartConsumer => SupervisorState::Starting(StartStep::SpawnBatcher),
                    StartStep::SpawnBatcher => SupervisorState::Starting(StartStep::SpawnProbes),
                    StartStep::SpawnProbes => SupervisorState::Running,
                },
            },
            SupervisorState::Running => SupervisorState::ShuttingDown(ShutdownStep::LogIntent),
            SupervisorState::ShuttingDown(step) => match step {
                ShutdownStep::LogIntent => SupervisorState::ShuttingDown(
                    ShutdownStep::DrainBatcher,
                ),
                ShutdownStep::DrainBatcher => SupervisorState::ShuttingDown(
                    ShutdownStep::DisconnectConsumer,
                ),
                ShutdownStep::DisconnectConsumer => SupervisorState::Stopped { exit_code: 0 },
            },
            SupervisorState::Stopped { exit_code } => SupervisorState::Stopped { exit_code },
        };
        self.state = next;
        match next {
            SupervisorState::Starting(step) => SupervisorAction::Start(step),
            SupervisorState::Running => SupervisorAction::AwaitShutdown,
            SupervisorState::ShuttingDown(step) => SupervisorAction::Shutdown(step),
            SupervisorState::Stopped { exit_code } => SupervisorAction::Exit { code: exit_code },
        }
    }
}

/// The lines that the periodic health check logs: a warning for each service
/// that is not healthy, and one line of good news where both are.
pub open spec fn health_lines(database: bool, kafka: bool) -> Seq<(LogLevel, Seq<char>)> {
    (if database {
        Seq::empty()
    } else {
        seq![(LogLevel::Warn, "⚠️ Base de datos no está saludable"@)]
    }) + (if kafka {
        Seq::empty()
    } else {
        seq![(LogLevel::Warn, "⚠️ Kafka no está saludable"@)]
    }) + (if database && kafka {
        seq![(LogLevel::Info, "💚 Todos los servicios están saludables"@)]
    } else {
        Seq::empty()
    })
}

/// Whether the lines are those of the list, level and words.
pub open spec fn lines_are(lines: Seq<LogLine>, wanted: Seq<(LogLevel, Seq<char>)>) -> bool {
    &&& lines.len() == wanted.len()
    &&& forall|i: int|
        0 <= i < lines.len() ==> (#[trigger] lines[i]).level == wanted[i].0 && lines[i].text@
            == wanted[i].1
}

impl Supervisor {
    /// Reports on the health of the two services. The report is for the log
    /// only: nothing in the pipeline depends on it.
    pub fn health_report(database: bool, kafka: bool) -> (lines: Vec<LogLine>)
        ensures
            lines_are(lines@, health_lines(database, kafka)),
    {
        let mut lines: Vec<LogLine> = Vec::new();
        if !database {
            lines.push(
                LogLine {
                    level: LogLevel::Warn,
                    text: String::from_str("⚠️ Base de datos no está saludable"),
                },
            );
        }
        if !kafka {
            lines.push(
                LogLine {
                    level: LogLevel::Warn,
                    text: String::from_str("⚠️ Kafka no está saludable"),
                },
            );
        }
        if database && kafka {
            lines.push(
                LogLine {
                    level: LogLevel::Info,
                    text: String::from_str("💚 Todos los servicios están saludables"),
                },
            );
        }
        lines
    }
}

} // verus!
