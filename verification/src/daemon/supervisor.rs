//! The life of one service: what to do when its process ends, and how to answer a command.
//!
//! A [`Supervisor`] is always waiting for the outcome of exactly one action. The caller carries
//! out [`Supervisor::pending`] and hands the outcome to [`Supervisor::step`].
use super::service_threads::{ServiceState, ServiceThreadCommand};
use super::RestartOption;
use crate::time::Timestamp;
use vstd::prelude::*;

verus! {

/// How long the supervisor waits after a process has ended before it may start it again, in
/// milliseconds. This keeps a process that ends at once from burning the processor.
pub const BACKOFF_MILLIS: u64 = 500;

/// How long a process has to end after it was asked to, in milliseconds.
pub const GRACE_MILLIS: u64 = 1000;

/// Why the supervisor looks at its process, or starts it.
#[derive(Debug, Clone, Copy, PartialEq, Eq, Structural)]
pub enum Purpose {
    /// The service is new: it has had no process yet.
    FirstStart,
    /// The process has ended: it may be due for a restart.
    Restart,
    /// A command is being carried out.
    Command(ServiceThreadCommand),
}

/// What the supervisor is waiting for.
#[derive(Debug, Clone, Copy, PartialEq, Eq, Structural)]
pub enum Phase {
    /// The end of the process, or a command.
    Watching,
    /// The end of the pause after the process has ended, or a command.
    BackingOff,
    /// A look at whether the process is still running.
    Polling(Purpose),
    /// The start of a new process.
    Spawning(Purpose),
    /// The request to end, sent to the process.
    Terminating(ServiceThreadCommand),
    /// The end of the process, after it was asked to end.
    Grace(ServiceThreadCommand),
    /// The forced end of the process.
    Killing(ServiceThreadCommand),
    /// The delivery of the answer to a command.
    Replying(ServiceThreadCommand),
    /// Nothing more: the service was removed.
    Removed,
    /// Nothing more: something went wrong that the supervisor cannot handle.
    Crashed,
}

/// What a look at the process showed.
#[derive(Debug, Clone, Copy, PartialEq, Eq, Structural)]
pub enum PollResult {
    Running,
    Exited { success: bool },
    Failed,
}

/// The outcome of an action, or a command.
#[derive(Debug, Clone, Copy, PartialEq, Eq, Structural)]
pub enum Event {
    /// The process has ended.
    Exited,
    BackoffElapsed,
    Command(ServiceThreadCommand),
    Polled(PollResult),
    /// The process was started. The clock was read just before, and of the first process just
    /// after.
    Spawned { at: Timestamp },
    SpawnFailed,
    Signalled,
    SignalFailed,
    GraceElapsed,
    Killed,
    KillFailed,
    Replied,
    ReplyFailed,
}

/// What the caller does next.
#[derive(Debug, Clone, Copy, PartialEq, Eq, Structural)]
pub enum Action {
    /// Wait for the end of the process or for a command, whichever comes first.
    Watch,
    /// Wait for this time or for a command, whichever comes first.
    Backoff { millis: u64 },
    /// Look at whether the process is still running, without waiting.
    Poll,
    /// Start a new process.
    Spawn,
    /// Ask the process to end.
    Terminate,
    /// Wait for the end of the process, but no longer than this.
    AwaitExit { millis: u64 },
    /// End the process by force, and wait until it is gone.
    Kill,
    /// Answer the command with this state.
    Reply(ServiceState),
    /// Take the service out of the pool: it is done.
    Leave,
    /// Give up. The service stays in the pool and answers no more.
    Crash,
}

/// The supervisor of one service.
#[derive(Debug, Clone, Copy, PartialEq, Eq, Structural)]
pub struct Supervisor {
    pub restart_option: RestartOption,
    pub state: ServiceState,
    pub phase: Phase,
}

/// Whether a process that has ended is started again. A service that was stopped by a command
/// stays down unless it is restarted always.
pub open spec fn restarts(option: RestartOption, success: bool, explicitly_stopped: bool) -> bool {
    match option {
        RestartOption::Always => true,
        RestartOption::UnlessStopped => !explicitly_stopped,
        RestartOption::OnCrash => !success && !explicitly_stopped,
        RestartOption::Never => false,
    }
}

/// Whether a process that has ended is started again.
pub fn should_restart(option: RestartOption, success: bool, explicitly_stopped: bool) -> (restart:
    bool)
    ensures
        restart == restarts(option, success, explicitly_stopped),
{
    let by_exit: bool = if success {
        match option {
            RestartOption::Always | RestartOption::UnlessStopped => true,
            RestartOption::OnCrash | RestartOption::Never => false,
        }
    } else {
        match option {
            RestartOption::Always | RestartOption::UnlessStopped | RestartOption::OnCrash => true,
            RestartOption::Never => false,
        }
    };
    if explicitly_stopped && option != RestartOption::Always {
        false
    } else {
        by_exit
    }
}

/// Whether a command leaves the service stopped.
pub open spec fn is_stopping(command: ServiceThreadCommand) -> bool {
    command is Stop || command is Remove || command is Kill
}

/// The events that can come while the supervisor is in a phase.
pub open spec fn accepts(phase: Phase, event: Event) -> bool {
    match phase {
        Phase::Watching => event is Exited || event is Command,
        Phase::BackingOff => event is BackoffElapsed || event is Command,
        Phase::Polling(_) => event is Polled,
        Phase::Spawning(_) => event is Spawned || event is SpawnFailed,
        Phase::Terminating(_) => event is Signalled || event is SignalFailed,
        Phase::Grace(_) => event is Exited || event is GraceElapsed,
        Phase::Killing(_) => event is Killed || event is KillFailed,
        Phase::Replying(_) => event is Replied || event is ReplyFailed,
        Phase::Removed | Phase::Crashed => false,
    }
}

/// The phase after a look at the process on behalf of a command.
pub open spec fn phase_after_poll(command: ServiceThreadCommand, result: PollResult) -> Phase {
    match result {
        PollResult::Failed => Phase::Crashed,
        PollResult::Running => match command {
            ServiceThreadCommand::Stop | ServiceThreadCommand::Remove => Phase::Terminating(
                command,
            ),
            ServiceThreadCommand::Kill => Phase::Killing(command),
            _ => Phase::Replying(command),
        },
        PollResult::Exited { .. } => if command is Start {
            Phase::Spawning(Purpose::Command(command))
        } else {
            Phase::Replying(command)
        },
    }
}

/// The phase that follows on an event.
pub open spec fn next_phase(
    option: RestartOption,
    explicitly_stopped: bool,
    phase: Phase,
    event: Event,
) -> Phase {
    match (phase, event) {
        (Phase::Watching, Event::Exited) => Phase::BackingOff,
        (Phase::BackingOff, Event::BackoffElapsed) => Phase::Polling(Purpose::Restart),
        (Phase::Watching | Phase::BackingOff, Event::Command(command)) => if command is Status {
            Phase::Replying(command)
        } else {
            Phase::Polling(Purpose::Command(command))
        },
        (Phase::Polling(Purpose::Restart), Event::Polled(PollResult::Exited { success })) => if restarts(
            option,
            success,
            explicitly_stopped,
        ) {
            Phase::Spawning(Purpose::Restart)
        } else {
            Phase::Watching
        },
        (Phase::Polling(Purpose::Restart), Event::Polled(_)) => Phase::Watching,
        (Phase::Polling(Purpose::Command(command)), Event::Polled(result)) => phase_after_poll(
            command,
            result,
        ),
        (
            Phase::Spawning(Purpose::FirstStart | Purpose::Restart),
            Event::Spawned { .. },
        ) => Phase::Watching,
        (Phase::Spawning(Purpose::Command(command)), Event::Spawned { .. }) => Phase::Replying(
            command,
        ),
        (Phase::Terminating(command), Event::Signalled) => Phase::Grace(command),
        (Phase::Grace(command), Event::Exited) => Phase::Replying(command),
        (Phase::Grace(command), Event::GraceElapsed) => Phase::Killing(command),
        (Phase::Killing(command), Event::Killed) => Phase::Replying(command),
        (Phase::Replying(command), Event::Replied) => if command is Remove {
            Phase::Removed
        } else {
            Phase::Watching
        },
        _ => Phase::Crashed,
    }
}

/// The state that follows on an event.
pub open spec fn next_state(state: ServiceState, phase: Phase, event: Event) -> ServiceState {
    match event {
        Event::Command(command) => ServiceState {
            explicitly_stopped: if command is Status {
                state.explicitly_stopped
            } else {
                is_stopping(command)
            },
            ..state
        },
        Event::Spawned { at } => ServiceState {
            alive_since: Some(at),
            starts: (state.starts + 1) as usize,
            explicitly_stopped: false,
        },
        Event::Exited | Event::Killed => ServiceState { alive_since: None, ..state },
        Event::Polled(PollResult::Exited { .. }) => match phase {
            Phase::Polling(Purpose::Command(command)) if is_stopping(command) => ServiceState {
                alive_since: None,
                ..state
            },
            _ => state,
        },
        _ => state,
    }
}

impl Supervisor {
    /// What holds at every moment of a supervisor's life.
    pub open spec fn wf(self) -> bool {
        &&& self.state.starts == 0 ==> self.phase == Phase::Spawning(Purpose::FirstStart)
            || self.phase is Crashed
        &&& match self.phase {
            Phase::Spawning(Purpose::FirstStart) => self == Supervisor::fresh(self.restart_option),
            Phase::Polling(Purpose::FirstStart) => false,
            Phase::Watching | Phase::Crashed => true,
            Phase::BackingOff | Phase::Polling(Purpose::Restart) => self.state.alive_since is None,
            Phase::Spawning(Purpose::Restart) => {
                &&& self.state.alive_since is None
                &&& self.state.explicitly_stopped ==> self.restart_option is Always
            },
            Phase::Polling(Purpose::Command(command)) => {
                &&& !(command is Status)
                &&& self.state.explicitly_stopped == is_stopping(command)
            },
            Phase::Spawning(Purpose::Command(command)) => {
                &&& command is Start
                &&& !self.state.explicitly_stopped
            },
            Phase::Terminating(command) | Phase::Grace(command) => {
                &&& command is Stop || command is Remove
                &&& self.state.explicitly_stopped
            },
            Phase::Killing(command) => is_stopping(command) && self.state.explicitly_stopped,
            Phase::Replying(command) => {
                &&& command is Start ==> !self.state.explicitly_stopped
                &&& is_stopping(command) ==> self.state.explicitly_stopped
                    && self.state.alive_since is None
            },
            Phase::Removed => self.state.explicitly_stopped && self.state.alive_since is None,
        }
    }

    /// The supervisor of a service that has had no process yet. It begins by starting one.
    pub open spec fn fresh(restart_option: RestartOption) -> Supervisor {
        Supervisor {
            restart_option,
            state: ServiceState { alive_since: None, starts: 0, explicitly_stopped: false },
            phase: Phase::Spawning(Purpose::FirstStart),
        }
    }

    /// The supervisor after an event.
    pub open spec fn next(self, event: Event) -> Supervisor {
        Supervisor {
            restart_option: self.restart_option,
            state: next_state(self.state, self.phase, event),
            phase: next_phase(
                self.restart_option,
                self.state.explicitly_stopped,
                self.phase,
                event,
            ),
        }
    }

    /// The action whose outcome the supervisor is waiting for.
    pub open spec fn pending_action(self) -> Action {
        match self.phase {
            Phase::Watching => Action::Watch,
            Phase::BackingOff => Action::Backoff { millis: BACKOFF_MILLIS },
            Phase::Polling(_) => Action::Poll,
            Phase::Spawning(_) => Action::Spawn,
            Phase::Terminating(_) => Action::Terminate,
            Phase::Grace(_) => Action::AwaitExit { millis: GRACE_MILLIS },
            Phase::Killing(_) => Action::Kill,
            Phase::Replying(_) => Action::Reply(self.state),
            Phase::Removed => Action::Leave,
            Phase::Crashed => Action::Crash,
        }
    }

    /// The supervisor of a service that has had no process yet. It begins by starting one.
    pub fn new(restart_option: RestartOption) -> (supervisor: Supervisor)
        ensures
            supervisor.wf(),
            supervisor == Supervisor::fresh(restart_option),
            supervisor.restart_option == restart_option,
    {
        Supervisor {
            restart_option,
            state: ServiceState { alive_since: None, starts: 0, explicitly_stopped: false },
            phase: Phase::Spawning(Purpose::FirstStart),
        }
    }

    /// The action that the caller carries out now.
    pub fn pending(&self) -> (action: Action)
        ensures
            action == self.pending_action(),
    {
        match self.phase {
            Phase::Watching => Action::Watch,
            Phase::BackingOff => Action::Backoff { millis: BACKOFF_MILLIS },
            Phase::Polling(_) => Action::Poll,
            Phase::Spawning(_) => Action::Spawn,
            Phase::Terminating(_) => Action::Terminate,
            Phase::Grace(_) => Action::AwaitExit { millis: GRACE_MILLIS },
            Phase::Killing(_) => Action::Kill,
            Phase::Replying(_) => Action::Reply(self.state),
            Phase::Removed => Action::Leave,
            Phase::Crashed => Action::Crash,
        }
    }

    /// Takes the outcome of the pending action, or a command while one can come.
    pub fn step(&mut self, event: Event)
        requires
            old(self).wf(),
            accepts(old(self).phase, event),
            event is Spawned ==> old(self).state.starts < usize::MAX,
        ensures
            final(self).wf(),
            *final(self) == old(self).next(event),
    {
        match event {
            Event::Command(command) => self.begin(command),
            Event::BackoffElapsed => {
                self.phase = Phase::Polling(Purpose::Restart);
            },
            Event::Polled(result) => self.polled(result),
            Event::Spawned { at } => self.spawned(at),
            Event::Exited | Event::Killed => {
                self.state.alive_since = None;
                self.phase = match self.phase {
                    Phase::Grace(command) | Phase::Killing(command) => Phase::Replying(command),
                    _ => Phase::BackingOff,
                };
            },
            Event::Signalled => {
                if let Phase::Terminating(command) = self.phase {
                    self.phase = Phase::Grace(command);
                }
            },
            Event::GraceElapsed => {
                if let Phase::Grace(command) = self.phase {
                    self.phase = Phase::Killing(command);
                }
            },
            Event::Replied => {
                self.phase = match self.phase {
                    Phase::Replying(ServiceThreadCommand::Remove) => Phase::Removed,
                    _ => Phase::Watching,
                };
            },
            Event::SpawnFailed | Event::SignalFailed | Event::KillFailed | Event::ReplyFailed => {
                self.phase = Phase::Crashed;
            },
        }
    }

    /// Takes up a command.
    fn begin(&mut self, command: ServiceThreadCommand)
        requires
            old(self).wf(),
            accepts(old(self).phase, Event::Command(command)),
        ensures
            final(self).wf(),
            *final(self) == old(self).next(Event::Command(command)),
    {
        match command {
            ServiceThreadCommand::Status => {
                self.phase = Phase::Replying(command);
            },
            ServiceThreadCommand::Start => {
                self.state.explicitly_stopped = false;
                self.phase = Phase::Polling(Purpose::Command(command));
            },
            _ => {
                self.state.explicitly_stopped = true;
                self.phase = Phase::Polling(Purpose::Command(command));
            },
        }
    }

    /// Goes on after a look at the process.
    fn polled(&mut self, result: PollResult)
        requires
            old(self).wf(),
            accepts(old(self).phase, Event::Polled(result)),
        ensures
            final(self).wf(),
            *final(self) == old(self).next(Event::Polled(result)),
    {
        match self.phase {
            Phase::Polling(Purpose::Command(command)) => match result {
                PollResult::Failed => {
                    self.phase = Phase::Crashed;
                },
                PollResult::Running => {
                    self.phase = match command {
                        ServiceThreadCommand::Stop | ServiceThreadCommand::Remove => {
                            Phase::Terminating(command)
                        },
                        ServiceThreadCommand::Kill => Phase::Killing(command),
                        _ => Phase::Replying(command),
                    };
                },
                PollResult::Exited { .. } => {
                    if command == ServiceThreadCommand::Start {
                        self.phase = Phase::Spawning(Purpose::Command(command));
                    } else {
                        self.state.alive_since = None;
                        self.phase = Phase::Replying(command);
                    }
                },
            },
            _ => {
                let restart: bool = match result {
                    PollResult::Exited { success } => should_restart(
                        self.restart_option,
                        success,
                        self.state.explicitly_stopped,
                    ),
                    _ => false,
                };
                self.phase = if restart {
                    Phase::Spawning(Purpose::Restart)
                } else {
                    Phase::Watching
                };
            },
        }
    }

    /// Goes on with a new process.
    fn spawned(&mut self, at: Timestamp)
        requires
            old(self).wf(),
            accepts(old(self).phase, Event::Spawned { at }),
            old(self).state.starts < usize::MAX,
        ensures
            final(self).wf(),
            *final(self) == old(self).next(Event::Spawned { at }),
    {
        self.state = ServiceState {
            alive_since: Some(at),
            starts: self.state.starts + 1,
            explicitly_stopped: false,
        };
        self.phase = match self.phase {
            Phase::Spawning(Purpose::Command(command)) => Phase::Replying(command),
            _ => Phase::Watching,
        };
    }
}

} // verus!
