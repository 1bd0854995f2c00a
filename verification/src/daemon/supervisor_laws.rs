//! What holds of a supervisor over its whole life, whatever its process and its clients do.
use super::service_threads::{ServiceState, ServiceThreadCommand};
use super::supervisor::{
    accepts, is_stopping, restarts, Action, Event, Phase, PollResult, Purpose, Supervisor,
    BACKOFF_MILLIS,
};
use super::RestartOption;
use crate::time::Timestamp;
use vstd::prelude::*;

verus! {

/// The supervisor after a series of events.
pub open spec fn run(start: Supervisor, events: Seq<Event>) -> Supervisor
    decreases events.len(),
{
    if events.len() == 0 {
        start
    } else {
        run(start, events.drop_last()).next(events.last())
    }
}

/// Whether each event of a series can come when its turn is there, and the number of starts
/// stays countable.
pub open spec fn admissible(start: Supervisor, events: Seq<Event>) -> bool
    decreases events.len(),
{
    events.len() == 0 || {
        let before = run(start, events.drop_last());
        &&& admissible(start, events.drop_last())
        &&& accepts(before.phase, events.last())
        &&& events.last() is Spawned ==> before.state.starts < usize::MAX
    }
}

/// How often a process was started in a series of events.
pub open spec fn spawn_count(events: Seq<Event>) -> nat
    decreases events.len(),
{
    if events.len() == 0 {
        0
    } else {
        spawn_count(events.drop_last()) + if events.last() is Spawned {
            1nat
        } else {
            0nat
        }
    }
}

/// Whether an event says that an action did not work out.
pub open spec fn is_failure(event: Event) -> bool {
    match event {
        Event::SpawnFailed | Event::SignalFailed | Event::KillFailed | Event::ReplyFailed => true,
        Event::Polled(result) => result is Failed,
        _ => false,
    }
}

/// Whether no event of a series is the command to start.
pub open spec fn without_start(events: Seq<Event>) -> bool {
    forall|i: int|
        0 <= i < events.len() ==> #[trigger] events[i] != Event::Command(
            ServiceThreadCommand::Start,
        )
}

/// Whether there is a live process after a series of events, as far as the events tell.
pub open spec fn process_up(up: bool, events: Seq<Event>) -> bool
    decreases events.len(),
{
    if events.len() == 0 {
        up
    } else {
        match events.last() {
            Event::Spawned { .. } => true,
            Event::Exited | Event::Killed | Event::Polled(PollResult::Exited { .. }) => false,
            _ => process_up(up, events.drop_last()),
        }
    }
}

/// Whether a process is seen running in a series of events only while there is one.
pub open spec fn truthful(up: bool, events: Seq<Event>) -> bool
    decreases events.len(),
{
    events.len() == 0 || {
        &&& truthful(up, events.drop_last())
        &&& events.last() == Event::Polled(PollResult::Running) ==> process_up(
            up,
            events.drop_last(),
        )
    }
}

/// The command that a phase belongs to.
pub open spec fn serving(phase: Phase) -> Option<ServiceThreadCommand> {
    match phase {
        Phase::Polling(Purpose::Command(command)) => Some(command),
        Phase::Spawning(Purpose::Command(command)) => Some(command),
        Phase::Terminating(command) => Some(command),
        Phase::Grace(command) => Some(command),
        Phase::Killing(command) => Some(command),
        Phase::Replying(command) => Some(command),
        _ => None,
    }
}

/// The most events that can still come before a command is answered.
pub open spec fn events_to_answer(phase: Phase) -> nat {
    match phase {
        Phase::Polling(_) => 4,
        Phase::Terminating(_) => 3,
        Phase::Grace(_) => 2,
        Phase::Killing(_) | Phase::Spawning(_) => 1,
        _ => 0,
    }
}

/// The command that a phase belongs to, as a series of one command or none.
pub open spec fn in_work(phase: Phase) -> Seq<ServiceThreadCommand> {
    match serving(phase) {
        Some(command) => seq![command],
        None => Seq::empty(),
    }
}

/// The commands in a series of events, in their order.
pub open spec fn taken_up(events: Seq<Event>) -> Seq<ServiceThreadCommand>
    decreases events.len(),
{
    if events.len() == 0 {
        Seq::empty()
    } else {
        match events.last() {
            Event::Command(command) => taken_up(events.drop_last()).push(command),
            _ => taken_up(events.drop_last()),
        }
    }
}

/// The commands whose answers were delivered in a series of events, in their order.
pub open spec fn answered(start: Supervisor, events: Seq<Event>) -> Seq<ServiceThreadCommand>
    decreases events.len(),
{
    if events.len() == 0 {
        Seq::empty()
    } else {
        let before = answered(start, events.drop_last());
        match (run(start, events.drop_last()).phase, events.last()) {
            (Phase::Replying(command), Event::Replied) => before.push(command),
            _ => before,
        }
    }
}

/// The invariant of the supervisor holds after every series of events.
pub proof fn invariant_holds_throughout(start: Supervisor, events: Seq<Event>)
    requires
        start.wf(),
        admissible(start, events),
    ensures
        run(start, events).wf(),
        run(start, events).restart_option == start.restart_option,
    decreases events.len(),
{
    if events.len() > 0 {
        invariant_holds_throughout(start, events.drop_last());
    }
}

/// The life of a service begins with the start of its first process: no command is taken up
/// before. Where that start fails the supervisor gives up, with no start counted and no command
/// ever answered.
pub proof fn life_begins_with_a_start(option: RestartOption, events: Seq<Event>)
    requires
        admissible(Supervisor::fresh(option), events),
        events.len() > 0,
    ensures
        Supervisor::fresh(option).pending_action() == Action::Spawn,
        events[0] is Spawned || events[0] is SpawnFailed,
        events[0] is SpawnFailed ==> {
            let after = run(Supervisor::fresh(option), events);
            &&& events.len() == 1
            &&& after.pending_action() == Action::Crash
            &&& after.state.starts == 0
        },
    decreases events.len(),
{
    let before = events.drop_last();
    if before.len() == 0 {
        reveal_with_fuel(run, 2);
    } else {
        life_begins_with_a_start(option, before);
        assert(before[0] == events[0]);
    }
}

/// A service whose first process was started is watched. It counts one start, and it is alive
/// since that moment.
pub proof fn first_process_is_watched(option: RestartOption, at: Timestamp)
    ensures
        ({
            let started = Supervisor::fresh(option).next(Event::Spawned { at });
            &&& started.wf()
            &&& started.pending_action() == Action::Watch
            &&& started.state == (ServiceState {
                alive_since: Some(at),
                starts: 1,
                explicitly_stopped: false,
            })
        }),
{
}

/// The number of starts grows by one with each process that is started, and in no other way.
pub proof fn starts_counts_the_processes(start: Supervisor, events: Seq<Event>)
    requires
        start.wf(),
        admissible(start, events),
    ensures
        run(start, events).state.starts == start.state.starts + spawn_count(events),
    decreases events.len(),
{
    if events.len() > 0 {
        starts_counts_the_processes(start, events.drop_last());
    }
}

/// A service that was explicitly stopped, and is not restarted always, stays stopped and gets no
/// new process until it is told to start. Where it had no live process it has none all that time.
pub proof fn stopped_service_stays_down(start: Supervisor, events: Seq<Event>)
    requires
        start.wf(),
        start.state.explicitly_stopped,
        start.restart_option != RestartOption::Always,
        admissible(start, events),
        without_start(events),
    ensures
        run(start, events).state.explicitly_stopped,
        start.state.alive_since is None ==> run(start, events).state.alive_since is None,
        run(start, events).pending_action() != Action::Spawn,
        run(start, events).state.starts == start.state.starts,
    decreases events.len(),
{
    if events.len() > 0 {
        let before = events.drop_last();
        assert(without_start(before));
        stopped_service_stays_down(start, before);
        invariant_holds_throughout(start, before);
        invariant_holds_throughout(start, events);
        assert(events[events.len() - 1] == events.last());
    }
}

/// A service that is never restarted gets no new process until it is told to start.
pub proof fn never_means_never(start: Supervisor, events: Seq<Event>)
    requires
        start.wf(),
        start.restart_option == RestartOption::Never,
        start.pending_action() != Action::Spawn,
        serving(start.phase) != Some(ServiceThreadCommand::Start),
        admissible(start, events),
        without_start(events),
    ensures
        run(start, events).pending_action() != Action::Spawn,
        run(start, events).state.starts == start.state.starts,
        serving(run(start, events).phase) != Some(ServiceThreadCommand::Start),
    decreases events.len(),
{
    if events.len() > 0 {
        let before = events.drop_last();
        assert(without_start(before));
        never_means_never(start, before);
        invariant_holds_throughout(start, before);
        assert(events[events.len() - 1] == events.last());
    }
}

/// A service that is restarted always gets a new process each time that its process has ended,
/// stopped or not; any other service gets one exactly as its restart option says.
pub proof fn ended_process_is_replaced_as_the_option_says(start: Supervisor, success: bool)
    requires
        start.wf(),
        start.phase is Watching,
    ensures
        ({
            let ended = seq![
                Event::Exited,
                Event::BackoffElapsed,
                Event::Polled(PollResult::Exited { success }),
            ];
            let after = run(start, ended);
            &&& admissible(start, ended)
            &&& after.state == (ServiceState { alive_since: None, ..start.state })
            &&& after.pending_action() == if restarts(
                start.restart_option,
                success,
                start.state.explicitly_stopped,
            ) {
                Action::Spawn
            } else {
                Action::Watch
            }
        }),
{
    let first = seq![Event::Exited];
    let second = first.push(Event::BackoffElapsed);
    let third = second.push(Event::Polled(PollResult::Exited { success }));
    assert(first.drop_last() =~= Seq::<Event>::empty());
    assert(second.drop_last() =~= first);
    assert(third.drop_last() =~= second);
    assert(third =~= seq![
        Event::Exited,
        Event::BackoffElapsed,
        Event::Polled(PollResult::Exited { success }),
    ]);
    reveal_with_fuel(run, 4);
    reveal_with_fuel(admissible, 4);
}

/// A process that has ended is replaced of itself only after a pause: the supervisor comes to
/// starting it only from a look at it, and to that look only from the end of the pause.
pub proof fn restart_comes_after_a_pause(supervisor: Supervisor, event: Event)
    requires
        supervisor.wf(),
        accepts(supervisor.phase, event),
    ensures
        supervisor.next(event).phase == Phase::Spawning(Purpose::Restart) ==> supervisor.phase
            == Phase::Polling(Purpose::Restart),
        supervisor.next(event).phase == Phase::Polling(Purpose::Restart) ==> {
            &&& supervisor.pending_action() == Action::Backoff { millis: BACKOFF_MILLIS }
            &&& event == Event::BackoffElapsed
        },
{
}

/// `alive_since` tells whether the process is alive. After every series of events it is there
/// exactly when there is a live process; the moment between the discovery that the process has
/// ended and its replacement on a command to start is left out, and so is a supervisor that has
/// given up.
pub proof fn alive_since_means_alive(start: Supervisor, up: bool, events: Seq<Event>)
    requires
        start.wf(),
        start.phase is Watching || start.phase == Phase::Spawning(Purpose::FirstStart),
        start.state.alive_since is Some <==> up,
        admissible(start, events),
        truthful(up, events),
    ensures
        ({
            let after = run(start, events);
            !(after.phase is Crashed) && after.phase != Phase::Spawning(
                Purpose::Command(ServiceThreadCommand::Start),
            ) ==> (after.state.alive_since is Some <==> process_up(up, events))
        }),
    decreases events.len(),
{
    if events.len() > 0 {
        alive_since_means_alive(start, up, events.drop_last());
        invariant_holds_throughout(start, events.drop_last());
    }
}

/// A service that was told to stop, to be removed or to be killed answers that it is stopped and
/// has no live process. One that was told to start answers that it is not stopped.
pub proof fn answer_tells_the_outcome(supervisor: Supervisor, command: ServiceThreadCommand)
    requires
        supervisor.wf(),
        supervisor.phase == Phase::Replying(command),
    ensures
        supervisor.pending_action() == Action::Reply(supervisor.state),
        is_stopping(command) ==> supervisor.state.explicitly_stopped
            && supervisor.state.alive_since is None,
        command is Start ==> !supervisor.state.explicitly_stopped,
{
}

/// While a command is carried out no other command is taken up, and every event either brings
/// its answer nearer or makes the supervisor give up.
pub proof fn command_comes_to_its_answer(
    supervisor: Supervisor,
    command: ServiceThreadCommand,
    event: Event,
)
    requires
        supervisor.wf(),
        serving(supervisor.phase) == Some(command),
        accepts(supervisor.phase, event),
        !(supervisor.phase is Replying),
    ensures
        !(event is Command),
        supervisor.next(event).phase is Crashed <==> is_failure(event),
        !is_failure(event) ==> {
            &&& serving(supervisor.next(event).phase) == Some(command)
            &&& events_to_answer(supervisor.next(event).phase) < events_to_answer(supervisor.phase)
        },
        events_to_answer(supervisor.next(event).phase) == 0 ==> supervisor.next(event).phase
            is Crashed || supervisor.next(event).phase == Phase::Replying(command),
{
}

/// A command is answered within four events, unless the supervisor gives up, and it is that
/// command that is answered.
pub proof fn command_is_answered_within_four_events(
    start: Supervisor,
    command: ServiceThreadCommand,
    events: Seq<Event>,
)
    requires
        start.wf(),
        accepts(start.phase, Event::Command(command)),
        admissible(start.next(Event::Command(command)), events),
        forall|i: int| 0 <= i < events.len() ==> !is_failure(#[trigger] events[i]),
        forall|i: int|
            0 <= i < events.len() ==> !(run(
                start.next(Event::Command(command)),
                #[trigger] events.take(i),
            ).phase is Replying),
    ensures
        ({
            let phase = run(start.next(Event::Command(command)), events).phase;
            &&& events.len() + events_to_answer(phase) <= 4
            &&& serving(phase) == Some(command)
            &&& events.len() == 4 ==> phase == Phase::Replying(command)
        }),
    decreases events.len(),
{
    let begun = start.next(Event::Command(command));
    if events.len() > 0 {
        let before = events.drop_last();
        assert(before =~= events.take(events.len() - 1));
        assert forall|i: int| 0 <= i < before.len() implies !is_failure(#[trigger] before[i]) by {
            assert(before[i] == events[i]);
        }
        assert forall|i: int| 0 <= i < before.len() implies !(run(
            begun,
            #[trigger] before.take(i),
        ).phase is Replying) by {
            assert(before.take(i) =~= events.take(i));
        }
        command_is_answered_within_four_events(start, command, before);
        invariant_holds_throughout(begun, before);
        assert(!is_failure(events[events.len() - 1]));
        command_comes_to_its_answer(run(begun, before), command, events.last());
    }
}

/// The commands that are answered are those that were taken up, one for one and in their order.
/// What is taken up and not answered is the one command in work, and with a supervisor that has
/// given up no more than one command.
pub proof fn commands_are_answered_in_order(start: Supervisor, events: Seq<Event>)
    requires
        start.wf(),
        admissible(start, events),
    ensures
        ({
            let all = in_work(start.phase) + taken_up(events);
            let done = answered(start, events);
            let after = run(start, events);
            &&& !(after.phase is Crashed) ==> all == done + in_work(after.phase)
            &&& done.is_prefix_of(all)
            &&& all.len() <= done.len() + 1
        }),
    decreases events.len(),
{
    let all = in_work(start.phase) + taken_up(events);
    let done = answered(start, events);
    if events.len() == 0 {
        assert(all =~= done + in_work(start.phase));
    } else {
        let before = events.drop_last();
        let earlier = in_work(start.phase) + taken_up(before);
        let phase = run(start, before).phase;
        commands_are_answered_in_order(start, before);
        invariant_holds_throughout(start, before);
        assert(earlier == answered(start, before) + in_work(phase));
        if let Event::Command(command) = events.last() {
            assert(all =~= earlier.push(command));
        }
        if !(run(start, events).phase is Crashed) {
            assert(all =~= done + in_work(run(start, events).phase));
        }
        assert(done =~= all.take(done.len() as int));
    }
}

/// The delivery of the answer ends the work on a command and leaves the state as it was told.
/// The supervisor goes back to watching; after the command to remove it is done.
pub proof fn answer_ends_the_command(supervisor: Supervisor, command: ServiceThreadCommand)
    requires
        supervisor.wf(),
        supervisor.phase == Phase::Replying(command),
    ensures
        supervisor.next(Event::Replied).state == supervisor.state,
        supervisor.next(Event::Replied).pending_action() == if command is Remove {
            Action::Leave
        } else {
            Action::Watch
        },
{
}

/// Asking for the status changes nothing and is answered with the state as it is.
pub proof fn status_changes_nothing(supervisor: Supervisor)
    requires
        supervisor.wf(),
        supervisor.phase is Watching || supervisor.phase is BackingOff,
    ensures
        ({
            let asked = supervisor.next(Event::Command(ServiceThreadCommand::Status));
            &&& asked.pending_action() == Action::Reply(supervisor.state)
            &&& asked.next(Event::Replied).state == supervisor.state
        }),
{
}

/// A process that is stopped or removed is ended by force only when its time to end by itself
/// has run out.
pub proof fn force_only_after_grace(
    supervisor: Supervisor,
    command: ServiceThreadCommand,
    event: Event,
)
    requires
        supervisor.wf(),
        accepts(supervisor.phase, event),
        command is Stop || command is Remove,
        supervisor.next(event).phase == Phase::Killing(command),
    ensures
        supervisor.phase == Phase::Grace(command),
        event == Event::GraceElapsed,
{
}

/// The supervisor gives up only when an action failed.
pub proof fn gives_up_only_on_failure(start: Supervisor, events: Seq<Event>)
    requires
        start.wf(),
        !(start.phase is Crashed),
        admissible(start, events),
        forall|i: int| 0 <= i < events.len() ==> !is_failure(#[trigger] events[i]),
    ensures
        !(run(start, events).phase is Crashed),
    decreases events.len(),
{
    if events.len() > 0 {
        let before = events.drop_last();
        assert forall|i: int| 0 <= i < before.len() implies !is_failure(#[trigger] before[i]) by {
            assert(before[i] == events[i]);
        }
        gives_up_only_on_failure(start, before);
        assert(!is_failure(events[events.len() - 1]));
    }
}

/// The moment of the last start in a series of events.
pub open spec fn last_start(events: Seq<Event>) -> Option<Timestamp>
    decreases events.len(),
{
    if events.len() == 0 {
        None
    } else {
        match events.last() {
            Event::Spawned { at } => Some(at),
            _ => last_start(events.drop_last()),
        }
    }
}

/// A supervisor waits for the outcome of the action that it has asked for, and for nothing else;
/// a command comes in between only while it watches its process or pauses. When it is done or
/// has given up nothing more comes.
pub proof fn only_the_outcome_of_the_action_comes(supervisor: Supervisor, event: Event)
    ensures
        accepts(supervisor.phase, event) <==> match supervisor.pending_action() {
            Action::Watch => event is Exited || event is Command,
            Action::Backoff { .. } => event is BackoffElapsed || event is Command,
            Action::Poll => event is Polled,
            Action::Spawn => event is Spawned || event is SpawnFailed,
            Action::Terminate => event is Signalled || event is SignalFailed,
            Action::AwaitExit { .. } => event is Exited || event is GraceElapsed,
            Action::Kill => event is Killed || event is KillFailed,
            Action::Reply(_) => event is Replied || event is ReplyFailed,
            Action::Leave | Action::Crash => false,
        },
{
}

/// Each phase asks for one action. The pause after the end of a process takes half a second, and
/// a process that was asked to end has one second for it. An answer tells the state as it is.
pub proof fn each_phase_asks_for_its_action(
    supervisor: Supervisor,
    purpose: Purpose,
    command: ServiceThreadCommand,
)
    ensures
        supervisor.phase is Watching <==> supervisor.pending_action() == Action::Watch,
        supervisor.phase is BackingOff ==> supervisor.pending_action() == (Action::Backoff {
            millis: 500,
        }),
        supervisor.phase == Phase::Polling(purpose) ==> supervisor.pending_action()
            == Action::Poll,
        supervisor.phase == Phase::Spawning(purpose) ==> supervisor.pending_action()
            == Action::Spawn,
        supervisor.phase == Phase::Terminating(command) ==> supervisor.pending_action()
            == Action::Terminate,
        supervisor.phase == Phase::Grace(command) ==> supervisor.pending_action() == (
        Action::AwaitExit { millis: 1000 }),
        supervisor.phase == Phase::Killing(command) ==> supervisor.pending_action()
            == Action::Kill,
        supervisor.phase == Phase::Replying(command) ==> supervisor.pending_action()
            == Action::Reply(supervisor.state),
        supervisor.phase is Removed <==> supervisor.pending_action() == Action::Leave,
        supervisor.phase is Crashed <==> supervisor.pending_action() == Action::Crash,
{
}

/// A new supervisor has the restart option that it was made with, and no event changes it. Its
/// service has had no start, is not alive and is not stopped.
pub proof fn restart_option_is_kept(option: RestartOption, supervisor: Supervisor, event: Event)
    ensures
        Supervisor::fresh(option).restart_option == option,
        Supervisor::fresh(option).state.starts == 0,
        Supervisor::fresh(option).state.alive_since is None,
        !Supervisor::fresh(option).state.explicitly_stopped,
        Supervisor::fresh(option).wf(),
        supervisor.next(event).restart_option == supervisor.restart_option,
{
}

/// The command to start gives a service that has no process a new one, whatever its restart
/// option is and however its last process ended. The service is then alive since that start and
/// not stopped, has one start more, and answers so.
pub proof fn start_brings_a_service_up(supervisor: Supervisor, success: bool, at: Timestamp)
    requires
        supervisor.phase is Watching || supervisor.phase is BackingOff,
        supervisor.state.starts < usize::MAX,
    ensures
        ({
            let begun = supervisor.next(Event::Command(ServiceThreadCommand::Start));
            let found = begun.next(Event::Polled(PollResult::Exited { success }));
            let up = found.next(Event::Spawned { at });
            &&& begun.pending_action() == Action::Poll
            &&& found.pending_action() == Action::Spawn
            &&& up.pending_action() == Action::Reply(up.state)
            &&& up.state.alive_since == Some(at)
            &&& up.state.starts == supervisor.state.starts + 1
            &&& !up.state.explicitly_stopped
            &&& up.next(Event::Replied).phase is Watching
            &&& up.next(Event::Replied).state == up.state
            &&& found.next(Event::SpawnFailed).pending_action() == Action::Crash
        }),
{
}

/// The command to start leaves a live process as it is: nothing changes but that the service is no
/// longer stopped, and it answers so.
pub proof fn start_leaves_a_live_process(supervisor: Supervisor)
    requires
        supervisor.phase is Watching || supervisor.phase is BackingOff,
    ensures
        ({
            let begun = supervisor.next(Event::Command(ServiceThreadCommand::Start));
            let done = begun.next(Event::Polled(PollResult::Running));
            &&& begun.pending_action() == Action::Poll
            &&& done.pending_action() == Action::Reply(done.state)
            &&& done.state.alive_since == supervisor.state.alive_since
            &&& done.state.starts == supervisor.state.starts
            &&& !done.state.explicitly_stopped
            &&& done.next(Event::Replied).phase is Watching
            &&& done.next(Event::Replied).state == done.state
        }),
{
}

/// A process that is stopped or removed is first asked to end. It has a second for it; when that
/// is over, and not before, it is ended by force. Either way the service answers that it is
/// stopped and has no process, with as many starts as before. After the command to remove the
/// service leaves, after the command to stop it is watched.
pub proof fn stop_asks_before_it_forces(supervisor: Supervisor, command: ServiceThreadCommand)
    requires
        supervisor.phase is Watching || supervisor.phase is BackingOff,
        command == ServiceThreadCommand::Stop || command == ServiceThreadCommand::Remove,
    ensures
        ({
            let begun = supervisor.next(Event::Command(command));
            let found = begun.next(Event::Polled(PollResult::Running));
            let asked = found.next(Event::Signalled);
            let ended = asked.next(Event::Exited);
            let late = asked.next(Event::GraceElapsed);
            let killed = late.next(Event::Killed);
            &&& begun.pending_action() == Action::Poll
            &&& found.pending_action() == Action::Terminate
            &&& asked.pending_action() == Action::AwaitExit { millis: 1000 }
            &&& late.pending_action() == Action::Kill
            &&& ended == killed
            &&& ended.pending_action() == Action::Reply(ended.state)
            &&& ended.state.alive_since is None
            &&& ended.state.starts == supervisor.state.starts
            &&& ended.state.explicitly_stopped
            &&& ended.next(Event::Replied).state == ended.state
            &&& ended.next(Event::Replied).pending_action() == if command
                == ServiceThreadCommand::Remove {
                Action::Leave
            } else {
                Action::Watch
            }
            &&& found.next(Event::SignalFailed).pending_action() == Action::Crash
            &&& late.next(Event::KillFailed).pending_action() == Action::Crash
        }),
{
}

/// A process that is killed is ended by force at once. The service answers that it is stopped and
/// has no process, with as many starts as before, and is watched.
pub proof fn kill_forces_at_once(supervisor: Supervisor)
    requires
        supervisor.phase is Watching || supervisor.phase is BackingOff,
    ensures
        ({
            let begun = supervisor.next(Event::Command(ServiceThreadCommand::Kill));
            let found = begun.next(Event::Polled(PollResult::Running));
            let killed = found.next(Event::Killed);
            &&& begun.pending_action() == Action::Poll
            &&& found.pending_action() == Action::Kill
            &&& killed.pending_action() == Action::Reply(killed.state)
            &&& killed.state.alive_since is None
            &&& killed.state.starts == supervisor.state.starts
            &&& killed.state.explicitly_stopped
            &&& killed.next(Event::Replied).phase is Watching
            &&& killed.next(Event::Replied).state == killed.state
            &&& found.next(Event::KillFailed).pending_action() == Action::Crash
        }),
{
}

/// A process that has ended already needs neither a signal nor force to be stopped, removed or
/// killed: the service answers at once that it is stopped and has no process.
pub proof fn ended_process_is_left_alone(
    supervisor: Supervisor,
    command: ServiceThreadCommand,
    success: bool,
)
    requires
        supervisor.phase is Watching || supervisor.phase is BackingOff,
        command == ServiceThreadCommand::Stop || command == ServiceThreadCommand::Remove || command
            == ServiceThreadCommand::Kill,
    ensures
        ({
            let begun = supervisor.next(Event::Command(command));
            let done = begun.next(Event::Polled(PollResult::Exited { success }));
            &&& begun.pending_action() == Action::Poll
            &&& done.pending_action() == Action::Reply(done.state)
            &&& done.state.alive_since is None
            &&& done.state.starts == supervisor.state.starts
            &&& done.state.explicitly_stopped
            &&& done.next(Event::Replied).state == done.state
            &&& done.next(Event::Replied).pending_action() == if command
                == ServiceThreadCommand::Remove {
                Action::Leave
            } else {
                Action::Watch
            }
        }),
{
}

/// The question for the status is answered at once, with the state as it is. It changes nothing,
/// and the service is watched again.
pub proof fn status_is_answered_at_once(supervisor: Supervisor)
    requires
        supervisor.phase is Watching || supervisor.phase is BackingOff,
    ensures
        ({
            let begun = supervisor.next(Event::Command(ServiceThreadCommand::Status));
            &&& begun.state == supervisor.state
            &&& begun.pending_action() == Action::Reply(supervisor.state)
            &&& begun.next(Event::Replied).state == supervisor.state
            &&& begun.next(Event::Replied).pending_action() == Action::Watch
        }),
{
}

/// A command other than that for the status is given up where the process cannot be looked at, and
/// any command where its answer cannot be delivered.
pub proof fn failed_command_is_given_up(supervisor: Supervisor, command: ServiceThreadCommand)
    ensures
        supervisor.phase is Watching && command != ServiceThreadCommand::Status
            ==> supervisor.next(Event::Command(command)).next(
            Event::Polled(PollResult::Failed),
        ).pending_action() == Action::Crash,
        supervisor.phase is BackingOff && command != ServiceThreadCommand::Status
            ==> supervisor.next(Event::Command(command)).next(
            Event::Polled(PollResult::Failed),
        ).pending_action() == Action::Crash,
        supervisor.phase == Phase::Replying(command) ==> supervisor.next(
            Event::ReplyFailed,
        ).pending_action() == Action::Crash,
{
}

/// When its process ends a service is not alive. After half a second the supervisor looks at the
/// process and starts a new one in these cases: always, if the service is restarted always; if it
/// is not stopped, also one that is restarted unless stopped, and one that is restarted on a crash
/// where the process failed. The new process counts as one more start, and the service is alive
/// since then and not stopped. In all other cases nothing changes and the service is watched.
pub proof fn ended_process_is_followed_by_a_restart(
    supervisor: Supervisor,
    success: bool,
    at: Timestamp,
)
    requires
        supervisor.phase is Watching,
        supervisor.state.starts < usize::MAX,
    ensures
        ({
            let option = supervisor.restart_option;
            let stopped = supervisor.state.explicitly_stopped;
            let ended = supervisor.next(Event::Exited);
            let paused = ended.next(Event::BackoffElapsed);
            let found = paused.next(Event::Polled(PollResult::Exited { success }));
            let up = found.next(Event::Spawned { at });
            let restart = option == RestartOption::Always || (!stopped && (option
                == RestartOption::UnlessStopped || (option == RestartOption::OnCrash
                && !success)));
            &&& ended.pending_action() == Action::Backoff { millis: 500 }
            &&& ended.state == (ServiceState { alive_since: None, ..supervisor.state })
            &&& paused.pending_action() == Action::Poll
            &&& paused.state == ended.state
            &&& found.state == ended.state
            &&& restart ==> {
                &&& found.pending_action() == Action::Spawn
                &&& up.pending_action() == Action::Watch
                &&& up.state.alive_since == Some(at)
                &&& up.state.starts == supervisor.state.starts + 1
                &&& !up.state.explicitly_stopped
                &&& found.next(Event::SpawnFailed).pending_action() == Action::Crash
            }
            &&& !restart ==> found.pending_action() == Action::Watch
        }),
{
}

/// Where the look after the pause shows a process that runs, or shows nothing, none is started and
/// nothing changes.
pub proof fn no_restart_beside_a_process(supervisor: Supervisor, result: PollResult)
    requires
        supervisor.phase is Watching,
        result == PollResult::Running || result == PollResult::Failed,
    ensures
        ({
            let paused = supervisor.next(Event::Exited).next(Event::BackoffElapsed);
            &&& paused.next(Event::Polled(result)).state == paused.state
            &&& paused.next(Event::Polled(result)).pending_action() == Action::Watch
        }),
{
}

/// A process that has ended is replaced by the more restart options the further down this list:
/// never; on a crash; unless stopped; always. A stop leaves only the last of them, and an option
/// that replaces a process that ended well replaces one that failed too.
pub proof fn restart_options_are_ordered(success: bool, stopped: bool)
    ensures
        !restarts(RestartOption::Never, success, stopped),
        restarts(RestartOption::OnCrash, success, stopped) <==> !success && restarts(
            RestartOption::UnlessStopped,
            success,
            stopped,
        ),
        restarts(RestartOption::UnlessStopped, success, stopped) <==> !stopped,
        restarts(RestartOption::Always, success, stopped),
{
}

/// Whatever a process is started for, the service is from then on alive since that start and not
/// stopped, with one start more.
pub proof fn started_process_is_alive_since_then(supervisor: Supervisor, at: Timestamp)
    requires
        accepts(supervisor.phase, Event::Spawned { at }),
        supervisor.state.starts < usize::MAX,
    ensures
        supervisor.next(Event::Spawned { at }).state.alive_since == Some(at),
        supervisor.next(Event::Spawned { at }).state.starts == supervisor.state.starts + 1,
        !supervisor.next(Event::Spawned { at }).state.explicitly_stopped,
{
}

/// The moment since which a service is alive is that of the last start of its process.
pub proof fn alive_since_the_last_start(option: RestartOption, events: Seq<Event>)
    requires
        admissible(Supervisor::fresh(option), events),
    ensures
        run(Supervisor::fresh(option), events).state.alive_since matches Some(since) ==> last_start(
            events,
        ) == Some(since),
    decreases events.len(),
{
    if events.len() > 0 {
        alive_since_the_last_start(option, events.drop_last());
    }
}

/// The command to start is answered only while there is a live process, and the answer tells so.
pub proof fn start_is_answered_by_a_live_service(start: Supervisor, up: bool, events: Seq<Event>)
    requires
        start.wf(),
        start.phase is Watching || start.phase == Phase::Spawning(Purpose::FirstStart),
        start.state.alive_since is Some <==> up,
        admissible(start, events),
        truthful(up, events),
    ensures
        run(start, events).phase == Phase::Replying(ServiceThreadCommand::Start) ==> {
            &&& process_up(up, events)
            &&& run(start, events).state.alive_since is Some
            &&& !run(start, events).state.explicitly_stopped
        },
{
    if events.len() > 0 {
        alive_since_means_alive(start, up, events);
        invariant_holds_throughout(start, events.drop_last());
        invariant_holds_throughout(start, events);
    }
}

/// The time to end by itself begins only when a process was asked to end: the supervisor comes to
/// it only by a request that was delivered.
pub proof fn grace_begins_with_a_request(
    supervisor: Supervisor,
    command: ServiceThreadCommand,
    event: Event,
)
    requires
        accepts(supervisor.phase, event),
        supervisor.next(event).phase == Phase::Grace(command),
    ensures
        supervisor.phase == Phase::Terminating(command),
        supervisor.pending_action() == Action::Terminate,
        event == Event::Signalled,
{
}

/// The state of a service changes only by a command, by a start and by the end of its process; what
/// else happens on the way, and a failure, leave it as it is. A command alone changes no more than
/// whether the service is stopped, and the end of a process no more than since when it is alive.
pub proof fn state_changes_with_a_reason(supervisor: Supervisor, event: Event)
    ensures
        !(event is Command || event is Spawned || event is Exited || event is Killed || (event
            matches Event::Polled(result) && result is Exited)) ==> supervisor.next(event).state
            == supervisor.state,
        event is Command ==> {
            &&& supervisor.next(event).state.alive_since == supervisor.state.alive_since
            &&& supervisor.next(event).state.starts == supervisor.state.starts
        },
        event is Exited || event is Killed ==> supervisor.next(event).state == (ServiceState {
            alive_since: None,
            ..supervisor.state
        }),
        event matches Event::Polled(result) ==> {
            &&& supervisor.next(event).state.starts == supervisor.state.starts
            &&& supervisor.next(event).state.explicitly_stopped
                == supervisor.state.explicitly_stopped
            &&& supervisor.next(event).state.alive_since is None || supervisor.next(
                event,
            ).state.alive_since == supervisor.state.alive_since
        },
{
}

} // verus!
