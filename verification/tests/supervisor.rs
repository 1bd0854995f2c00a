use rsm::daemon::service_threads::{ServiceState, ServiceThreadCommand};
use rsm::daemon::supervisor::{should_restart, Action, Event, Phase, PollResult, Supervisor};
use rsm::daemon::RestartOption;
use rsm::time::Timestamp;

fn at(secs: i64) -> Timestamp {
    Timestamp { secs, nanos: 0 }
}

fn watching(option: RestartOption) -> Supervisor {
    let mut s = Supervisor::new(option);
    s.step(Event::Spawned { at: at(10) });
    s
}

fn end_process(s: &mut Supervisor, success: bool) {
    assert_eq!(s.pending(), Action::Watch);
    s.step(Event::Exited);
    assert_eq!(s.pending(), Action::Backoff { millis: 500 });
    assert_eq!(s.state.alive_since, None);
    s.step(Event::BackoffElapsed);
    assert_eq!(s.pending(), Action::Poll);
    s.step(Event::Polled(PollResult::Exited { success }));
}

fn stop(s: &mut Supervisor) {
    s.step(Event::Command(ServiceThreadCommand::Stop));
    s.step(Event::Polled(PollResult::Running));
    s.step(Event::Signalled);
    s.step(Event::Exited);
    s.step(Event::Replied);
}

#[test]
fn restart_table() {
    let expected = [
        (RestartOption::Always, true, false, true),
        (RestartOption::Always, false, false, true),
        (RestartOption::Always, true, true, true),
        (RestartOption::Always, false, true, true),
        (RestartOption::UnlessStopped, true, false, true),
        (RestartOption::UnlessStopped, false, false, true),
        (RestartOption::UnlessStopped, true, true, false),
        (RestartOption::UnlessStopped, false, true, false),
        (RestartOption::OnCrash, true, false, false),
        (RestartOption::OnCrash, false, false, true),
        (RestartOption::OnCrash, true, true, false),
        (RestartOption::OnCrash, false, true, false),
        (RestartOption::Never, true, false, false),
        (RestartOption::Never, false, false, false),
        (RestartOption::Never, true, true, false),
        (RestartOption::Never, false, true, false),
    ];
    for (option, success, stopped, restart) in expected {
        assert_eq!(should_restart(option, success, stopped), restart);
    }
}

#[test]
fn first_process_counts_as_a_start() {
    let s = watching(RestartOption::Never);
    assert_eq!(
        s.state,
        ServiceState { alive_since: Some(at(10)), starts: 1, explicitly_stopped: false }
    );
    assert_eq!(s.pending(), Action::Watch);
}

#[test]
fn new_supervisor_starts_its_process() {
    for option in [RestartOption::Always, RestartOption::Never] {
        let s = Supervisor::new(option);
        assert_eq!(s.restart_option, option);
        assert_eq!(s.pending(), Action::Spawn);
        assert_eq!(
            s.state,
            ServiceState { alive_since: None, starts: 0, explicitly_stopped: false }
        );
    }
}

#[test]
fn failed_first_start_makes_the_supervisor_give_up() {
    let mut s = Supervisor::new(RestartOption::Always);
    s.step(Event::SpawnFailed);
    assert_eq!(s.pending(), Action::Crash);
    assert_eq!(s.state.starts, 0);
    assert_eq!(s.state.alive_since, None);
}

#[test]
fn crashed_process_is_restarted() {
    let mut s = watching(RestartOption::OnCrash);
    end_process(&mut s, false);
    assert_eq!(s.pending(), Action::Spawn);
    s.step(Event::Spawned { at: at(20) });
    assert_eq!(s.pending(), Action::Watch);
    assert_eq!(
        s.state,
        ServiceState { alive_since: Some(at(20)), starts: 2, explicitly_stopped: false }
    );
}

#[test]
fn finished_process_is_not_restarted_on_crash() {
    let mut s = watching(RestartOption::OnCrash);
    end_process(&mut s, true);
    assert_eq!(s.pending(), Action::Watch);
    assert_eq!(s.state.alive_since, None);
    assert_eq!(s.state.starts, 1);
    end_process(&mut s, true);
    assert_eq!(s.pending(), Action::Watch);
}

#[test]
fn unreadable_exit_is_not_restarted() {
    let mut s = watching(RestartOption::Always);
    s.step(Event::Exited);
    s.step(Event::BackoffElapsed);
    s.step(Event::Polled(PollResult::Failed));
    assert_eq!(s.pending(), Action::Watch);
}

#[test]
fn stopped_service_stays_down_until_started() {
    let mut s = watching(RestartOption::UnlessStopped);
    stop(&mut s);
    end_process(&mut s, false);
    assert_eq!(s.pending(), Action::Watch);
    assert!(s.state.explicitly_stopped);
    s.step(Event::Command(ServiceThreadCommand::Start));
    s.step(Event::Polled(PollResult::Exited { success: false }));
    assert_eq!(s.pending(), Action::Spawn);
    s.step(Event::Spawned { at: at(30) });
    let state = ServiceState { alive_since: Some(at(30)), starts: 2, explicitly_stopped: false };
    assert_eq!(s.pending(), Action::Reply(state));
    s.step(Event::Replied);
    assert_eq!(s.pending(), Action::Watch);
}

#[test]
fn stopped_service_comes_back_if_always_restarted() {
    let mut s = watching(RestartOption::Always);
    stop(&mut s);
    end_process(&mut s, true);
    assert_eq!(s.pending(), Action::Spawn);
    s.step(Event::Spawned { at: at(40) });
    assert!(!s.state.explicitly_stopped);
}

#[test]
fn stop_terminates_and_then_kills() {
    let mut s = watching(RestartOption::UnlessStopped);
    s.step(Event::Command(ServiceThreadCommand::Stop));
    assert_eq!(s.pending(), Action::Poll);
    s.step(Event::Polled(PollResult::Running));
    assert_eq!(s.pending(), Action::Terminate);
    s.step(Event::Signalled);
    assert_eq!(s.pending(), Action::AwaitExit { millis: 1000 });
    s.step(Event::GraceElapsed);
    assert_eq!(s.pending(), Action::Kill);
    s.step(Event::Killed);
    assert_eq!(
        s.pending(),
        Action::Reply(ServiceState { alive_since: None, starts: 1, explicitly_stopped: true })
    );
}

#[test]
fn stop_of_an_ended_process_needs_no_signal() {
    let mut s = watching(RestartOption::Never);
    s.step(Event::Command(ServiceThreadCommand::Stop));
    s.step(Event::Polled(PollResult::Exited { success: true }));
    assert_eq!(
        s.pending(),
        Action::Reply(ServiceState { alive_since: None, starts: 1, explicitly_stopped: true })
    );
}

#[test]
fn kill_does_not_ask_first() {
    let mut s = watching(RestartOption::Never);
    s.step(Event::Command(ServiceThreadCommand::Kill));
    s.step(Event::Polled(PollResult::Running));
    assert_eq!(s.pending(), Action::Kill);
    s.step(Event::Killed);
    assert_eq!(
        s.pending(),
        Action::Reply(ServiceState { alive_since: None, starts: 1, explicitly_stopped: true })
    );
    s.step(Event::Replied);
    assert_eq!(s.pending(), Action::Watch);
}

#[test]
fn remove_ends_the_supervisor() {
    let mut s = watching(RestartOption::Always);
    s.step(Event::Command(ServiceThreadCommand::Remove));
    s.step(Event::Polled(PollResult::Running));
    s.step(Event::Signalled);
    s.step(Event::Exited);
    assert_eq!(
        s.pending(),
        Action::Reply(ServiceState { alive_since: None, starts: 1, explicitly_stopped: true })
    );
    s.step(Event::Replied);
    assert_eq!(s.pending(), Action::Leave);
}

#[test]
fn start_of_a_running_process_changes_nothing() {
    let mut s = watching(RestartOption::Never);
    let before = s.state;
    s.step(Event::Command(ServiceThreadCommand::Start));
    s.step(Event::Polled(PollResult::Running));
    assert_eq!(s.pending(), Action::Reply(before));
}

#[test]
fn status_is_answered_at_once() {
    let mut s = watching(RestartOption::Never);
    s.step(Event::Exited);
    let before = s.state;
    s.step(Event::Command(ServiceThreadCommand::Status));
    assert_eq!(s.pending(), Action::Reply(before));
    s.step(Event::Replied);
    assert_eq!(s.pending(), Action::Watch);
    assert_eq!(s.state, before);
}

#[test]
fn failures_make_the_supervisor_give_up() {
    let mut spawn = watching(RestartOption::Always);
    end_process(&mut spawn, true);
    spawn.step(Event::SpawnFailed);
    assert_eq!(spawn.pending(), Action::Crash);

    let mut poll = watching(RestartOption::Always);
    poll.step(Event::Command(ServiceThreadCommand::Start));
    poll.step(Event::Polled(PollResult::Failed));
    assert_eq!(poll.pending(), Action::Crash);

    let mut signal = watching(RestartOption::Always);
    signal.step(Event::Command(ServiceThreadCommand::Stop));
    signal.step(Event::Polled(PollResult::Running));
    signal.step(Event::SignalFailed);
    assert_eq!(signal.pending(), Action::Crash);

    let mut kill = watching(RestartOption::Always);
    kill.step(Event::Command(ServiceThreadCommand::Kill));
    kill.step(Event::Polled(PollResult::Running));
    kill.step(Event::KillFailed);
    assert_eq!(kill.pending(), Action::Crash);

    let mut reply = watching(RestartOption::Always);
    reply.step(Event::Command(ServiceThreadCommand::Status));
    reply.step(Event::ReplyFailed);
    assert_eq!(reply.pending(), Action::Crash);
}

#[test]
fn never_restarted_service_waits_for_a_start() {
    let mut s = watching(RestartOption::Never);
    end_process(&mut s, false);
    end_process(&mut s, true);
    assert_eq!(s.pending(), Action::Watch);
    assert_eq!(s.state.starts, 1);
    s.step(Event::Command(ServiceThreadCommand::Start));
    s.step(Event::Polled(PollResult::Exited { success: true }));
    s.step(Event::Spawned { at: at(50) });
    assert_eq!(s.state.starts, 2);
}

#[test]
fn alive_since_follows_the_process() {
    let mut s = watching(RestartOption::Always);
    for start in 2..6 {
        assert!(s.state.alive_since.is_some());
        end_process(&mut s, start % 2 == 0);
        assert!(s.state.alive_since.is_none());
        s.step(Event::Spawned { at: at(start) });
        assert_eq!(s.state.alive_since, Some(at(start)));
        assert_eq!(s.state.starts, start as usize);
    }
}

#[test]
fn command_during_the_pause_is_taken_up() {
    let mut s = watching(RestartOption::Always);
    s.step(Event::Exited);
    s.step(Event::Command(ServiceThreadCommand::Remove));
    s.step(Event::Polled(PollResult::Exited { success: false }));
    s.step(Event::Replied);
    assert_eq!(s.pending(), Action::Leave);
}

#[test]
fn commands_are_answered_one_after_the_other() {
    let mut s = watching(RestartOption::Never);
    let commands = [
        ServiceThreadCommand::Status,
        ServiceThreadCommand::Stop,
        ServiceThreadCommand::Start,
        ServiceThreadCommand::Kill,
    ];
    for command in commands {
        s.step(Event::Command(command));
        if s.pending() == Action::Poll {
            s.step(Event::Polled(PollResult::Exited { success: true }));
        }
        if s.pending() == Action::Spawn {
            s.step(Event::Spawned { at: at(60) });
        }
        assert_eq!(s.phase, Phase::Replying(command));
        s.step(Event::Replied);
        assert_eq!(s.pending(), Action::Watch);
    }
}

#[test]
fn stopped_service_has_no_live_process() {
    let mut s = watching(RestartOption::OnCrash);
    stop(&mut s);
    assert_eq!(s.state.alive_since, None);
    for _ in 0..2 {
        end_process(&mut s, false);
        assert_eq!(s.state.alive_since, None);
    }
}
