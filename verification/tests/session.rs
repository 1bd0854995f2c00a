use rsm::client::{
    read_added, read_commanded, read_informed, removal_notice, run_command_request,
    service_for_command, ClientError,
};
use rsm::daemon::service_threads::{
    ServicePool, ServiceState, ServiceThreadCommand, ThreadCounter,
};
use rsm::daemon::session::{ClientSession, SessionAction, SessionEvent, SessionFailure};
use rsm::daemon::{RestartOption, Service};
use rsm::protocol::Packet;

fn service(name: &str) -> Service {
    service_for_command(
        "true".to_owned(),
        Some(name.to_owned()),
        None,
        "/".to_owned(),
        None,
        None,
    )
}

fn state(starts: usize) -> ServiceState {
    ServiceState { alive_since: None, starts, explicitly_stopped: false }
}

fn pool_of(names: &[&str]) -> (ServicePool, ThreadCounter) {
    let mut pool = ServicePool::new();
    let mut counter = ThreadCounter::new();
    pool.restore(&mut counter, &names.iter().map(|n| service(n)).collect());
    (pool, counter)
}

fn written(action: SessionAction) -> Packet {
    match action {
        SessionAction::Write(packet) => packet,
        other => panic!("nothing was written: {other:?}"),
    }
}

#[test]
fn new_service_is_added_and_launched() {
    let (mut pool, mut counter) = pool_of(&["a"]);
    let mut session = ClientSession::new();
    let request = Packet::AddService(service("b"));
    let action = session.step(&mut pool, &mut counter, SessionEvent::PacketRead(request));
    assert!(matches!(action, SessionAction::Launch { id: 1 }));
    let action = session.step(&mut pool, &mut counter, SessionEvent::Launched);
    assert!(read_added(Some(written(action))).is_ok());
    assert_eq!(pool.threads[1].service.name, "b");
    let action = session.step(&mut pool, &mut counter, SessionEvent::Written);
    assert!(matches!(action, SessionAction::ReadPacket));
}

#[test]
fn taken_name_is_refused() {
    let (mut pool, mut counter) = pool_of(&["a", "b"]);
    let mut session = ClientSession::new();
    let request = Packet::AddService(service("a"));
    let action = session.step(&mut pool, &mut counter, SessionEvent::PacketRead(request));
    let error = read_added(Some(written(action))).unwrap_err();
    assert_eq!(error.message(), "service with that name already exists");
    assert_eq!(pool.threads.len(), 2);
    assert_eq!(counter.next_id, 2);
}

#[test]
fn command_goes_to_the_named_service() {
    let (mut pool, mut counter) = pool_of(&["a", "b"]);
    let mut session = ClientSession::new();
    let request = run_command_request("b".to_owned(), ServiceThreadCommand::Stop);
    let action = session.step(&mut pool, &mut counter, SessionEvent::PacketRead(request));
    assert!(matches!(
        action,
        SessionAction::Ask { id: 1, command: ServiceThreadCommand::Stop }
    ));
    let action = session.step(&mut pool, &mut counter, SessionEvent::Answered(state(4)));
    assert_eq!(read_commanded(Some(written(action))).unwrap(), state(4));
}

#[test]
fn command_for_an_unknown_service_is_refused() {
    let (mut pool, mut counter) = pool_of(&["a"]);
    let mut session = ClientSession::new();
    let request = run_command_request("x".to_owned(), ServiceThreadCommand::Start);
    let action = session.step(&mut pool, &mut counter, SessionEvent::PacketRead(request));
    let error = read_commanded(Some(written(action))).unwrap_err();
    assert_eq!(error.message(), "couldn't find service");
}

#[test]
fn info_asks_every_service() {
    let (mut pool, mut counter) = pool_of(&["a", "b"]);
    pool.threads[0].id = 8;
    let mut session = ClientSession::new();
    let action = session.step(&mut pool, &mut counter, SessionEvent::PacketRead(Packet::ServicesInfo()));
    assert!(matches!(
        action,
        SessionAction::Ask { id: 8, command: ServiceThreadCommand::Status }
    ));
    let action = session.step(&mut pool, &mut counter, SessionEvent::Answered(state(1)));
    assert!(matches!(
        action,
        SessionAction::Ask { id: 1, command: ServiceThreadCommand::Status }
    ));
    let action = session.step(&mut pool, &mut counter, SessionEvent::Answered(state(2)));
    let info = read_informed(Some(written(action))).unwrap();
    let seen: Vec<(String, usize)> =
        info.iter().map(|(s, st)| (s.name.clone(), st.starts)).collect();
    assert_eq!(seen, vec![("a".to_owned(), 1), ("b".to_owned(), 2)]);
}

#[test]
fn info_without_services_is_empty() {
    let (mut pool, mut counter) = pool_of(&[]);
    let mut session = ClientSession::new();
    let action = session.step(&mut pool, &mut counter, SessionEvent::PacketRead(Packet::ServicesInfo()));
    assert_eq!(read_informed(Some(written(action))).unwrap().len(), 0);
}

#[test]
fn answers_come_in_the_order_of_the_requests() {
    let (mut pool, mut counter) = pool_of(&["a"]);
    let mut session = ClientSession::new();
    let mut step = |event| session.step(&mut pool, &mut counter, event);

    step(SessionEvent::PacketRead(Packet::AddService(service("b"))));
    assert!(read_added(Some(written(step(SessionEvent::Launched)))).is_ok());
    step(SessionEvent::Written);

    let request = run_command_request("a".to_owned(), ServiceThreadCommand::Status);
    step(SessionEvent::PacketRead(request));
    let answer = written(step(SessionEvent::Answered(state(3))));
    assert_eq!(read_commanded(Some(answer)).unwrap(), state(3));
    step(SessionEvent::Written);

    step(SessionEvent::PacketRead(Packet::ServicesInfo()));
    step(SessionEvent::Answered(state(3)));
    let answer = written(step(SessionEvent::Answered(state(1))));
    assert_eq!(read_informed(Some(answer)).unwrap().len(), 2);
}

#[test]
fn name_is_free_again_after_a_removal() {
    let (mut pool, mut counter) = pool_of(&["a"]);
    let mut session = ClientSession::new();
    for expected in 1..3usize {
        let request = Packet::AddService(service("a"));
        let action = session.step(&mut pool, &mut counter, SessionEvent::PacketRead(request));
        let error = read_added(Some(written(action))).unwrap_err();
        assert_eq!(error.message(), "service with that name already exists");
        session.step(&mut pool, &mut counter, SessionEvent::Written);

        pool.remove(pool.threads[0].id);
        let request = Packet::AddService(service("a"));
        match session.step(&mut pool, &mut counter, SessionEvent::PacketRead(request)) {
            SessionAction::Launch { id } => assert_eq!(id, expected),
            other => panic!("nothing was launched: {other:?}"),
        }
        session.step(&mut pool, &mut counter, SessionEvent::Launched);
        session.step(&mut pool, &mut counter, SessionEvent::Written);
        assert_eq!(pool.threads.len(), 1);
    }
}

#[test]
fn broken_conversations() {
    let (mut pool, mut counter) = pool_of(&["a"]);
    let mut session = ClientSession::new();
    let answer = Packet::AddServiceResponse(Ok(()));
    let action = session.step(&mut pool, &mut counter, SessionEvent::PacketRead(answer));
    assert!(matches!(action, SessionAction::Fail(SessionFailure::WrongWay)));

    let mut session = ClientSession::new();
    session.step(&mut pool, &mut counter, SessionEvent::PacketRead(Packet::ServicesInfo()));
    let action = session.step(&mut pool, &mut counter, SessionEvent::Unanswered);
    assert!(matches!(action, SessionAction::Fail(SessionFailure::NoAnswer)));

    let mut session = ClientSession::new();
    let request = Packet::AddService(service("a"));
    session.step(&mut pool, &mut counter, SessionEvent::PacketRead(request));
    let action = session.step(&mut pool, &mut counter, SessionEvent::WriteFailed);
    assert!(matches!(action, SessionAction::Fail(SessionFailure::NotDelivered)));

    let mut session = ClientSession::new();
    let action = session.step(&mut pool, &mut counter, SessionEvent::ReadFailed);
    assert!(matches!(action, SessionAction::Close));
}

#[test]
fn answers_are_read_only_where_they_belong() {
    let missing = read_added(None).unwrap_err();
    assert!(matches!(missing, ClientError::Unreadable));
    assert_eq!(missing.message(), "failed reading response packet");
    assert!(matches!(
        read_added(Some(Packet::RunCommandResponse(Ok(state(1))))),
        Err(ClientError::Unreadable)
    ));
    assert!(matches!(
        read_commanded(Some(Packet::AddServiceResponse(Ok(())))),
        Err(ClientError::Unreadable)
    ));
    assert!(matches!(read_informed(Some(Packet::ServicesInfo())), Err(ClientError::Unreadable)));
    let refused = read_informed(Some(Packet::ServicesInfoResponse(Err("no".to_owned()))));
    assert_eq!(refused.unwrap_err().message(), "no");
}

#[test]
fn shell_command_becomes_a_service() {
    let s = service_for_command(
        "echo hello world".to_owned(),
        None,
        None,
        "/home/me".to_owned(),
        None,
        None,
    );
    assert_eq!(s.name, "echo hello w");
    assert_eq!(s.executable_path, "/bin/sh");
    assert_eq!(s.arguments, vec!["-c".to_owned(), "echo hello world".to_owned()]);
    assert!(s.env_vars.is_empty());
    assert_eq!(s.working_directory, "/home/me");
    assert_eq!(s.restart_option, RestartOption::UnlessStopped);
    assert_eq!(s.log_file, None);
}

#[test]
fn given_values_come_before_defaults() {
    let s = service_for_command(
        "ls".to_owned(),
        Some("list".to_owned()),
        Some("/tmp".to_owned()),
        "/home/me".to_owned(),
        Some(RestartOption::Never),
        Some("/tmp/l".to_owned()),
    );
    assert_eq!(s.name, "list");
    assert_eq!(s.working_directory, "/tmp");
    assert_eq!(s.restart_option, RestartOption::Never);
    assert_eq!(s.log_file, Some("/tmp/l".to_owned()));
}

#[test]
fn default_name_counts_characters() {
    let name = |command: &str| {
        service_for_command(command.to_owned(), None, None, "/".to_owned(), None, None).name
    };
    assert_eq!(name("ls"), "ls");
    assert_eq!(name("123456789012"), "123456789012");
    assert_eq!(name("1234567890123"), "123456789012");
    assert_eq!(name("ééééééééééééé"), "éééééééééééé");
    assert_eq!(name(""), "");
}

#[test]
fn removal_is_told_by_name() {
    assert_eq!(removal_notice("web"), "Removed service `web`");
}
