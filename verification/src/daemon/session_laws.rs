//! What holds of every conversation between the daemon and a client.
use super::pool_laws::{
    added_service_has_its_own_number, addition_goes_to_the_end, name_is_looked_up_everywhere,
    names_differ, new_name_keeps_names_different,
    numbers_differ, removal_keeps_names_different, removal_keeps_numbers_different,
    service_is_found_by_name,
};
use super::service_threads::{
    has_name, position_of, services_of, PoolState, ServiceState, ServiceThreadCommand,
};
use super::session::{
    phase_fits, session_accepts, session_step, SessionAction, SessionActionView, SessionEvent,
    SessionEventView, SessionFailure, SessionPhase, SessionPhaseView, SessionStep,
};
use super::supervisor::{is_stopping, Phase, Supervisor};
use super::supervisor_laws::answer_tells_the_outcome;
use super::{Service, ServiceView};
use crate::client::{added, commanded, informed, ClientErrorView};
use crate::protocol::{Packet, PacketView};
use vstd::prelude::*;

verus! {

/// What a request is about.
pub enum Topic {
    Add,
    Command,
    Info,
}

/// What a request is about; `None` where the packet is no request.
pub open spec fn topic_of_request(packet: PacketView) -> Option<Topic> {
    match packet {
        PacketView::AddService(_) => Some(Topic::Add),
        PacketView::RunCommand(_, _) => Some(Topic::Command),
        PacketView::ServicesInfo() => Some(Topic::Info),
        _ => None,
    }
}

/// What an answer is about; `None` where the packet is no answer.
pub open spec fn topic_of_answer(packet: PacketView) -> Option<Topic> {
    match packet {
        PacketView::AddServiceResponse(_) => Some(Topic::Add),
        PacketView::RunCommandResponse(_) => Some(Topic::Command),
        PacketView::ServicesInfoResponse(_) => Some(Topic::Info),
        _ => None,
    }
}

/// What the request is about that the session is working on.
pub open spec fn topic_in_progress(phase: SessionPhaseView) -> Option<Topic> {
    match phase {
        SessionPhaseView::Launching => Some(Topic::Add),
        SessionPhaseView::Forwarding => Some(Topic::Command),
        SessionPhaseView::Collecting(_) => Some(Topic::Info),
        _ => None,
    }
}

/// Whether the client that asked about a topic can read a packet as its answer.
pub open spec fn readable(topic: Topic, packet: PacketView) -> bool {
    match topic {
        Topic::Add => added(Some(packet)) != Err::<(), ClientErrorView>(
            ClientErrorView::Unreadable,
        ),
        Topic::Command => commanded(Some(packet)) != Err::<ServiceState, ClientErrorView>(
            ClientErrorView::Unreadable,
        ),
        Topic::Info => informed(Some(packet)) != Err::<
            Seq<(ServiceView, ServiceState)>,
            ClientErrorView,
        >(ClientErrorView::Unreadable),
    }
}

/// Whether a step keeps to a topic: the client is answered on it, or the work on it goes on, or
/// the conversation breaks down.
pub open spec fn keeps_to(step: SessionStep, topic: Topic) -> bool {
    match step.action {
        SessionActionView::Write(packet) => {
            &&& topic_of_answer(packet) == Some(topic)
            &&& readable(topic, packet)
        },
        SessionActionView::Launch { .. } | SessionActionView::Ask { .. } => topic_in_progress(
            step.phase,
        ) == Some(topic),
        SessionActionView::Fail(_) => step.phase is Failed,
        _ => false,
    }
}

/// The session after the services answered with these states, one after the other.
pub open spec fn after_answers(
    pool: PoolState,
    first: SessionStep,
    states: Seq<ServiceState>,
) -> SessionStep
    decreases states.len(),
{
    if states.len() == 0 {
        first
    } else {
        session_step(
            pool,
            after_answers(pool, first, states.drop_last()).phase,
            SessionEventView::Answered(states.last()),
        )
    }
}

/// Each service with its state.
pub open spec fn paired(
    pool: PoolState,
    states: Seq<ServiceState>,
) -> Seq<(ServiceView, ServiceState)> {
    Seq::new(states.len(), |i: int| (pool.threads[i].service, states[i]))
}

/// An event of a conversation, and the pool and the counter as they stand when it comes.
pub struct Turn {
    pub pool: PoolState,
    pub event: SessionEventView,
}

/// The phase of the session after a conversation that began in a phase.
pub open spec fn phase_after(start: SessionPhaseView, turns: Seq<Turn>) -> SessionPhaseView
    decreases turns.len(),
{
    if turns.len() == 0 {
        start
    } else {
        session_step(
            turns.last().pool,
            phase_after(start, turns.drop_last()),
            turns.last().event,
        ).phase
    }
}

/// What follows on the last turn of a conversation that began in a phase.
pub open spec fn last_step(start: SessionPhaseView, turns: Seq<Turn>) -> SessionStep
    recommends
        turns.len() > 0,
{
    session_step(turns.last().pool, phase_after(start, turns.drop_last()), turns.last().event)
}

/// Whether each event of a conversation can come when its turn is there. Nothing is said of the
/// pool: between two turns services may come and go.
pub open spec fn conversation(start: SessionPhaseView, turns: Seq<Turn>) -> bool
    decreases turns.len(),
{
    turns.len() == 0 || {
        &&& conversation(start, turns.drop_last())
        &&& session_accepts(phase_after(start, turns.drop_last()), turns.last().event)
    }
}

/// What the requests of a conversation are about, in the order in which they were read.
pub open spec fn asked(turns: Seq<Turn>) -> Seq<Topic>
    decreases turns.len(),
{
    if turns.len() == 0 {
        Seq::empty()
    } else {
        let before = asked(turns.drop_last());
        match turns.last().event {
            SessionEventView::PacketRead(packet) => match topic_of_request(packet) {
                Some(topic) => before.push(topic),
                None => before,
            },
            _ => before,
        }
    }
}

/// The packets that the client is sent in a conversation, in their order.
pub open spec fn answers(start: SessionPhaseView, turns: Seq<Turn>) -> Seq<PacketView>
    decreases turns.len(),
{
    if turns.len() == 0 {
        Seq::empty()
    } else {
        let before = answers(start, turns.drop_last());
        match last_step(start, turns).action {
            SessionActionView::Write(packet) => before.push(packet),
            _ => before,
        }
    }
}

/// What the request is about that the session is working on, as a series of one topic or none.
pub open spec fn topics_in_progress(phase: SessionPhaseView) -> Seq<Topic> {
    match topic_in_progress(phase) {
        Some(topic) => seq![topic],
        None => Seq::empty(),
    }
}

/// One thing that happens to the pool of the daemon.
pub enum DaemonChange {
    /// Some session, in some phase, takes an event.
    Session { phase: SessionPhaseView, event: SessionEventView },
    /// A service leaves.
    Removed { id: usize },
}

/// The pool and the counter after a series of changes.
pub open spec fn pool_after(pool: PoolState, changes: Seq<DaemonChange>) -> PoolState
    decreases changes.len(),
{
    if changes.len() == 0 {
        pool
    } else {
        let before = pool_after(pool, changes.drop_last());
        match changes.last() {
            DaemonChange::Session { phase, event } => session_step(before, phase, event).pool,
            DaemonChange::Removed { id } => before.removed(id),
        }
    }
}

/// A service whose name is taken is refused: the client is told so, and the pool stays as it is.
pub proof fn taken_name_is_refused(pool: PoolState, service: ServiceView)
    requires
        has_name(pool.threads, service.name),
    ensures
        ({
            let step = session_step(
                pool,
                SessionPhaseView::Reading,
                SessionEventView::PacketRead(PacketView::AddService(service)),
            );
            &&& step.pool == pool
            &&& step.action == SessionActionView::Write(
                PacketView::AddServiceResponse(Err("service with that name already exists"@)),
            )
        }),
{
}

/// A service of a new name is added behind the others and started, and the client is told of the
/// success. From then on its name is taken, and commands for that name go to it.
pub proof fn new_name_is_added(
    pool: PoolState,
    service: ServiceView,
    command: ServiceThreadCommand,
)
    requires
        !has_name(pool.threads, service.name),
    ensures
        ({
            let step = session_step(
                pool,
                SessionPhaseView::Reading,
                SessionEventView::PacketRead(PacketView::AddService(service)),
            );
            let done = session_step(step.pool, step.phase, SessionEventView::Launched);
            let later = session_step(
                done.pool,
                SessionPhaseView::Reading,
                SessionEventView::PacketRead(PacketView::RunCommand(service.name, command)),
            );
            &&& step.action == SessionActionView::Launch { id: pool.next_id }
            &&& done.pool == pool.added(service)
            &&& done.action == SessionActionView::Write(PacketView::AddServiceResponse(Ok(())))
            &&& services_of(done.pool.threads) == services_of(pool.threads).push(service)
            &&& has_name(done.pool.threads, service.name)
            &&& later.action == SessionActionView::Ask { id: pool.next_id, command }
        }),
{
    let threads = pool.added(service).threads;
    assert(threads[threads.len() - 1].service.name == service.name);
    assert(services_of(threads) =~= services_of(pool.threads).push(service));
}

/// A command for a name that no service has is refused: the client is told so, no service is
/// asked, and the pool stays as it is. Any other command is passed on, to a service of the name.
pub proof fn command_reaches_the_named_service(
    pool: PoolState,
    name: Seq<char>,
    command: ServiceThreadCommand,
)
    ensures
        ({
            let step = session_step(
                pool,
                SessionPhaseView::Reading,
                SessionEventView::PacketRead(PacketView::RunCommand(name, command)),
            );
            &&& step.pool == pool
            &&& if has_name(pool.threads, name) {
                exists|i: int|
                    {
                        &&& 0 <= i < pool.threads.len()
                        &&& (#[trigger] pool.threads[i]).service.name == name
                        &&& step.action == SessionActionView::Ask {
                            id: pool.threads[i].id,
                            command,
                        }
                    }
            } else {
                step.action == SessionActionView::Write(
                    PacketView::RunCommandResponse(Err("couldn't find service"@)),
                )
            }
        }),
{
    service_is_found_by_name(pool.threads, name);
    if let Some(i) = position_of(pool.threads, name) {
        assert(pool.threads[i].service.name == name);
    }
}

/// The answer of the service to a command is passed on to the client as it is.
pub proof fn answer_is_passed_on(pool: PoolState, state: ServiceState)
    ensures
        ({
            let step = session_step(
                pool,
                SessionPhaseView::Forwarding,
                SessionEventView::Answered(state),
            );
            &&& step.pool == pool
            &&& step.action == SessionActionView::Write(PacketView::RunCommandResponse(Ok(state)))
            &&& commanded(Some(step.action->Write_0)) == Ok::<ServiceState, ClientErrorView>(state)
        }),
{
}

/// A client that had a service stopped, removed or killed learns that it is stopped and has no
/// live process.
pub proof fn stop_is_confirmed_to_the_client(
    pool: PoolState,
    supervisor: Supervisor,
    command: ServiceThreadCommand,
)
    requires
        supervisor.wf(),
        supervisor.phase == Phase::Replying(command),
        is_stopping(command),
    ensures
        ({
            let step = session_step(
                pool,
                SessionPhaseView::Forwarding,
                SessionEventView::Answered(supervisor.state),
            );
            &&& step.action is Write
            &&& commanded(Some(step.action->Write_0)) matches Ok(state)
            &&& state == supervisor.state
            &&& state.explicitly_stopped
            &&& state.alive_since is None
        }),
{
    answer_is_passed_on(pool, supervisor.state);
    answer_tells_the_outcome(supervisor, command);
}

/// While the services answer the question for their status, they are asked one after the other
/// in the order of the pool.
proof fn lemma_answers_so_far(pool: PoolState, states: Seq<ServiceState>)
    requires
        states.len() <= pool.threads.len(),
    ensures
        ({
            let first = session_step(
                pool,
                SessionPhaseView::Reading,
                SessionEventView::PacketRead(PacketView::ServicesInfo()),
            );
            let step = after_answers(pool, first, states);
            &&& step.pool == pool
            &&& if states.len() == pool.threads.len() {
                step.action == SessionActionView::Write(
                    PacketView::ServicesInfoResponse(Ok(paired(pool, states))),
                )
            } else {
                &&& step.phase == SessionPhaseView::Collecting(paired(pool, states))
                &&& step.action == SessionActionView::Ask {
                    id: pool.threads[states.len() as int].id,
                    command: ServiceThreadCommand::Status,
                }
            }
        }),
    decreases states.len(),
{
    if states.len() == 0 {
        assert(paired(pool, states) =~= Seq::<(ServiceView, ServiceState)>::empty());
    } else {
        let before = states.drop_last();
        lemma_answers_so_far(pool, before);
        assert(paired(pool, states) =~= paired(pool, before).push(
            (pool.threads[before.len() as int].service, states.last()),
        ));
    }
}

/// The question for all services is answered with every service of the pool, in its order, each
/// with the state that it answered itself.
pub proof fn info_lists_every_service(pool: PoolState, states: Seq<ServiceState>)
    requires
        states.len() == pool.threads.len(),
    ensures
        ({
            let first = session_step(
                pool,
                SessionPhaseView::Reading,
                SessionEventView::PacketRead(PacketView::ServicesInfo()),
            );
            let step = after_answers(pool, first, states);
            &&& step.pool == pool
            &&& step.action == SessionActionView::Write(
                PacketView::ServicesInfoResponse(Ok(paired(pool, states))),
            )
        }),
        paired(pool, states).map_values(|entry: (ServiceView, ServiceState)| entry.0)
            == services_of(pool.threads),
        paired(pool, states).map_values(|entry: (ServiceView, ServiceState)| entry.1) == states,
{
    lemma_answers_so_far(pool, states);
    assert(paired(pool, states).map_values(|entry: (ServiceView, ServiceState)| entry.0)
        =~= services_of(pool.threads));
    assert(paired(pool, states).map_values(|entry: (ServiceView, ServiceState)| entry.1)
        =~= states);
}

/// While the status of all services is collected, each one is asked in its turn.
pub proof fn services_are_asked_in_order(pool: PoolState, states: Seq<ServiceState>)
    requires
        states.len() < pool.threads.len(),
    ensures
        ({
            let first = session_step(
                pool,
                SessionPhaseView::Reading,
                SessionEventView::PacketRead(PacketView::ServicesInfo()),
            );
            after_answers(pool, first, states).action == SessionActionView::Ask {
                id: pool.threads[states.len() as int].id,
                command: ServiceThreadCommand::Status,
            }
        }),
{
    lemma_answers_so_far(pool, states);
}

/// Every request is answered on its own topic, with a packet that the client can read, unless
/// the conversation breaks down: a request starts the work on its topic, and each event after it
/// keeps to the topic.
pub proof fn answer_fits_the_request(
    pool: PoolState,
    phase: SessionPhaseView,
    event: SessionEventView,
    topic: Topic,
)
    requires
        session_accepts(phase, event),
        phase_fits(phase, pool.threads),
        match event {
            SessionEventView::PacketRead(packet) => topic_of_request(packet) == Some(topic),
            _ => topic_in_progress(phase) == Some(topic),
        },
    ensures
        keeps_to(session_step(pool, phase, event), topic),
        phase_fits(
            session_step(pool, phase, event).phase,
            session_step(pool, phase, event).pool.threads,
        ),
{
    if let SessionEventView::Answered(state) = event {
        if let SessionPhaseView::Collecting(info) = phase {
            let more = info.push((pool.threads[info.len() as int].service, state));
            assert forall|i: int| 0 <= i < more.len() implies (#[trigger] more[i]).0
                == pool.threads[i].service by {
                if i < info.len() {
                    assert(more[i] == info[i]);
                }
            }
        }
    }
}

/// The answers of a whole conversation fit its requests, one for one and in their order: each is
/// on the topic of its request, and the client can read it. What is asked and not answered is the
/// one request in progress, and in a conversation that broke down no more than one request.
pub proof fn answers_fit_the_requests(start: SessionPhaseView, turns: Seq<Turn>)
    requires
        conversation(start, turns),
    ensures
        ({
            let all = topics_in_progress(start) + asked(turns);
            let sent = answers(start, turns);
            let phase = phase_after(start, turns);
            &&& sent.len() <= all.len() <= sent.len() + 1
            &&& forall|i: int|
                0 <= i < sent.len() ==> topic_of_answer(#[trigger] sent[i]) == Some(all[i])
                    && readable(all[i], sent[i])
            &&& !(phase is Failed) ==> all.skip(sent.len() as int) == topics_in_progress(phase)
        }),
    decreases turns.len(),
{
    let all = topics_in_progress(start) + asked(turns);
    let sent = answers(start, turns);
    let phase = phase_after(start, turns);
    if turns.len() == 0 {
        assert(all.skip(0) =~= topics_in_progress(start));
    } else {
        let before = turns.drop_last();
        let earlier = topics_in_progress(start) + asked(before);
        let sent_before = answers(start, before);
        let old_phase = phase_after(start, before);
        let event = turns.last().event;
        answers_fit_the_requests(start, before);
        assert(earlier.skip(sent_before.len() as int) == topics_in_progress(old_phase));
        assert(earlier.skip(sent_before.len() as int).len() == earlier.len() - sent_before.len());
        if let Some(topic) = topic_in_progress(old_phase) {
            assert(earlier.skip(sent_before.len() as int)[0] == topic);
        }
        if let SessionEventView::PacketRead(packet) = event {
            if let Some(topic) = topic_of_request(packet) {
                assert(all =~= earlier.push(topic));
            }
        }
        assert forall|i: int| 0 <= i < sent.len() implies topic_of_answer(#[trigger] sent[i])
            == Some(all[i]) && readable(all[i], sent[i]) by {
            if i < sent_before.len() {
                assert(sent[i] == sent_before[i]);
            }
        }
        if !(phase is Failed) {
            assert(all.skip(sent.len() as int) =~= topics_in_progress(phase));
        }
    }
}

/// A client that sends an answer in place of a request ends the conversation; nothing changes
/// and nothing is answered.
pub proof fn answer_from_a_client_is_a_failure(pool: PoolState, packet: PacketView)
    requires
        topic_of_request(packet) is None,
    ensures
        ({
            let step = session_step(
                pool,
                SessionPhaseView::Reading,
                SessionEventView::PacketRead(packet),
            );
            &&& step.pool == pool
            &&& step.action == SessionActionView::Fail(SessionFailure::WrongWay)
        }),
{
}

/// No conversation gives two services the same name.
pub proof fn names_stay_different(
    pool: PoolState,
    phase: SessionPhaseView,
    event: SessionEventView,
)
    requires
        names_differ(pool),
    ensures
        names_differ(session_step(pool, phase, event).pool),
{
    if let SessionEventView::PacketRead(PacketView::AddService(service)) = event {
        if !has_name(pool.threads, service.name) {
            new_name_keeps_names_different(pool, service);
        }
    }
}

/// No conversation gives two services the same number, as long as the numbers do not run out.
pub proof fn numbers_stay_different(
    pool: PoolState,
    phase: SessionPhaseView,
    event: SessionEventView,
)
    requires
        numbers_differ(pool),
        pool.next_id < usize::MAX,
    ensures
        numbers_differ(session_step(pool, phase, event).pool),
{
    if let SessionEventView::PacketRead(PacketView::AddService(service)) = event {
        added_service_has_its_own_number(pool, service);
    }
}

/// Whatever the clients ask, and whenever services leave in between, no two services ever have the
/// same name.
pub proof fn names_differ_throughout(pool: PoolState, changes: Seq<DaemonChange>)
    requires
        names_differ(pool),
    ensures
        names_differ(pool_after(pool, changes)),
    decreases changes.len(),
{
    if changes.len() > 0 {
        let before = pool_after(pool, changes.drop_last());
        names_differ_throughout(pool, changes.drop_last());
        match changes.last() {
            DaemonChange::Session { phase, event } => names_stay_different(before, phase, event),
            DaemonChange::Removed { id } => removal_keeps_names_different(before, id),
        }
    }
}

/// Whatever the clients ask, and whenever services leave in between, no two services ever have the
/// same number, as long as the numbers do not run out.
pub proof fn numbers_differ_whatever_is_asked(pool: PoolState, changes: Seq<DaemonChange>)
    requires
        numbers_differ(pool),
        pool.next_id + changes.len() <= usize::MAX,
    ensures
        numbers_differ(pool_after(pool, changes)),
        pool.next_id <= pool_after(pool, changes).next_id <= pool.next_id + changes.len(),
    decreases changes.len(),
{
    if changes.len() > 0 {
        let before = pool_after(pool, changes.drop_last());
        numbers_differ_whatever_is_asked(pool, changes.drop_last());
        match changes.last() {
            DaemonChange::Session { phase, event } => {
                numbers_stay_different(before, phase, event);
            },
            DaemonChange::Removed { id } => removal_keeps_numbers_different(before, id),
        }
    }
}

/// A conversation changes the pool only by adding a service; it takes none out.
pub proof fn conversation_only_adds(
    pool: PoolState,
    phase: SessionPhaseView,
    event: SessionEventView,
)
    requires
        session_accepts(phase, event),
    ensures
        ({
            let after = session_step(pool, phase, event).pool;
            ||| after == pool
            ||| {
                &&& event matches SessionEventView::PacketRead(PacketView::AddService(service))
                &&& after == pool.added(service)
            }
        }),
{
}

/// The services are saved only when the client has gone, not when the conversation broke down.
pub proof fn saved_only_when_the_client_has_gone(
    pool: PoolState,
    phase: SessionPhaseView,
    event: SessionEventView,
)
    requires
        session_accepts(phase, event),
    ensures
        session_step(pool, phase, event).action == SessionActionView::Close <==> event
            == SessionEventView::ReadFailed,
{
}

/// What a session takes in and gives out holds the same packets, answers and numbers as its
/// contents say.
pub proof fn contents_of_a_session(
    packet: Packet,
    state: ServiceState,
    info: Vec<(Service, ServiceState)>,
    id: usize,
    command: ServiceThreadCommand,
    failure: SessionFailure,
)
    ensures
        SessionEvent::PacketRead(packet)@ == SessionEventView::PacketRead(packet@),
        SessionEvent::ReadFailed@ == SessionEventView::ReadFailed,
        SessionEvent::Launched@ == SessionEventView::Launched,
        SessionEvent::Answered(state)@ == SessionEventView::Answered(state),
        SessionEvent::Unanswered@ == SessionEventView::Unanswered,
        SessionEvent::Written@ == SessionEventView::Written,
        SessionEvent::WriteFailed@ == SessionEventView::WriteFailed,
        SessionAction::ReadPacket@ == SessionActionView::ReadPacket,
        (SessionAction::Launch { id })@ == (SessionActionView::Launch { id }),
        (SessionAction::Ask { id, command })@ == (SessionActionView::Ask { id, command }),
        SessionAction::Write(packet)@ == SessionActionView::Write(packet@),
        SessionAction::Close@ == SessionActionView::Close,
        SessionAction::Fail(failure)@ == SessionActionView::Fail(failure),
        SessionPhase::Reading@ == SessionPhaseView::Reading,
        SessionPhase::Launching@ == SessionPhaseView::Launching,
        SessionPhase::Forwarding@ == SessionPhaseView::Forwarding,
        SessionPhase::Collecting(info)@ == SessionPhaseView::Collecting(info.deep_view()),
        SessionPhase::Writing@ == SessionPhaseView::Writing,
        SessionPhase::Closed@ == SessionPhaseView::Closed,
        SessionPhase::Failed@ == SessionPhaseView::Failed,
        info.deep_view().len() == info.len(),
        forall|i: int|
            0 <= i < info.len() ==> {
                &&& (#[trigger] info.deep_view()[i]).0 == info[i].0@
                &&& info.deep_view()[i].1 == info[i].1
            },
{
}

/// A session waits for the outcome of its last action, and for nothing else: what it does next can
/// come about, and nothing can come about that it did not ask for.
pub proof fn only_the_outcome_of_the_step_comes(
    pool: PoolState,
    phase: SessionPhaseView,
    event: SessionEventView,
    next: SessionEventView,
)
    requires
        session_accepts(phase, event),
    ensures
        ({
            let step = session_step(pool, phase, event);
            session_accepts(step.phase, next) <==> match step.action {
                SessionActionView::ReadPacket => next is PacketRead || next is ReadFailed,
                SessionActionView::Launch { .. } => next is Launched,
                SessionActionView::Ask { .. } => next is Answered || next is Unanswered,
                SessionActionView::Write(_) => next is Written || next is WriteFailed,
                SessionActionView::Close | SessionActionView::Fail(_) => false,
            }
        }),
        session_accepts(SessionPhaseView::Reading, next) <==> next is PacketRead || next
            is ReadFailed,
{
}

/// A request to add a service is refused exactly when some service of the pool has its name;
/// nothing else counts. Otherwise the service is added as it was sent, behind the others, and the
/// one that is started is that service. Then the client is told of the success.
pub proof fn service_is_added_unless_its_name_is_taken(pool: PoolState, service: ServiceView)
    ensures
        ({
            let taken = exists|i: int|
                0 <= i < pool.threads.len() && (#[trigger] pool.threads[i]).service.name
                    == service.name;
            let step = session_step(
                pool,
                SessionPhaseView::Reading,
                SessionEventView::PacketRead(PacketView::AddService(service)),
            );
            let done = session_step(step.pool, step.phase, SessionEventView::Launched);
            &&& taken ==> {
                &&& step.pool == pool
                &&& step.action == SessionActionView::Write(
                    PacketView::AddServiceResponse(Err("service with that name already exists"@)),
                )
            }
            &&& !taken ==> {
                &&& step.pool.threads.len() == pool.threads.len() + 1
                &&& step.pool.threads.drop_last() == pool.threads
                &&& step.pool.threads.last().service == service
                &&& step.action == SessionActionView::Launch { id: step.pool.threads.last().id }
                &&& step.pool.threads.last().id == pool.next_id
                &&& done.pool == step.pool
                &&& done.action == SessionActionView::Write(
                    PacketView::AddServiceResponse(Ok(())),
                )
            }
        }),
{
    addition_goes_to_the_end(pool, service);
}

/// A command goes to the last service that has the name, as it was sent, and the answer of that
/// service goes to the client as it is. Where no service has the name the client is told so. The
/// pool stays as it is.
pub proof fn command_and_answer_are_passed_on(
    pool: PoolState,
    name: Seq<char>,
    command: ServiceThreadCommand,
    position: int,
    state: ServiceState,
)
    ensures
        ({
            let step = session_step(
                pool,
                SessionPhaseView::Reading,
                SessionEventView::PacketRead(PacketView::RunCommand(name, command)),
            );
            let done = session_step(step.pool, step.phase, SessionEventView::Answered(state));
            let lost = session_step(step.pool, step.phase, SessionEventView::Unanswered);
            &&& step.pool == pool
            &&& 0 <= position < pool.threads.len() && pool.threads[position].service.name == name
                && (forall|j: int|
                position < j < pool.threads.len() ==> (#[trigger] pool.threads[j]).service.name
                    != name) ==> {
                &&& step.action == SessionActionView::Ask {
                    id: pool.threads[position].id,
                    command,
                }
                &&& done.pool == pool
                &&& done.action == SessionActionView::Write(
                    PacketView::RunCommandResponse(Ok(state)),
                )
                &&& lost.pool == pool
                &&& lost.action == SessionActionView::Fail(SessionFailure::NoAnswer)
            }
            &&& (forall|j: int|
                0 <= j < pool.threads.len() ==> (#[trigger] pool.threads[j]).service.name != name)
                ==> step.action == SessionActionView::Write(
                PacketView::RunCommandResponse(Err("couldn't find service"@)),
            )
        }),
{
    name_is_looked_up_everywhere(pool.threads, name);
}

/// The question for all services asks the first one for its status, or is answered with the empty
/// list where there is none. While answers are collected, each is put behind those that came, with
/// the service that gave it; then the next service is asked, and after the last one the client
/// gets the list. A service that does not answer ends the conversation.
pub proof fn status_is_collected_from_each_service(
    pool: PoolState,
    so_far: Seq<(ServiceView, ServiceState)>,
    state: ServiceState,
)
    requires
        so_far.len() < pool.threads.len(),
    ensures
        ({
            let first = session_step(
                pool,
                SessionPhaseView::Reading,
                SessionEventView::PacketRead(PacketView::ServicesInfo()),
            );
            let step = session_step(
                pool,
                SessionPhaseView::Collecting(so_far),
                SessionEventView::Answered(state),
            );
            let lost = session_step(
                pool,
                SessionPhaseView::Collecting(so_far),
                SessionEventView::Unanswered,
            );
            let count = so_far.len() as int;
            let info = so_far.push((pool.threads[count].service, state));
            &&& first.pool == pool
            &&& first.phase == SessionPhaseView::Collecting(Seq::empty())
            &&& first.action == SessionActionView::Ask {
                id: pool.threads[0].id,
                command: ServiceThreadCommand::Status,
            }
            &&& step.pool == pool
            &&& count + 1 == pool.threads.len() ==> step.action == SessionActionView::Write(
                PacketView::ServicesInfoResponse(Ok(info)),
            )
            &&& count + 1 < pool.threads.len() ==> {
                &&& step.phase == SessionPhaseView::Collecting(info)
                &&& step.action == SessionActionView::Ask {
                    id: pool.threads[count + 1].id,
                    command: ServiceThreadCommand::Status,
                }
            }
            &&& lost.pool == pool
            &&& lost.action == SessionActionView::Fail(SessionFailure::NoAnswer)
        }),
{
}

/// A pool without services is shown as the empty list, at once.
pub proof fn nothing_to_ask_without_services(pool: PoolState)
    requires
        pool.threads.len() == 0,
    ensures
        ({
            let step = session_step(
                pool,
                SessionPhaseView::Reading,
                SessionEventView::PacketRead(PacketView::ServicesInfo()),
            );
            &&& step.pool == pool
            &&& step.action == SessionActionView::Write(
                PacketView::ServicesInfoResponse(Ok(Seq::empty())),
            )
        }),
{
}

/// After an answer was delivered the next packet is read; where it was not delivered the
/// conversation breaks down. A client that has gone ends the conversation. None of this changes
/// the pool.
pub proof fn conversation_goes_on_after_an_answer(pool: PoolState)
    ensures
        ({
            let step = session_step(pool, SessionPhaseView::Writing, SessionEventView::Written);
            &&& step.pool == pool
            &&& step.phase is Reading
            &&& step.action == SessionActionView::ReadPacket
        }),
        ({
            let step = session_step(pool, SessionPhaseView::Writing, SessionEventView::WriteFailed);
            &&& step.pool == pool
            &&& step.action == SessionActionView::Fail(SessionFailure::NotDelivered)
        }),
        ({
            let step = session_step(pool, SessionPhaseView::Reading, SessionEventView::ReadFailed);
            &&& step.pool == pool
            &&& step.action == SessionActionView::Close
        }),
{
}

} // verus!
