//! The daemon's conversation with one client: which service a request concerns, and what the
//! client is answered.
//!
//! The caller reads a packet, hands it to [`ClientSession::step`], and then carries out each
//! action and hands its outcome to `step`, until it is told to close or to fail. It holds the
//! pool and the counter from one [`SessionAction::ReadPacket`] to the next.
use super::service_threads::{
    has_name, pool_state, position_of, PoolState, ServicePool, ServiceState, ServiceThread,
    ServiceThreadCommand, ServiceThreadView, ThreadCounter,
};
use super::{Service, ServiceView};
use crate::protocol::{Packet, PacketView};
use vstd::prelude::*;

verus! {

/// What the session is waiting for.
#[derive(Debug)]
pub enum SessionPhase {
    /// A packet of the client.
    Reading,
    /// The start of a service that was added.
    Launching,
    /// The answer of a service to a command.
    Forwarding,
    /// The answers of the services to a question for their status; these have answered.
    Collecting(Vec<(Service, ServiceState)>),
    /// The delivery of the answer to the client.
    Writing,
    /// Nothing more: the client has gone. The services are to be saved.
    Closed,
    /// Nothing more: the conversation broke down.
    Failed,
}

/// The contents of a [`SessionPhase`].
pub enum SessionPhaseView {
    Reading,
    Launching,
    Forwarding,
    Collecting(Seq<(ServiceView, ServiceState)>),
    Writing,
    Closed,
    Failed,
}

impl View for SessionPhase {
    type V = SessionPhaseView;

    open spec fn view(&self) -> SessionPhaseView {
        match self {
            SessionPhase::Reading => SessionPhaseView::Reading,
            SessionPhase::Launching => SessionPhaseView::Launching,
            SessionPhase::Forwarding => SessionPhaseView::Forwarding,
            SessionPhase::Collecting(info) => SessionPhaseView::Collecting(info.deep_view()),
            SessionPhase::Writing => SessionPhaseView::Writing,
            SessionPhase::Closed => SessionPhaseView::Closed,
            SessionPhase::Failed => SessionPhaseView::Failed,
        }
    }
}

/// The outcome of an action.
#[derive(Debug)]
pub enum SessionEvent {
    PacketRead(Packet),
    ReadFailed,
    Launched,
    Answered(ServiceState),
    Unanswered,
    Written,
    WriteFailed,
}

/// The contents of a [`SessionEvent`].
pub enum SessionEventView {
    PacketRead(PacketView),
    ReadFailed,
    Launched,
    Answered(ServiceState),
    Unanswered,
    Written,
    WriteFailed,
}

impl View for SessionEvent {
    type V = SessionEventView;

    open spec fn view(&self) -> SessionEventView {
        match self {
            SessionEvent::PacketRead(packet) => SessionEventView::PacketRead(packet@),
            SessionEvent::ReadFailed => SessionEventView::ReadFailed,
            SessionEvent::Launched => SessionEventView::Launched,
            SessionEvent::Answered(state) => SessionEventView::Answered(*state),
            SessionEvent::Unanswered => SessionEventView::Unanswered,
            SessionEvent::Written => SessionEventView::Written,
            SessionEvent::WriteFailed => SessionEventView::WriteFailed,
        }
    }
}

/// Why a conversation broke down.
#[derive(Debug, Clone, Copy, PartialEq, Eq, Structural)]
pub enum SessionFailure {
    /// The client sent an answer in place of a request.
    WrongWay,
    /// A service did not answer.
    NoAnswer,
    /// The answer could not be delivered.
    NotDelivered,
}

/// What the caller does next.
#[derive(Debug)]
pub enum SessionAction {
    /// Read the next packet.
    ReadPacket,
    /// Start the service of this number, the last one of the pool.
    Launch { id: usize },
    /// Send a command to the service of this number, and wait for its answer.
    Ask { id: usize, command: ServiceThreadCommand },
    /// Send a packet to the client.
    Write(Packet),
    /// End the conversation, and save the services.
    Close,
    /// End the conversation.
    Fail(SessionFailure),
}

/// The contents of a [`SessionAction`].
pub enum SessionActionView {
    ReadPacket,
    Launch { id: usize },
    Ask { id: usize, command: ServiceThreadCommand },
    Write(PacketView),
    Close,
    Fail(SessionFailure),
}

impl View for SessionAction {
    type V = SessionActionView;

    open spec fn view(&self) -> SessionActionView {
        match self {
            SessionAction::ReadPacket => SessionActionView::ReadPacket,
            SessionAction::Launch { id } => SessionActionView::Launch { id: *id },
            SessionAction::Ask { id, command } => SessionActionView::Ask {
                id: *id,
                command: *command,
            },
            SessionAction::Write(packet) => SessionActionView::Write(packet@),
            SessionAction::Close => SessionActionView::Close,
            SessionAction::Fail(failure) => SessionActionView::Fail(*failure),
        }
    }
}

/// A session, the pool of services and the counter after an event, and the action that follows.
pub struct SessionStep {
    pub phase: SessionPhaseView,
    pub pool: PoolState,
    pub action: SessionActionView,
}

/// The events that can come while the session is in a phase.
pub open spec fn session_accepts(phase: SessionPhaseView, event: SessionEventView) -> bool {
    match phase {
        SessionPhaseView::Reading => event is PacketRead || event is ReadFailed,
        SessionPhaseView::Launching => event is Launched,
        SessionPhaseView::Forwarding => event is Answered || event is Unanswered,
        SessionPhaseView::Collecting(_) => event is Answered || event is Unanswered,
        SessionPhaseView::Writing => event is Written || event is WriteFailed,
        SessionPhaseView::Closed | SessionPhaseView::Failed => false,
    }
}

/// Whether a phase fits the pool. While answers are collected, those that came are of the first
/// services of the pool, and more services are to answer.
pub open spec fn phase_fits(phase: SessionPhaseView, threads: Seq<ServiceThreadView>) -> bool {
    phase matches SessionPhaseView::Collecting(info) ==> {
        &&& info.len() < threads.len()
        &&& forall|i: int| 0 <= i < info.len() ==> (#[trigger] info[i]).0 == threads[i].service
    }
}

/// The client is answered.
pub open spec fn respond(pool: PoolState, packet: PacketView) -> SessionStep {
    SessionStep {
        phase: SessionPhaseView::Writing,
        pool,
        action: SessionActionView::Write(packet),
    }
}

/// The conversation breaks down.
pub open spec fn fail(pool: PoolState, failure: SessionFailure) -> SessionStep {
    SessionStep { phase: SessionPhaseView::Failed, pool, action: SessionActionView::Fail(failure) }
}

/// A service is added, unless there is one of its name.
pub open spec fn add_service(pool: PoolState, service: ServiceView) -> SessionStep {
    if has_name(pool.threads, service.name) {
        respond(
            pool,
            PacketView::AddServiceResponse(Err("service with that name already exists"@)),
        )
    } else {
        SessionStep {
            phase: SessionPhaseView::Launching,
            pool: pool.added(service),
            action: SessionActionView::Launch { id: pool.next_id },
        }
    }
}

/// A command is passed on to the service of this name, if there is one.
pub open spec fn run_command(
    pool: PoolState,
    name: Seq<char>,
    command: ServiceThreadCommand,
) -> SessionStep {
    match position_of(pool.threads, name) {
        Some(i) => SessionStep {
            phase: SessionPhaseView::Forwarding,
            pool,
            action: SessionActionView::Ask { id: pool.threads[i].id, command },
        },
        None => respond(pool, PacketView::RunCommandResponse(Err("couldn't find service"@))),
    }
}

/// The next service is asked for its status; when all have answered the client gets the list.
pub open spec fn collect(
    pool: PoolState,
    info: Seq<(ServiceView, ServiceState)>,
) -> SessionStep {
    if info.len() == pool.threads.len() {
        respond(pool, PacketView::ServicesInfoResponse(Ok(info)))
    } else {
        SessionStep {
            phase: SessionPhaseView::Collecting(info),
            pool,
            action: SessionActionView::Ask {
                id: pool.threads[info.len() as int].id,
                command: ServiceThreadCommand::Status,
            },
        }
    }
}

/// What follows on a packet of the client.
pub open spec fn receive(pool: PoolState, packet: PacketView) -> SessionStep {
    match packet {
        PacketView::AddService(service) => add_service(pool, service),
        PacketView::RunCommand(name, command) => run_command(pool, name, command),
        PacketView::ServicesInfo() => collect(pool, Seq::empty()),
        _ => fail(pool, SessionFailure::WrongWay),
    }
}

/// What follows on an event.
pub open spec fn session_step(
    pool: PoolState,
    phase: SessionPhaseView,
    event: SessionEventView,
) -> SessionStep {
    match event {
        SessionEventView::PacketRead(packet) => receive(pool, packet),
        SessionEventView::ReadFailed => SessionStep {
            phase: SessionPhaseView::Closed,
            pool,
            action: SessionActionView::Close,
        },
        SessionEventView::Launched => respond(pool, PacketView::AddServiceResponse(Ok(()))),
        SessionEventView::Answered(state) => match phase {
            SessionPhaseView::Collecting(info) => collect(
                pool,
                info.push((pool.threads[info.len() as int].service, state)),
            ),
            _ => respond(pool, PacketView::RunCommandResponse(Ok(state))),
        },
        SessionEventView::Unanswered => fail(pool, SessionFailure::NoAnswer),
        SessionEventView::Written => SessionStep {
            phase: SessionPhaseView::Reading,
            pool,
            action: SessionActionView::ReadPacket,
        },
        SessionEventView::WriteFailed => fail(pool, SessionFailure::NotDelivered),
    }
}

/// The conversation with one client.
#[derive(Debug)]
pub struct ClientSession {
    pub phase: SessionPhase,
}

impl ClientSession {
    /// A session that waits for the first packet of the client.
    pub fn new() -> (session: ClientSession)
        ensures
            session.phase@ == SessionPhaseView::Reading,
    {
        ClientSession { phase: SessionPhase::Reading }
    }

    /// Takes the outcome of the last action, and returns the next one.
    pub fn step(
        &mut self,
        pool: &mut ServicePool,
        counter: &mut ThreadCounter,
        event: SessionEvent,
    ) -> (action: SessionAction)
        requires
            session_accepts(old(self).phase@, event@),
            phase_fits(old(self).phase@, old(pool)@),
        ensures
            (SessionStep {
                phase: final(self).phase@,
                pool: pool_state(*final(pool), *final(counter)),
                action: action@,
            }) == session_step(pool_state(*old(pool), *old(counter)), old(self).phase@, event@),
            phase_fits(final(self).phase@, final(pool)@),
    {
        match event {
            SessionEvent::PacketRead(packet) => self.receive(pool, counter, packet),
            SessionEvent::ReadFailed => {
                self.phase = SessionPhase::Closed;
                SessionAction::Close
            },
            SessionEvent::Launched => self.respond(Packet::AddServiceResponse(Ok(()))),
            SessionEvent::Answered(state) => self.answered(pool, state),
            SessionEvent::Unanswered => {
                self.phase = SessionPhase::Failed;
                SessionAction::Fail(SessionFailure::NoAnswer)
            },
            SessionEvent::Written => {
                self.phase = SessionPhase::Reading;
                SessionAction::ReadPacket
            },
            SessionEvent::WriteFailed => {
                self.phase = SessionPhase::Failed;
                SessionAction::Fail(SessionFailure::NotDelivered)
            },
        }
    }

    /// Answers the client.
    fn respond(&mut self, packet: Packet) -> (action: SessionAction)
        ensures
            final(self).phase@ == SessionPhaseView::Writing,
            action@ == SessionActionView::Write(packet@),
    {
        self.phase = SessionPhase::Writing;
        SessionAction::Write(packet)
    }

    /// Takes up a packet of the client.
    fn receive(
        &mut self,
        pool: &mut ServicePool,
        counter: &mut ThreadCounter,
        packet: Packet,
    ) -> (action: SessionAction)
        ensures
            (SessionStep {
                phase: final(self).phase@,
                pool: pool_state(*final(pool), *final(counter)),
                action: action@,
            }) == receive(pool_state(*old(pool), *old(counter)), packet@),
            phase_fits(final(self).phase@, final(pool)@),
    {
        match packet {
            Packet::AddService(service) => {
                if pool.contains_name(&service.name) {
                    self.respond(
                        Packet::AddServiceResponse(
                            Err("service with that name already exists".to_owned()),
                        ),
                    )
                } else {
                    self.phase = SessionPhase::Launching;
                    let id: usize = ServiceThread::add_to(pool, counter, service);
                    SessionAction::Launch { id }
                }
            },
            Packet::RunCommand(name, command) => {
                match pool.find(&name) {
                    Some(i) => {
                        self.phase = SessionPhase::Forwarding;
                        SessionAction::Ask { id: pool.threads[i].id, command }
                    },
                    None => self.respond(
                        Packet::RunCommandResponse(Err("couldn't find service".to_owned())),
                    ),
                }
            },
            Packet::ServicesInfo() => {
                let info: Vec<(Service, ServiceState)> = Vec::new();
                assert(info.deep_view() =~= Seq::<(ServiceView, ServiceState)>::empty());
                self.collect(pool, info)
            },
            Packet::AddServiceResponse(_)
            | Packet::RunCommandResponse(_)
            | Packet::ServicesInfoResponse(_) => {
                self.phase = SessionPhase::Failed;
                SessionAction::Fail(SessionFailure::WrongWay)
            },
        }
    }

    /// Takes the answer of a service.
    fn answered(&mut self, pool: &ServicePool, state: ServiceState) -> (action: SessionAction)
        requires
            session_accepts(old(self).phase@, SessionEventView::Answered(state)),
            phase_fits(old(self).phase@, pool@),
        ensures
            forall|counter: ThreadCounter|
                (SessionStep {
                    phase: final(self).phase@,
                    pool: pool_state(*pool, counter),
                    action: action@,
                }) == session_step(
                    #[trigger] pool_state(*pool, counter),
                    old(self).phase@,
                    SessionEventView::Answered(state),
                ),
            phase_fits(final(self).phase@, pool@),
    {
        let mut phase = SessionPhase::Writing;
        std::mem::swap(&mut phase, &mut self.phase);
        if let SessionPhase::Collecting(mut info) = phase {
            let ghost before = info.deep_view();
            let service = pool.threads[info.len()].clone_service();
            info.push((service, state));
            assert(info.deep_view() =~= before.push(
                (pool@[before.len() as int].service, state),
            ));
            self.collect(pool, info)
        } else {
            self.respond(Packet::RunCommandResponse(Ok(state)))
        }
    }

    /// Asks the next service for its status, or answers the client when all have answered.
    fn collect(&mut self, pool: &ServicePool, info: Vec<(Service, ServiceState)>) -> (action:
        SessionAction)
        requires
            info.len() <= pool@.len(),
            forall|i: int|
                0 <= i < info.len() ==> (#[trigger] info.deep_view()[i]).0
                    == pool@[i].service,
        ensures
            forall|counter: ThreadCounter|
                (SessionStep {
                    phase: final(self).phase@,
                    pool: pool_state(*pool, counter),
                    action: action@,
                }) == collect(#[trigger] pool_state(*pool, counter), info.deep_view()),
            phase_fits(final(self).phase@, pool@),
    {
        if info.len() == pool.threads.len() {
            self.respond(Packet::ServicesInfoResponse(Ok(info)))
        } else {
            let id: usize = pool.threads[info.len()].id;
            self.phase = SessionPhase::Collecting(info);
            SessionAction::Ask { id, command: ServiceThreadCommand::Status }
        }
    }
}

} // verus!
