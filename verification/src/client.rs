//! What a client asks the daemon, and what it makes of the answer.
use crate::daemon::service_threads::{ServiceState, ServiceThreadCommand};
use crate::daemon::{RestartOption, Service, ServiceView};
use crate::protocol::{Packet, PacketView};
use vstd::prelude::*;
use vstd::string::StrSliceExecFns;

verus! {

/// How many characters of its command a service without a name is named after.
pub const DEFAULT_NAME_LEN: usize = 12;

/// Why a request came to nothing.
#[derive(Debug)]
pub enum ClientError {
    /// There is no answer, or one that does not belong to the request.
    Unreadable,
    /// The daemon refused, with this message.
    Refused(String),
}

/// The contents of a [`ClientError`].
pub enum ClientErrorView {
    Unreadable,
    Refused(Seq<char>),
}

impl View for ClientError {
    type V = ClientErrorView;

    open spec fn view(&self) -> ClientErrorView {
        match self {
            ClientError::Unreadable => ClientErrorView::Unreadable,
            ClientError::Refused(message) => ClientErrorView::Refused(message@),
        }
    }
}

impl ClientError {
    /// What the user is told.
    pub fn message(&self) -> (text: String)
        ensures
            text@ == match self@ {
                ClientErrorView::Unreadable => "failed reading response packet"@,
                ClientErrorView::Refused(message) => message,
            },
    {
        match self {
            ClientError::Unreadable => "failed reading response packet".to_owned(),
            ClientError::Refused(message) => message.clone(),
        }
    }
}

/// The name of a service that was given none: the first characters of its command.
pub open spec fn default_name(command: Seq<char>) -> Seq<char> {
    if command.len() <= DEFAULT_NAME_LEN {
        command
    } else {
        command.take(DEFAULT_NAME_LEN as int)
    }
}

/// The service that runs a shell command.
pub open spec fn shell_service(
    command: Seq<char>,
    name: Option<Seq<char>>,
    cwd: Option<Seq<char>>,
    current_dir: Seq<char>,
    restart: Option<RestartOption>,
    log_file: Option<Seq<char>>,
) -> ServiceView {
    ServiceView {
        name: match name {
            Some(name) => name,
            None => default_name(command),
        },
        executable_path: "/bin/sh"@,
        arguments: seq!["-c"@, command],
        env_vars: Seq::empty(),
        working_directory: match cwd {
            Some(cwd) => cwd,
            None => current_dir,
        },
        restart_option: match restart {
            Some(restart) => restart,
            None => RestartOption::UnlessStopped,
        },
        log_file,
    }
}

fn name_for(command: &String) -> (name: String)
    ensures
        name@ == default_name(command@),
{
    let len: usize = command.as_str().unicode_len();
    if len <= DEFAULT_NAME_LEN {
        command.clone()
    } else {
        let start: &str = command.as_str().substring_char(0, DEFAULT_NAME_LEN);
        assert(start@ =~= command@.take(DEFAULT_NAME_LEN as int));
        start.to_owned()
    }
}

/// The service that runs `command` with `/bin/sh`. Without a name it is named after the command,
/// without a working directory it runs in `current_dir`, and without a restart option it has the
/// default one.
pub fn service_for_command(
    command: String,
    name: Option<String>,
    cwd: Option<String>,
    current_dir: String,
    restart: Option<RestartOption>,
    log_file: Option<String>,
) -> (service: Service)
    ensures
        service@ == shell_service(
            command@,
            name.deep_view(),
            cwd.deep_view(),
            current_dir@,
            restart,
            log_file.deep_view(),
        ),
        service.executable_path@ == "/bin/sh"@,
        service.arguments.len() == 2,
        service.arguments[0]@ == "-c"@,
        service.arguments[1]@ == command@,
        service.env_vars.len() == 0,
        name matches Some(name) ==> service.name@ == name@,
        cwd matches Some(cwd) ==> service.working_directory@ == cwd@,
        cwd is None ==> service.working_directory@ == current_dir@,
        restart matches Some(restart) ==> service.restart_option == restart,
        restart is None ==> service.restart_option == RestartOption::UnlessStopped,
        service.log_file == log_file,
{
    let name: String = match name {
        Some(name) => name,
        None => name_for(&command),
    };
    let mut arguments: Vec<String> = Vec::new();
    arguments.push("-c".to_owned());
    arguments.push(command);
    let service = Service {
        name,
        executable_path: "/bin/sh".to_owned(),
        arguments,
        env_vars: Vec::new(),
        working_directory: cwd.unwrap_or(current_dir),
        restart_option: match restart {
            Some(restart) => restart,
            None => RestartOption::default(),
        },
        log_file,
    };
    assert(service@.arguments =~= seq!["-c"@, command@]);
    assert(service@.env_vars =~= Seq::<(Seq<char>, Seq<char>)>::empty());
    service
}

/// The request to run a command on the service of a name.
pub fn run_command_request(name: String, command: ServiceThreadCommand) -> (packet: Packet)
    ensures
        packet@ == PacketView::RunCommand(name@, command),
{
    Packet::RunCommand(name, command)
}

/// What the client makes of the answer to the request to add a service; `None` stands for an
/// answer that could not be read.
pub open spec fn added(answer: Option<PacketView>) -> Result<(), ClientErrorView> {
    match answer {
        Some(PacketView::AddServiceResponse(Ok(()))) => Ok(()),
        Some(PacketView::AddServiceResponse(Err(message))) => Err(
            ClientErrorView::Refused(message),
        ),
        _ => Err(ClientErrorView::Unreadable),
    }
}

/// What the client makes of the answer to a command.
pub open spec fn commanded(answer: Option<PacketView>) -> Result<ServiceState, ClientErrorView> {
    match answer {
        Some(PacketView::RunCommandResponse(Ok(state))) => Ok(state),
        Some(PacketView::RunCommandResponse(Err(message))) => Err(
            ClientErrorView::Refused(message),
        ),
        _ => Err(ClientErrorView::Unreadable),
    }
}

/// What the client makes of the answer to the question for all services.
pub open spec fn informed(answer: Option<PacketView>) -> Result<
    Seq<(ServiceView, ServiceState)>,
    ClientErrorView,
> {
    match answer {
        Some(PacketView::ServicesInfoResponse(Ok(info))) => Ok(info),
        Some(PacketView::ServicesInfoResponse(Err(message))) => Err(
            ClientErrorView::Refused(message),
        ),
        _ => Err(ClientErrorView::Unreadable),
    }
}

/// The contents of an answer that may be missing.
pub open spec fn answer_view(answer: Option<Packet>) -> Option<PacketView> {
    match answer {
        Some(packet) => Some(packet@),
        None => None,
    }
}

/// Reads the answer to the request to add a service.
pub fn read_added(answer: Option<Packet>) -> (outcome: Result<(), ClientError>)
    ensures
        match outcome {
            Ok(()) => added(answer_view(answer)) == Ok::<(), ClientErrorView>(()),
            Err(error) => added(answer_view(answer)) == Err::<(), ClientErrorView>(error@),
        },
{
    match answer {
        Some(Packet::AddServiceResponse(Ok(()))) => Ok(()),
        Some(Packet::AddServiceResponse(Err(message))) => Err(ClientError::Refused(message)),
        _ => Err(ClientError::Unreadable),
    }
}

/// Reads the answer to a command.
pub fn read_commanded(answer: Option<Packet>) -> (outcome: Result<ServiceState, ClientError>)
    ensures
        match outcome {
            Ok(state) => commanded(answer_view(answer)) == Ok::<ServiceState, ClientErrorView>(
                state,
            ),
            Err(error) => commanded(answer_view(answer)) == Err::<ServiceState, ClientErrorView>(
                error@,
            ),
        },
{
    match answer {
        Some(Packet::RunCommandResponse(Ok(state))) => Ok(state),
        Some(Packet::RunCommandResponse(Err(message))) => Err(ClientError::Refused(message)),
        _ => Err(ClientError::Unreadable),
    }
}

/// Reads the answer to the question for all services.
pub fn read_informed(answer: Option<Packet>) -> (outcome: Result<
    Vec<(Service, ServiceState)>,
    ClientError,
>)
    ensures
        match outcome {
            Ok(info) => informed(answer_view(answer)) == Ok::<
                Seq<(ServiceView, ServiceState)>,
                ClientErrorView,
            >(info.deep_view()),
            Err(error) => informed(answer_view(answer)) == Err::<
                Seq<(ServiceView, ServiceState)>,
                ClientErrorView,
            >(error@),
        },
{
    match answer {
        Some(Packet::ServicesInfoResponse(Ok(info))) => Ok(info),
        Some(Packet::ServicesInfoResponse(Err(message))) => Err(ClientError::Refused(message)),
        _ => Err(ClientError::Unreadable),
    }
}

/// What the user is told when a service was removed.
pub fn removal_notice(name: &str) -> (text: String)
    ensures
        text@ == "Removed service `"@ + name@ + "`"@,
{
    let mut text: String = "Removed service `".to_owned();
    text.append(name);
    text.append("`");
    text
}

/// A service that is given no name is named after the start of its command, in no more than
/// twelve characters.
pub proof fn default_name_is_short(command: Seq<char>)
    ensures
        default_name(command).len() <= DEFAULT_NAME_LEN,
        default_name(command).is_prefix_of(command),
        command.len() >= 12 ==> default_name(command).len() == 12,
        command.len() <= 12 ==> default_name(command) == command,
        command.len() <= DEFAULT_NAME_LEN ==> default_name(command) == command,
{
}

/// The service that is made for a command runs that command with the shell, whatever else is
/// given, and adds nothing to its environment.
pub proof fn service_runs_its_command(
    command: Seq<char>,
    name: Option<Seq<char>>,
    cwd: Option<Seq<char>>,
    current_dir: Seq<char>,
    restart: Option<RestartOption>,
    log_file: Option<Seq<char>>,
)
    ensures
        ({
            let service = shell_service(command, name, cwd, current_dir, restart, log_file);
            &&& service.executable_path == "/bin/sh"@
            &&& service.arguments.len() == 2
            &&& service.arguments[0] == "-c"@
            &&& service.arguments[1] == command
            &&& service.env_vars.len() == 0
        }),
{
}

/// Each option sets what it is for and nothing else: a service that is made with an option differs
/// from the one that is made without in no other field. Without them the service is named after
/// the first twelve characters of its command, runs in the current directory, is restarted unless
/// stopped and has no log file.
pub proof fn each_option_sets_its_own_field(
    command: Seq<char>,
    name: Option<Seq<char>>,
    cwd: Option<Seq<char>>,
    current_dir: Seq<char>,
    restart: Option<RestartOption>,
    log_file: Option<Seq<char>>,
)
    ensures
        ({
            let plain = shell_service(command, None, None, current_dir, None, None);
            let service = shell_service(command, name, cwd, current_dir, restart, log_file);
            &&& plain.name == command.take(
                if command.len() < 12 {
                    command.len() as int
                } else {
                    12
                },
            )
            &&& plain.working_directory == current_dir
            &&& plain.restart_option == RestartOption::UnlessStopped
            &&& plain.log_file is None
            &&& service.executable_path == plain.executable_path
            &&& service.arguments == plain.arguments
            &&& service.env_vars == plain.env_vars
            &&& name is None ==> service.name == plain.name
            &&& name matches Some(given) ==> service.name == given
            &&& cwd is None ==> service.working_directory == plain.working_directory
            &&& cwd matches Some(given) ==> service.working_directory == given
            &&& restart is None ==> service.restart_option == plain.restart_option
            &&& restart matches Some(given) ==> service.restart_option == given
            &&& service.log_file == log_file
        }),
{
    assert(default_name(command) =~= command.take(
        if command.len() < 12 {
            command.len() as int
        } else {
            12
        },
    ));
}

/// The client takes an answer for what the daemon says in it: a success for a success, with all
/// that comes with it, and a refusal for a refusal, with its message.
pub proof fn answer_is_taken_for_what_it_says(
    state: ServiceState,
    info: Seq<(ServiceView, ServiceState)>,
    message: Seq<char>,
)
    ensures
        added(Some(PacketView::AddServiceResponse(Ok(())))) == Ok::<(), ClientErrorView>(()),
        added(Some(PacketView::AddServiceResponse(Err(message)))) == Err::<(), ClientErrorView>(
            ClientErrorView::Refused(message),
        ),
        commanded(Some(PacketView::RunCommandResponse(Ok(state)))) == Ok::<
            ServiceState,
            ClientErrorView,
        >(state),
        commanded(Some(PacketView::RunCommandResponse(Err(message)))) == Err::<
            ServiceState,
            ClientErrorView,
        >(ClientErrorView::Refused(message)),
        informed(Some(PacketView::ServicesInfoResponse(Ok(info)))) == Ok::<
            Seq<(ServiceView, ServiceState)>,
            ClientErrorView,
        >(info),
        informed(Some(PacketView::ServicesInfoResponse(Err(message)))) == Err::<
            Seq<(ServiceView, ServiceState)>,
            ClientErrorView,
        >(ClientErrorView::Refused(message)),
{
}

/// An answer that is missing, or belongs to another request, is no answer: the client neither
/// succeeds nor reports a refusal.
pub proof fn other_answers_are_unreadable(answer: Option<PacketView>)
    ensures
        !(answer matches Some(packet) && packet is AddServiceResponse) ==> added(answer) == Err::<
            (),
            ClientErrorView,
        >(ClientErrorView::Unreadable),
        !(answer matches Some(packet) && packet is RunCommandResponse) ==> commanded(answer)
            == Err::<ServiceState, ClientErrorView>(ClientErrorView::Unreadable),
        !(answer matches Some(packet) && packet is ServicesInfoResponse) ==> informed(answer)
            == Err::<Seq<(ServiceView, ServiceState)>, ClientErrorView>(
            ClientErrorView::Unreadable,
        ),
{
}

/// The contents of an answer are those of its packet, and those of an error its message.
pub proof fn contents_of_an_answer(packet: Packet, message: String)
    ensures
        answer_view(Some(packet)) == Some(packet@),
        answer_view(None) == None::<PacketView>,
        ClientError::Unreadable@ == ClientErrorView::Unreadable,
        ClientError::Refused(message)@ == ClientErrorView::Refused(message@),
{
}

} // verus!
