//! What the daemon knows of a service, and how it starts one.
use vstd::prelude::*;

pub mod pool_laws;
pub mod service_threads;
pub mod session;
pub mod session_laws;
pub mod supervisor;
pub mod supervisor_laws;

verus! {

/// When the process of a service is started again after it has ended.
#[derive(Debug, Clone, Copy, PartialEq, Eq, Structural)]
pub enum RestartOption {
    Always,
    UnlessStopped,
    OnCrash,
    Never,
}

impl Default for RestartOption {
    fn default() -> (option: Self)
        ensures
            option == RestartOption::UnlessStopped,
    {
        RestartOption::UnlessStopped
    }
}

/// A service: the command that its process runs, and how to run it. Paths are text.
#[derive(Debug)]
pub struct Service {
    pub name: String,
    pub executable_path: String,
    pub arguments: Vec<String>,
    pub env_vars: Vec<(String, String)>,
    pub working_directory: String,
    pub restart_option: RestartOption,
    /// The default is `/tmp/rsm-[NAME].log`.
    pub log_file: Option<String>,
}

/// The contents of a [`Service`].
#[verifier::ext_equal]
pub struct ServiceView {
    pub name: Seq<char>,
    pub executable_path: Seq<char>,
    pub arguments: Seq<Seq<char>>,
    pub env_vars: Seq<(Seq<char>, Seq<char>)>,
    pub working_directory: Seq<char>,
    pub restart_option: RestartOption,
    pub log_file: Option<Seq<char>>,
}

impl View for Service {
    type V = ServiceView;

    open spec fn view(&self) -> ServiceView {
        ServiceView {
            name: self.name@,
            executable_path: self.executable_path@,
            arguments: self.arguments.deep_view(),
            env_vars: self.env_vars.deep_view(),
            working_directory: self.working_directory@,
            restart_option: self.restart_option,
            log_file: self.log_file.deep_view(),
        }
    }
}

impl DeepView for Service {
    type V = ServiceView;

    open spec fn deep_view(&self) -> ServiceView {
        self@
    }
}

fn clone_strings(list: &Vec<String>) -> (copy: Vec<String>)
    ensures
        copy.deep_view() == list.deep_view(),
{
    let mut copy: Vec<String> = Vec::new();
    let mut i: usize = 0;
    while i < list.len()
        invariant
            i <= list.len(),
            copy.len() == i,
            forall|j: int| 0 <= j < i ==> (#[trigger] copy[j]).deep_view() == list[j].deep_view(),
        decreases list.len() - i,
    {
        copy.push(list[i].clone());
        i += 1;
    }
    assert(copy.deep_view() =~= list.deep_view());
    copy
}

fn clone_pairs(list: &Vec<(String, String)>) -> (copy: Vec<(String, String)>)
    ensures
        copy.deep_view() == list.deep_view(),
{
    let mut copy: Vec<(String, String)> = Vec::new();
    let mut i: usize = 0;
    while i < list.len()
        invariant
            i <= list.len(),
            copy.len() == i,
            forall|j: int| 0 <= j < i ==> (#[trigger] copy[j]).deep_view() == list[j].deep_view(),
        decreases list.len() - i,
    {
        copy.push((list[i].0.clone(), list[i].1.clone()));
        i += 1;
    }
    assert(copy.deep_view() =~= list.deep_view());
    copy
}

impl Clone for Service {
    fn clone(&self) -> (copy: Self)
        ensures
            copy@ == self@,
    {
        Service {
            name: self.name.clone(),
            executable_path: self.executable_path.clone(),
            arguments: clone_strings(&self.arguments),
            env_vars: clone_pairs(&self.env_vars),
            working_directory: self.working_directory.clone(),
            restart_option: self.restart_option,
            log_file: match &self.log_file {
                Some(path) => Some(path.clone()),
                None => None,
            },
        }
    }
}

/// How to start the process of a service. Its standard input is empty, its standard output and
/// standard error are appended to the file at `log`, which is created where it is not there.
#[derive(Debug)]
pub struct SpawnPlan {
    pub program: String,
    pub arguments: Vec<String>,
    pub env_vars: Vec<(String, String)>,
    pub working_directory: String,
    pub log: String,
}

/// The path of a service's log: its own log file where it has one, otherwise the default.
pub open spec fn log_target(service: ServiceView) -> Seq<char> {
    match service.log_file {
        Some(path) => path,
        None => "/tmp/rsm-"@ + service.name + ".log"@,
    }
}

impl Service {
    /// How to start this service.
    pub fn spawn_plan(&self) -> (plan: SpawnPlan)
        ensures
            plan.program@ == self@.executable_path,
            plan.arguments.deep_view() == self@.arguments,
            plan.env_vars.deep_view() == self@.env_vars,
            plan.working_directory@ == self@.working_directory,
            plan.log@ == log_target(self@),
    {
        SpawnPlan {
            program: self.executable_path.clone(),
            arguments: clone_strings(&self.arguments),
            env_vars: clone_pairs(&self.env_vars),
            working_directory: self.working_directory.clone(),
            log: self.choose_log(),
        }
    }

    fn choose_log(&self) -> (log: String)
        ensures
            log@ == log_target(self@),
    {
        match &self.log_file {
            Some(path) => path.clone(),
            None => {
                let mut path: String = "/tmp/rsm-".to_owned();
                path.append(self.name.as_str());
                path.append(".log");
                path
            },
        }
    }
}

/// The contents of a service leave nothing out.
pub proof fn contents_of_a_service(service: Service)
    ensures
        service@.name == service.name@,
        service@.executable_path == service.executable_path@,
        service@.arguments.len() == service.arguments.len(),
        forall|i: int|
            0 <= i < service.arguments.len() ==> #[trigger] service@.arguments[i]
                == service.arguments[i]@,
        service@.env_vars.len() == service.env_vars.len(),
        forall|i: int|
            0 <= i < service.env_vars.len() ==> {
                &&& (#[trigger] service@.env_vars[i]).0 == service.env_vars[i].0@
                &&& service@.env_vars[i].1 == service.env_vars[i].1@
            },
        service@.working_directory == service.working_directory@,
        service@.restart_option == service.restart_option,
        service@.log_file is Some <==> service.log_file is Some,
        service.log_file matches Some(path) ==> service@.log_file == Some(path@),
        service.deep_view() == service@,
{
}

/// A log file that is set is the log, whatever the service is called. A service without one has a
/// log of its own name in `/tmp`, so that services of different names have different logs.
pub proof fn log_is_the_one_that_is_set(service: ServiceView, other: ServiceView)
    ensures
        service.log_file matches Some(path) ==> log_target(service) == path,
        service.log_file is None ==> log_target(service) == "/tmp/rsm-"@ + service.name + ".log"@,
        service.log_file is None && other.log_file is None && service.name != other.name
            ==> log_target(service) != log_target(other),
{
    if service.log_file is None && other.log_file is None && log_target(service) == log_target(
        other,
    ) {
        let start = "/tmp/rsm-"@.len() as int;
        let end = ".log"@.len();
        let one = log_target(service);
        assert(service.name =~= one.subrange(start, one.len() - end));
        assert(other.name =~= one.subrange(start, one.len() - end));
    }
}

} // verus!
