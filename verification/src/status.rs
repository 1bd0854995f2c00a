//! The table in which a client shows the services.
use crate::daemon::service_threads::ServiceState;
use crate::daemon::{RestartOption, Service, ServiceView};
use crate::time::{Elapsed, Timestamp, NANOS_PER_SEC};
use vstd::prelude::*;

verus! {

/// The text of `humantime::format_duration` for a span of `secs` seconds and `nanos`
/// nanoseconds.
pub uninterp spec fn formatted_duration(secs: u64, nanos: u32) -> Seq<char>;

/// Calls `humantime::format_duration` and turns its result into text. The text depends on the
/// span alone; what it is, nothing here says.
#[verifier::external_body]
fn format_duration(span: Elapsed) -> (text: String)
    requires
        span.wf(),
    ensures
        text@ == formatted_duration(span.secs, span.nanos),
{
    humantime::format_duration(std::time::Duration::new(span.secs, span.nanos)).to_string()
}

/// The text of a table with these rows of cells, drawn by `tabled` in its rounded style.
pub uninterp spec fn rounded_table(rows: Seq<Seq<Seq<char>>>) -> Seq<char>;

/// Calls `tabled::builder::Builder::from` and `build` on the rows of cells, sets the style
/// `tabled::settings::Style::rounded` and turns the table into text. The text depends on the
/// cells alone; how it is drawn, nothing here says.
#[verifier::external_body]
fn draw(rows: Vec<Vec<String>>) -> (text: String)
    ensures
        text@ == rounded_table(rows.deep_view()),
{
    let mut table = tabled::builder::Builder::from(rows).build();
    table.with(tabled::settings::Style::rounded());
    table.to_string()
}

/// One row of the table.
#[derive(Debug)]
pub struct ServiceColumn {
    pub name: String,
    pub executable: String,
    pub restarts: String,
    pub alive_for: String,
    pub pid: String,
    pub starts: usize,
    pub stopped: bool,
}

/// The contents of a [`ServiceColumn`].
pub struct ServiceColumnView {
    pub name: Seq<char>,
    pub executable: Seq<char>,
    pub restarts: Seq<char>,
    pub alive_for: Seq<char>,
    pub pid: Seq<char>,
    pub starts: usize,
    pub stopped: bool,
}

impl View for ServiceColumn {
    type V = ServiceColumnView;

    open spec fn view(&self) -> ServiceColumnView {
        ServiceColumnView {
            name: self.name@,
            executable: self.executable@,
            restarts: self.restarts@,
            alive_for: self.alive_for@,
            pid: self.pid@,
            starts: self.starts,
            stopped: self.stopped,
        }
    }
}

impl DeepView for ServiceColumn {
    type V = ServiceColumnView;

    open spec fn deep_view(&self) -> ServiceColumnView {
        self@
    }
}

/// The decimal digits of a number.
pub open spec fn decimal(n: nat) -> Seq<char>
    decreases n,
{
    if n < 10 {
        seq![(48 + n) as char]
    } else {
        decimal(n / 10).push((48 + n % 10) as char)
    }
}

/// The name of a restart option.
pub open spec fn restart_name(option: RestartOption) -> Seq<char> {
    match option {
        RestartOption::Always => "Always"@,
        RestartOption::UnlessStopped => "UnlessStopped"@,
        RestartOption::OnCrash => "OnCrash"@,
        RestartOption::Never => "Never"@,
    }
}

/// The text for the number of a process that may be missing.
pub open spec fn pid_text(pid: Option<u32>) -> Seq<char> {
    match pid {
        Some(pid) => decimal(pid as nat),
        None => "None"@,
    }
}

/// How long a process has been alive, as text; `dead` where there is none.
pub open spec fn alive_text(alive_since: Option<Timestamp>, now: Timestamp) -> Seq<char> {
    match alive_since {
        Some(since) => {
            let nanos = now.total_nanos() - since.total_nanos();
            formatted_duration(
                (nanos / NANOS_PER_SEC as int) as u64,
                (nanos % NANOS_PER_SEC as int) as u32,
            )
        },
        None => "dead"@,
    }
}

/// The row of a service, with the text for how long its process has been alive.
pub open spec fn row(
    service: ServiceView,
    state: ServiceState,
    pid: Option<u32>,
    alive_for: Seq<char>,
) -> ServiceColumnView {
    ServiceColumnView {
        name: service.name,
        executable: service.executable_path,
        restarts: restart_name(service.restart_option),
        alive_for,
        pid: pid_text(pid),
        starts: state.starts,
        stopped: state.explicitly_stopped,
    }
}

/// The cells at the head of the table.
pub open spec fn head_cells() -> Seq<Seq<char>> {
    seq![
        "name"@,
        "executable"@,
        "restarts"@,
        "alive_for"@,
        "pid"@,
        "starts"@,
        "stopped"@,
    ]
}

impl ServiceColumnView {
    /// The cells of the row.
    pub open spec fn cells(self) -> Seq<Seq<char>> {
        seq![
            self.name,
            self.executable,
            self.restarts,
            self.alive_for,
            self.pid,
            decimal(self.starts as nat),
            if self.stopped {
                "true"@
            } else {
                "false"@
            },
        ]
    }
}

/// The cells of the whole table.
pub open spec fn table_cells(rows: Seq<ServiceColumnView>) -> Seq<Seq<Seq<char>>> {
    seq![head_cells()] + rows.map_values(|row: ServiceColumnView| row.cells())
}

/// The rows of services at a time, in their order. The numbers of the processes are not known.
pub open spec fn rows_at(
    info: Seq<(ServiceView, ServiceState)>,
    now: Timestamp,
) -> Seq<ServiceColumnView> {
    info.map_values(
        |entry: (ServiceView, ServiceState)|
            row(entry.0, entry.1, None, alive_text(entry.1.alive_since, now)),
    )
}

/// Whether a state can be shown at a time: its process was not started later.
pub open spec fn showable(state: ServiceState, now: Timestamp) -> bool {
    &&& now.wf()
    &&& state.alive_since matches Some(since) ==> since.wf() && since.total_nanos()
        <= now.total_nanos()
}

fn digit(d: usize) -> (text: &'static str)
    requires
        d < 10,
    ensures
        text@ == seq![(48 + d) as char],
{
    proof {
        reveal_strlit("0");
        reveal_strlit("1");
        reveal_strlit("2");
        reveal_strlit("3");
        reveal_strlit("4");
        reveal_strlit("5");
        reveal_strlit("6");
        reveal_strlit("7");
        reveal_strlit("8");
        reveal_strlit("9");
    }
    let text: &'static str = match d {
        0 => "0",
        1 => "1",
        2 => "2",
        3 => "3",
        4 => "4",
        5 => "5",
        6 => "6",
        7 => "7",
        8 => "8",
        _ => "9",
    };
    assert(text@ =~= seq![(48 + d) as char]);
    text
}

fn to_decimal(n: usize) -> (text: String)
    ensures
        text@ == decimal(n as nat),
    decreases n,
{
    if n < 10 {
        digit(n).to_owned()
    } else {
        let mut text: String = to_decimal(n / 10);
        let ghost front = text@;
        text.append(digit(n % 10));
        assert(text@ =~= front.push((48 + n % 10) as char));
        text
    }
}

fn name_of(option: RestartOption) -> (name: &'static str)
    ensures
        name@ == restart_name(option),
{
    match option {
        RestartOption::Always => "Always",
        RestartOption::UnlessStopped => "UnlessStopped",
        RestartOption::OnCrash => "OnCrash",
        RestartOption::Never => "Never",
    }
}

/// How long the process of a service has been alive at `now`, as text; `dead` where there is no
/// live process.
pub fn alive_for(state: &ServiceState, now: Timestamp) -> (text: String)
    requires
        showable(*state, now),
    ensures
        text@ == alive_text(state.alive_since, now),
{
    match state.alive_since {
        Some(since) => {
            match now.duration_since(since) {
                Some(span) => {
                    proof {
                        let nanos = now.total_nanos() - since.total_nanos();
                        vstd::arithmetic::div_mod::lemma_fundamental_div_mod_converse(
                            nanos,
                            NANOS_PER_SEC as int,
                            span.secs as int,
                            span.nanos as int,
                        );
                    }
                    format_duration(span)
                },
                None => "dead".to_owned(),
            }
        },
        None => "dead".to_owned(),
    }
}

impl ServiceColumn {
    /// The row of a service, with the text for how long its process has been alive.
    pub fn new(
        service: &Service,
        state: &ServiceState,
        pid: Option<u32>,
        alive_for: String,
    ) -> (column: ServiceColumn)
        ensures
            column@ == row(service@, *state, pid, alive_for@),
    {
        ServiceColumn {
            name: service.name.clone(),
            executable: service.executable_path.clone(),
            restarts: name_of(service.restart_option).to_owned(),
            alive_for,
            pid: match pid {
                Some(pid) => to_decimal(pid as usize),
                None => "None".to_owned(),
            },
            starts: state.starts,
            stopped: state.explicitly_stopped,
        }
    }

    /// The cells of the row.
    pub fn cells(&self) -> (cells: Vec<String>)
        ensures
            cells.deep_view() == self@.cells(),
    {
        let mut cells: Vec<String> = Vec::new();
        cells.push(self.name.clone());
        cells.push(self.executable.clone());
        cells.push(self.restarts.clone());
        cells.push(self.alive_for.clone());
        cells.push(self.pid.clone());
        cells.push(to_decimal(self.starts));
        if self.stopped {
            cells.push("true".to_owned());
        } else {
            cells.push("false".to_owned());
        }
        assert(cells.deep_view() =~= self@.cells());
        cells
    }
}

/// The rows of the services at `now`, in their order. The daemon does not tell the numbers of
/// the processes.
pub fn table_data(info: &Vec<(Service, ServiceState)>, now: Timestamp) -> (rows: Vec<
    ServiceColumn,
>)
    requires
        forall|i: int| 0 <= i < info.len() ==> showable((#[trigger] info[i]).1, now),
    ensures
        rows.deep_view() == rows_at(info.deep_view(), now),
{
    let mut rows: Vec<ServiceColumn> = Vec::new();
    let mut i: usize = 0;
    while i < info.len()
        invariant
            i <= info.len(),
            rows.len() == i,
            forall|j: int| 0 <= j < info.len() ==> showable((#[trigger] info[j]).1, now),
            forall|j: int|
                0 <= j < i ==> (#[trigger] rows[j])@ == rows_at(info.deep_view(), now)[j],
        decreases info.len() - i,
    {
        let text: String = alive_for(&info[i].1, now);
        rows.push(ServiceColumn::new(&info[i].0, &info[i].1, None, text));
        i += 1;
    }
    assert(rows.deep_view() =~= rows_at(info.deep_view(), now));
    rows
}

/// The cells of the whole table: its head, and one row for each service.
pub fn cells_of(rows: &Vec<ServiceColumn>) -> (cells: Vec<Vec<String>>)
    ensures
        cells.deep_view() == table_cells(rows.deep_view()),
{
    let mut head: Vec<String> = Vec::new();
    head.push("name".to_owned());
    head.push("executable".to_owned());
    head.push("restarts".to_owned());
    head.push("alive_for".to_owned());
    head.push("pid".to_owned());
    head.push("starts".to_owned());
    head.push("stopped".to_owned());
    assert(head.deep_view() =~= head_cells());
    let mut cells: Vec<Vec<String>> = Vec::new();
    cells.push(head);
    let mut i: usize = 0;
    while i < rows.len()
        invariant
            i <= rows.len(),
            cells.len() == i + 1,
            cells[0].deep_view() == head_cells(),
            forall|j: int|
                1 <= j <= i ==> (#[trigger] cells[j]).deep_view() == rows[j - 1]@.cells(),
        decreases rows.len() - i,
    {
        cells.push(rows[i].cells());
        i += 1;
    }
    assert(cells.deep_view() =~= table_cells(rows.deep_view()));
    cells
}

/// The table of the services at `now`, as text.
pub fn status_table(info: &Vec<(Service, ServiceState)>, now: Timestamp) -> (text: String)
    requires
        forall|i: int| 0 <= i < info.len() ==> showable((#[trigger] info[i]).1, now),
    ensures
        text@ == rounded_table(table_cells(rows_at(info.deep_view(), now))),
{
    draw(cells_of(&table_data(info, now)))
}

/// The number that a text of decimal digits stands for.
pub open spec fn number_of(text: Seq<char>) -> int
    decreases text.len(),
{
    if text.len() == 0 {
        0
    } else {
        number_of(text.drop_last()) * 10 + (text.last() as int - '0' as int)
    }
}

/// A number is written in decimal digits that stand for it, without a zero in front.
pub proof fn digits_stand_for_the_number(n: nat)
    ensures
        number_of(decimal(n)) == n,
        decimal(n).len() > 0,
        decimal(n).len() > 1 ==> decimal(n)[0] != '0',
        n > 0 ==> decimal(n)[0] != '0',
        forall|i: int| 0 <= i < decimal(n).len() ==> '0' <= #[trigger] decimal(n)[i] <= '9',
    decreases n,
{
    if n < 10 {
        assert(decimal(n).drop_last() =~= Seq::<char>::empty());
        reveal_with_fuel(number_of, 2);
    } else {
        digits_stand_for_the_number(n / 10);
        assert(decimal(n).drop_last() =~= decimal(n / 10));
        assert(decimal(n)[0] == decimal(n / 10)[0]);
    }
}

/// The table has a head and one row for each service, in their order.
pub proof fn table_has_a_row_for_each_service(
    info: Seq<(ServiceView, ServiceState)>,
    now: Timestamp,
)
    ensures
        ({
            let cells = table_cells(rows_at(info, now));
            &&& cells.len() == info.len() + 1
            &&& forall|i: int| 0 <= i < cells.len() ==> (#[trigger] cells[i]).len() == 7
            &&& cells[0][0] == "name"@
            &&& cells[0][1] == "executable"@
            &&& cells[0][2] == "restarts"@
            &&& cells[0][3] == "alive_for"@
            &&& cells[0][4] == "pid"@
            &&& cells[0][5] == "starts"@
            &&& cells[0][6] == "stopped"@
        }),
{
}

/// The row of a service shows the service: its name, its executable, its restart option by name,
/// how often it was started, and whether it is stopped. The number of its process is not known.
pub proof fn row_shows_the_service(
    info: Seq<(ServiceView, ServiceState)>,
    now: Timestamp,
    i: int,
)
    requires
        0 <= i < info.len(),
    ensures
        ({
            let cells = table_cells(rows_at(info, now))[i + 1];
            let service = info[i].0;
            let state = info[i].1;
            &&& cells[0] == service.name
            &&& cells[1] == service.executable_path
            &&& service.restart_option == RestartOption::Always ==> cells[2] == "Always"@
            &&& service.restart_option == RestartOption::UnlessStopped ==> cells[2]
                == "UnlessStopped"@
            &&& service.restart_option == RestartOption::OnCrash ==> cells[2] == "OnCrash"@
            &&& service.restart_option == RestartOption::Never ==> cells[2] == "Never"@
            &&& cells[4] == "None"@
            &&& cells[5] == decimal(state.starts as nat)
            &&& number_of(cells[5]) == state.starts
            &&& state.explicitly_stopped ==> cells[6] == "true"@
            &&& !state.explicitly_stopped ==> cells[6] == "false"@
        }),
{
    digits_stand_for_the_number(info[i].1.starts as nat);
}

/// The row of a service that is alive shows the time from the start of its process to now, and
/// that of any other service says that it is dead.
pub proof fn row_shows_the_time_alive(
    info: Seq<(ServiceView, ServiceState)>,
    now: Timestamp,
    i: int,
    span: Elapsed,
)
    requires
        0 <= i < info.len(),
        span.nanos < 1_000_000_000,
        info[i].1.alive_since matches Some(since) ==> since.secs * 1_000_000_000 + since.nanos
            + span.secs * 1_000_000_000 + span.nanos == now.secs * 1_000_000_000 + now.nanos,
    ensures
        table_cells(rows_at(info, now))[i + 1][3] == if info[i].1.alive_since is Some {
            formatted_duration(span.secs, span.nanos)
        } else {
            "dead"@
        },
        alive_text(info[i].1.alive_since, now) == table_cells(rows_at(info, now))[i + 1][3],
{
    if let Some(since) = info[i].1.alive_since {
        vstd::arithmetic::div_mod::lemma_fundamental_div_mod_converse(
            now.total_nanos() - since.total_nanos(),
            1_000_000_000,
            span.secs as int,
            span.nanos as int,
        );
    }
}

/// A single row shows what it is made of: the service, its state, the number of its process where
/// it is known, and the text for the time that it has been alive.
pub proof fn row_is_made_of_its_parts(
    service: ServiceView,
    state: ServiceState,
    pid: Option<u32>,
    alive_for: Seq<char>,
)
    ensures
        ({
            let column = row(service, state, pid, alive_for);
            &&& column.cells().len() == 7
            &&& column.name == service.name
            &&& column.cells()[0] == service.name
            &&& column.executable == service.executable_path
            &&& column.cells()[1] == service.executable_path
            &&& column.restarts == column.cells()[2]
            &&& service.restart_option == RestartOption::Always ==> column.restarts == "Always"@
            &&& service.restart_option == RestartOption::UnlessStopped ==> column.restarts
                == "UnlessStopped"@
            &&& service.restart_option == RestartOption::OnCrash ==> column.restarts == "OnCrash"@
            &&& service.restart_option == RestartOption::Never ==> column.restarts == "Never"@
            &&& column.alive_for == alive_for
            &&& column.cells()[3] == alive_for
            &&& column.pid == column.cells()[4]
            &&& pid is None ==> column.pid == "None"@
            &&& pid matches Some(number) ==> column.pid == decimal(number as nat)
            &&& column.starts == state.starts
            &&& column.cells()[5] == decimal(state.starts as nat)
            &&& column.stopped == state.explicitly_stopped
            &&& column.cells()[6] == if state.explicitly_stopped {
                "true"@
            } else {
                "false"@
            }
        }),
{
}

/// The cells of a table are those of its rows, each row as it is, below the head.
pub proof fn table_shows_its_rows(rows: Seq<ServiceColumnView>, i: int)
    requires
        0 <= i < rows.len(),
    ensures
        ({
            let cells = table_cells(rows)[i + 1];
            &&& table_cells(rows).len() == rows.len() + 1
            &&& cells.len() == 7
            &&& cells[0] == rows[i].name
            &&& cells[1] == rows[i].executable
            &&& cells[2] == rows[i].restarts
            &&& cells[3] == rows[i].alive_for
            &&& cells[4] == rows[i].pid
            &&& cells[5] == decimal(rows[i].starts as nat)
            &&& cells[6] == if rows[i].stopped {
                "true"@
            } else {
                "false"@
            }
        }),
{
}

/// The contents of a row leave nothing out.
pub proof fn contents_of_a_row(column: ServiceColumn)
    ensures
        column@.name == column.name@,
        column@.executable == column.executable@,
        column@.restarts == column.restarts@,
        column@.alive_for == column.alive_for@,
        column@.pid == column.pid@,
        column@.starts == column.starts,
        column@.stopped == column.stopped,
        column.deep_view() == column@,
{
}

/// A state can be shown at every moment at which its process was already started, and that of a
/// service without a process at any moment.
pub proof fn state_is_shown_from_its_start_on(state: ServiceState, now: Timestamp)
    requires
        now.nanos < 1_000_000_000,
    ensures
        state.alive_since is None ==> showable(state, now),
        state.alive_since matches Some(since) ==> (showable(state, now) <==> since.nanos
            < 1_000_000_000 && since.secs * 1_000_000_000 + since.nanos <= now.secs
            * 1_000_000_000 + now.nanos),
{
}

} // verus!
