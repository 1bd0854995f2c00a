use rsm::client::service_for_command;
use rsm::daemon::service_threads::ServiceState;
use rsm::daemon::{RestartOption, Service};
use rsm::status::{alive_for, cells_of, status_table, table_data, ServiceColumn};
use rsm::time::{Elapsed, Timestamp};

fn service(name: &str, restart: RestartOption) -> Service {
    service_for_command(
        "true".to_owned(),
        Some(name.to_owned()),
        None,
        "/".to_owned(),
        Some(restart),
        None,
    )
}

fn state(alive_since: Option<Timestamp>) -> ServiceState {
    ServiceState { alive_since, starts: 3, explicitly_stopped: true }
}

#[test]
fn time_between_two_points() {
    let t = |secs, nanos| Timestamp { secs, nanos };
    assert_eq!(t(5, 3).duration_since(t(5, 3)), Some(Elapsed { secs: 0, nanos: 0 }));
    assert_eq!(t(7, 1).duration_since(t(5, 2)), Some(Elapsed { secs: 1, nanos: 999_999_999 }));
    assert_eq!(t(7, 2).duration_since(t(5, 1)), Some(Elapsed { secs: 2, nanos: 1 }));
    assert_eq!(t(5, 1).duration_since(t(5, 2)), None);
    assert_eq!(t(4, 9).duration_since(t(5, 2)), None);
    assert_eq!(
        t(i64::MAX, 0).duration_since(t(i64::MIN, 0)),
        Some(Elapsed { secs: u64::MAX, nanos: 0 })
    );
}

#[test]
fn time_alive_is_written_out() {
    let since = Timestamp { secs: 100, nanos: 500_000_000 };
    let now = Timestamp { secs: 100 + 3600 + 62, nanos: 502_000_000 };
    assert_eq!(alive_for(&state(Some(since)), now), "1h 1m 2s 2ms");
    assert_eq!(alive_for(&state(Some(now)), now), "0s");
    assert_eq!(alive_for(&state(None), now), "dead");
}

#[test]
fn row_of_a_service() {
    let column = ServiceColumn::new(
        &service("web", RestartOption::OnCrash),
        &state(None),
        Some(40310),
        "2s".to_owned(),
    );
    assert_eq!(
        column.cells(),
        ["web", "/bin/sh", "OnCrash", "2s", "40310", "3", "true"].map(str::to_owned)
    );
}

#[test]
fn numbers_are_decimal() {
    let pid = |n| {
        ServiceColumn::new(&service("a", RestartOption::Never), &state(None), n, String::new()).pid
    };
    assert_eq!(pid(None), "None");
    assert_eq!(pid(Some(0)), "0");
    assert_eq!(pid(Some(9)), "9");
    assert_eq!(pid(Some(10)), "10");
    assert_eq!(pid(Some(u32::MAX)), "4294967295");
}

#[test]
fn restart_options_have_names() {
    let name = |option| {
        ServiceColumn::new(&service("a", option), &state(None), None, String::new()).restarts
    };
    assert_eq!(name(RestartOption::Always), "Always");
    assert_eq!(name(RestartOption::UnlessStopped), "UnlessStopped");
    assert_eq!(name(RestartOption::OnCrash), "OnCrash");
    assert_eq!(name(RestartOption::Never), "Never");
}

#[test]
fn table_has_a_head_and_a_row_for_each_service() {
    let now = Timestamp { secs: 1000, nanos: 0 };
    let info = vec![
        (service("a", RestartOption::Always), state(Some(Timestamp { secs: 995, nanos: 0 }))),
        (service("b", RestartOption::Never), state(None)),
    ];
    let cells = cells_of(&table_data(&info, now));
    assert_eq!(
        cells[0],
        ["name", "executable", "restarts", "alive_for", "pid", "starts", "stopped"]
            .map(str::to_owned)
    );
    assert_eq!(
        cells[1],
        ["a", "/bin/sh", "Always", "5s", "None", "3", "true"].map(str::to_owned)
    );
    assert_eq!(
        cells[2],
        ["b", "/bin/sh", "Never", "dead", "None", "3", "true"].map(str::to_owned)
    );
    assert_eq!(cells.len(), 3);
}

#[test]
fn table_is_drawn_with_round_corners() {
    let now = Timestamp { secs: 1000, nanos: 0 };
    let info = vec![(service("b", RestartOption::Never), state(None))];
    let expected = "\
╭──────┬────────────┬──────────┬───────────┬──────┬────────┬─────────╮
│ name │ executable │ restarts │ alive_for │ pid  │ starts │ stopped │
├──────┼────────────┼──────────┼───────────┼──────┼────────┼─────────┤
│ b    │ /bin/sh    │ Never    │ dead      │ None │ 3      │ true    │
╰──────┴────────────┴──────────┴───────────┴──────┴────────┴─────────╯";
    assert_eq!(status_table(&info, now), expected);
}
