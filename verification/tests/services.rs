use rsm::daemon::service_threads::{ServicePool, ServiceThread, ThreadCounter};
use rsm::daemon::{RestartOption, Service};

fn service(name: &str) -> Service {
    Service {
        name: name.to_owned(),
        executable_path: "/bin/sh".to_owned(),
        arguments: vec!["-c".to_owned(), "sleep 1".to_owned()],
        env_vars: vec![("KEY".to_owned(), "value".to_owned())],
        working_directory: "/srv".to_owned(),
        restart_option: RestartOption::OnCrash,
        log_file: None,
    }
}

fn names(pool: &ServicePool) -> Vec<(String, usize)> {
    pool.threads.iter().map(|t| (t.service.name.clone(), t.id)).collect()
}

#[test]
fn default_restart_option() {
    assert_eq!(RestartOption::default(), RestartOption::UnlessStopped);
}

#[test]
fn plan_holds_the_service() {
    let plan = service("web").spawn_plan();
    assert_eq!(plan.program, "/bin/sh");
    assert_eq!(plan.arguments, vec!["-c".to_owned(), "sleep 1".to_owned()]);
    assert_eq!(plan.env_vars, vec![("KEY".to_owned(), "value".to_owned())]);
    assert_eq!(plan.working_directory, "/srv");
}

#[test]
fn log_goes_to_the_default_without_a_log_file() {
    assert_eq!(service("web").spawn_plan().log, "/tmp/rsm-web.log");
    assert_eq!(service("").spawn_plan().log, "/tmp/rsm-.log");
}

#[test]
fn log_goes_to_the_log_file_that_is_set() {
    let mut s = service("web");
    for path in ["/var/log/web.log", "/there/is/no/such/file", "relative.log", ""] {
        s.log_file = Some(path.to_owned());
        assert_eq!(s.spawn_plan().log, path);
    }
}

#[test]
fn clone_keeps_every_field() {
    let mut s = service("web");
    s.log_file = Some("x".to_owned());
    let c = s.clone();
    assert_eq!(c.name, s.name);
    assert_eq!(c.executable_path, s.executable_path);
    assert_eq!(c.arguments, s.arguments);
    assert_eq!(c.env_vars, s.env_vars);
    assert_eq!(c.working_directory, s.working_directory);
    assert_eq!(c.restart_option, s.restart_option);
    assert_eq!(c.log_file, s.log_file);
}

#[test]
fn services_get_consecutive_numbers() {
    let mut pool = ServicePool::new();
    let mut counter = ThreadCounter::new();
    assert_eq!(ServiceThread::add_to(&mut pool, &mut counter, service("a")), 0);
    assert_eq!(ServiceThread::add_to(&mut pool, &mut counter, service("b")), 1);
    assert_eq!(names(&pool), vec![("a".to_owned(), 0), ("b".to_owned(), 1)]);
    assert_eq!(counter.next_id, 2);
    assert_eq!(pool.threads[1].clone_service().name, "b");
}

#[test]
fn numbers_start_over() {
    let mut pool = ServicePool { threads: vec![] };
    let mut counter = ThreadCounter { next_id: usize::MAX };
    assert_eq!(ServiceThread::add_to(&mut pool, &mut counter, service("a")), usize::MAX);
    assert_eq!(counter.next_id, 0);
}

#[test]
fn services_are_found_by_name() {
    let mut pool = ServicePool::new();
    let mut counter = ThreadCounter::new();
    for name in ["a", "b", "a"] {
        ServiceThread::add_to(&mut pool, &mut counter, service(name));
    }
    assert!(pool.contains_name(&"a".to_owned()));
    assert!(!pool.contains_name(&"c".to_owned()));
    assert_eq!(pool.find(&"a".to_owned()), Some(2));
    assert_eq!(pool.find(&"b".to_owned()), Some(1));
    assert_eq!(pool.find(&"c".to_owned()), None);
}

#[test]
fn removal_keeps_the_order() {
    let mut pool = ServicePool::new();
    let mut counter = ThreadCounter::new();
    for name in ["a", "b", "c"] {
        ServiceThread::add_to(&mut pool, &mut counter, service(name));
    }
    pool.remove(7);
    assert_eq!(pool.threads.len(), 3);
    pool.remove(1);
    assert_eq!(names(&pool), vec![("a".to_owned(), 0), ("c".to_owned(), 2)]);
    assert_eq!(counter.next_id, 3);
}

#[test]
fn removal_takes_out_all_of_a_number() {
    let mut pool = ServicePool::new();
    let mut counter = ThreadCounter::new();
    for name in ["a", "b", "c"] {
        ServiceThread::add_to(&mut pool, &mut counter, service(name));
    }
    pool.threads[2].id = 0;
    pool.remove(0);
    assert_eq!(names(&pool), vec![("b".to_owned(), 1)]);
}

#[test]
fn restored_services_are_those_saved() {
    let mut pool = ServicePool::new();
    let mut counter = ThreadCounter::new();
    for name in ["a", "b"] {
        ServiceThread::add_to(&mut pool, &mut counter, service(name));
    }
    pool.remove(0);
    let saved = pool.services();
    let mut next = ServicePool::new();
    let mut counter = ThreadCounter::new();
    next.restore(&mut counter, &saved);
    next.restore(&mut counter, &vec![service("z")]);
    assert_eq!(names(&next), vec![("b".to_owned(), 0), ("z".to_owned(), 1)]);
}

#[test]
fn removal_undoes_an_addition() {
    let mut pool = ServicePool::new();
    let mut counter = ThreadCounter::new();
    ServiceThread::add_to(&mut pool, &mut counter, service("a"));
    let before = names(&pool);
    let id = ServiceThread::add_to(&mut pool, &mut counter, service("b"));
    pool.remove(id);
    assert_eq!(names(&pool), before);
    assert_eq!(ServiceThread::add_to(&mut pool, &mut counter, service("c")), 2);
}

#[test]
fn equal_services_are_told_apart() {
    for gone in 0..2usize {
        let mut pool = ServicePool::new();
        let mut counter = ThreadCounter::new();
        assert_eq!(ServiceThread::add_to(&mut pool, &mut counter, service("a")), 0);
        assert_eq!(ServiceThread::add_to(&mut pool, &mut counter, service("a")), 1);
        pool.remove(gone);
        assert_eq!(names(&pool), vec![("a".to_owned(), 1 - gone)]);
    }
}

#[test]
fn numbers_of_removed_services_stay_taken() {
    let mut pool = ServicePool::new();
    let mut counter = ThreadCounter::new();
    for expected in 0..4usize {
        let id = ServiceThread::add_to(&mut pool, &mut counter, service("a"));
        assert_eq!(id, expected);
        pool.remove(id);
        assert!(pool.threads.is_empty());
    }
}

#[test]
fn pools_of_one_counter_share_no_number() {
    let mut counter = ThreadCounter::new();
    let mut first = ServicePool::new();
    let mut second = ServicePool::new();
    assert_eq!(ServiceThread::add_to(&mut first, &mut counter, service("a")), 0);
    assert_eq!(ServiceThread::add_to(&mut second, &mut counter, service("a")), 1);
    first.remove(0);
    assert_eq!(ServiceThread::add_to(&mut first, &mut counter, service("b")), 2);
    assert_eq!(names(&first), vec![("b".to_owned(), 2)]);
    assert_eq!(names(&second), vec![("a".to_owned(), 1)]);
}

#[test]
fn counter_gives_consecutive_numbers() {
    let mut counter = ThreadCounter::new();
    assert_eq!(counter.take(), 0);
    assert_eq!(counter.take(), 1);
    counter.next_id = usize::MAX;
    assert_eq!(counter.take(), usize::MAX);
    assert_eq!(counter.take(), 0);
}
