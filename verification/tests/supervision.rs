use std::collections::hash_map::DefaultHasher;
use std::hash::Hasher;
use psup::ident::{id_from, to_hex};
use psup::launch::worker_env;
use psup::protocol::frame_line;
use psup::supervisor::default_socket_path;
use psup::{
    id, Connected, Control, EnvVars, Error, Exit, Message, Restart, Retry, Supervisor,
    SupervisorBuilder, SupervisorState, Task, Worker, WorkerInfo, WorkerState, SOCKET, WORKER_ID,
};

fn env_value(e: &EnvVars, name: &str) -> Option<String> {
    e.entries().iter().find(|(k, _)| k == name).map(|(_, v)| v.clone())
}

fn worker(id: &str, task: Task) -> WorkerState<u32> {
    WorkerState {
        task,
        id: id.to_string(),
        socket: "/tmp/s.sock".to_string(),
        pid: Some(7),
        reap: false,
        shutdown: 0,
    }
}

#[test]
fn task_new_has_defaults() {
    let t = Task::new("worker");
    assert_eq!(t.command(), "worker");
    assert!(t.arguments().is_empty());
    assert!(t.env_vars().entries().is_empty());
    assert!(!t.is_daemon());
    assert!(!t.is_detached());
    let r = t.retry();
    assert_eq!(r, Retry { limit: 5, factor: 0, attempts: 0 });
}

#[test]
fn task_setters_set_one_field() {
    let t = Task::new("w")
        .args(vec!["-v".to_string(), "x".to_string()])
        .daemon(true)
        .detached(true)
        .retry_limit(3)
        .retry_factor(100);
    assert_eq!(t.command(), "w");
    assert_eq!(t.arguments(), &vec!["-v".to_string(), "x".to_string()]);
    assert!(t.is_daemon());
    assert!(t.is_detached());
    assert_eq!(t.retry(), Retry { limit: 3, factor: 100, attempts: 0 });
}

#[test]
fn task_envs_later_value_wins() {
    let t = Task::new("w").envs(vec![
        ("A".to_string(), "1".to_string()),
        ("B".to_string(), "2".to_string()),
        ("A".to_string(), "3".to_string()),
    ]);
    let e = t.env_vars();
    assert_eq!(e.entries().len(), 2);
    assert_eq!(env_value(e, "A"), Some("3".to_string()));
    assert_eq!(env_value(e, "B"), Some("2".to_string()));
}

#[test]
fn env_vars_insert_replaces() {
    let mut e = EnvVars::new();
    e.insert("X".to_string(), "1".to_string());
    e.insert("Y".to_string(), "2".to_string());
    e.insert("X".to_string(), "9".to_string());
    assert_eq!(
        e.entries(),
        &vec![("X".to_string(), "9".to_string()), ("Y".to_string(), "2".to_string())]
    );
    let c = e.clone();
    assert_eq!(c.entries(), e.entries());
}

#[test]
fn restart_delays_grow_linearly_until_limit() {
    let t = Task::new("w").daemon(true).retry_limit(3).retry_factor(10);
    let mut r = t.retry();
    for k in 1..=3usize {
        match r.next() {
            Restart::After { delay_ms, retry } => {
                assert_eq!(delay_ms, 10 * k);
                assert_eq!(retry, Retry { limit: 3, factor: 10, attempts: k });
                r = retry;
            }
            Restart::GiveUp => panic!("expected restart {}", k),
        }
    }
    assert_eq!(r.next(), Restart::GiveUp);
}

#[test]
fn default_limit_allows_five_restarts() {
    let mut r = Task::new("w").retry();
    let mut restarts = 0;
    loop {
        match r.next() {
            Restart::After { delay_ms, retry } => {
                assert_eq!(delay_ms, 0);
                restarts += 1;
                r = retry;
            }
            Restart::GiveUp => break,
        }
    }
    assert_eq!(restarts, 5);
}

#[test]
fn zero_limit_never_restarts() {
    let r = Task::new("w").retry_limit(0).retry();
    assert_eq!(r.next(), Restart::GiveUp);
}

#[test]
fn limit_one_restarts_once() {
    let r = Task::new("w").retry_limit(1).retry();
    let next = r.next();
    assert_eq!(next, Restart::After { delay_ms: 0, retry: Retry { limit: 1, factor: 0, attempts: 1 } });
    if let Restart::After { retry, .. } = next {
        assert_eq!(retry.next(), Restart::GiveUp);
    }
}

#[test]
fn can_advance_detects_overflow() {
    assert!(Retry { limit: 5, factor: 10, attempts: 0 }.can_advance());
    assert!(Retry { limit: usize::MAX, factor: 1, attempts: usize::MAX }.can_advance());
    assert!(!Retry { limit: usize::MAX, factor: usize::MAX, attempts: 1 }.can_advance());
    assert!(Retry { limit: 1, factor: usize::MAX, attempts: 1 }.can_advance());
    assert!(Retry { limit: 1, factor: usize::MAX, attempts: 0 }.can_advance());
}

#[test]
fn hex_matches_format() {
    for n in [0u64, 1, 9, 10, 15, 16, 255, 4096, 0xdead_beef, u64::MAX] {
        assert_eq!(to_hex(n), format!("{:x}", n));
    }
    assert_eq!(to_hex(0), "0");
    assert_eq!(to_hex(0xabc), "abc");
}

#[test]
fn id_is_lowercase_hex() {
    let a = id();
    assert!(!a.is_empty() && a.len() <= 16);
    assert!(a.chars().all(|c| c.is_ascii_digit() || ('a'..='f').contains(&c)));
    assert!(a == "0" || !a.starts_with('0'));
    let b = id();
    assert!(b.len() <= 16);
}

#[test]
fn worker_env_attached() {
    let t = Task::new("w").envs(vec![("A".to_string(), "1".to_string())]);
    let e = worker_env(&t, &"abc".to_string(), &"/tmp/p.sock".to_string());
    assert_eq!(env_value(&e, WORKER_ID), Some("abc".to_string()));
    assert_eq!(env_value(&e, SOCKET), Some("/tmp/p.sock".to_string()));
    assert_eq!(env_value(&e, "A"), Some("1".to_string()));
    assert_eq!(e.entries().len(), 3);
    // The task itself keeps its own variables only.
    assert_eq!(t.env_vars().entries().len(), 1);
}

#[test]
fn worker_env_detached_has_no_socket() {
    let t = Task::new("w").detached(true);
    let e = worker_env(&t, &"abc".to_string(), &"/tmp/p.sock".to_string());
    assert_eq!(env_value(&e, WORKER_ID), Some("abc".to_string()));
    assert_eq!(env_value(&e, SOCKET), None);
    assert_eq!(e.entries().len(), 1);
}

#[test]
fn worker_env_overrides_task_id() {
    let t = Task::new("w").envs(vec![(WORKER_ID.to_string(), "mine".to_string())]);
    let e = worker_env(&t, &"abc".to_string(), &"s".to_string());
    assert_eq!(env_value(&e, WORKER_ID), Some("abc".to_string()));
}

#[test]
fn state_remove_takes_first_match_and_swaps_last() {
    let mut s: SupervisorState<u32> = SupervisorState::new();
    s.add(worker("a", Task::new("x")));
    s.add(worker("b", Task::new("y")));
    s.add(worker("c", Task::new("z")));
    assert_eq!(s.len(), 3);
    let w = s.remove(&"a".to_string()).expect("worker a");
    assert_eq!(w.id, "a");
    assert_eq!(w.task.command(), "x");
    assert_eq!(s.len(), 2);
    let rest: Vec<String> = s.drain().into_iter().map(|w| w.id).collect();
    assert_eq!(rest, vec!["c".to_string(), "b".to_string()]);
    assert_eq!(s.len(), 0);
}

#[test]
fn state_remove_missing_is_none() {
    let mut s: SupervisorState<u32> = SupervisorState::new();
    s.add(worker("a", Task::new("x")));
    assert!(s.remove(&"zz".to_string()).is_none());
    assert_eq!(s.len(), 1);
}

#[test]
fn exit_of_daemon_restarts_with_same_identity() {
    let mut s: SupervisorState<u32> = SupervisorState::new();
    let t = Task::new("d").daemon(true).retry_factor(7);
    let retry = t.retry();
    s.add(worker("a", t));
    match s.worker_exited(&"a".to_string(), retry) {
        Exit::Restart { delay_ms, spawn } => {
            assert_eq!(delay_ms, 7);
            assert_eq!(spawn.id, "a");
            assert_eq!(spawn.socket, "/tmp/s.sock");
            assert_eq!(spawn.task.command(), "d");
            assert_eq!(spawn.retry, Retry { limit: 5, factor: 7, attempts: 1 });
        }
        _ => panic!("expected restart"),
    }
    assert_eq!(s.len(), 0);
}

#[test]
fn exit_of_non_daemon_retires() {
    let mut s: SupervisorState<u32> = SupervisorState::new();
    let t = Task::new("n");
    let retry = t.retry();
    s.add(worker("a", t));
    assert!(matches!(s.worker_exited(&"a".to_string(), retry), Exit::Retired { .. }));
    assert_eq!(s.len(), 0);
}

#[test]
fn exit_of_reaped_daemon_retires() {
    let mut s: SupervisorState<u32> = SupervisorState::new();
    let t = Task::new("d").daemon(true);
    let retry = t.retry();
    let mut w = worker("a", t);
    w.reap = true;
    s.add(w);
    assert!(matches!(s.worker_exited(&"a".to_string(), retry), Exit::Retired { .. }));
}

#[test]
fn exit_at_limit_gives_up() {
    let mut s: SupervisorState<u32> = SupervisorState::new();
    let t = Task::new("d").daemon(true).retry_limit(0);
    let retry = t.retry();
    s.add(worker("a", t));
    match s.worker_exited(&"a".to_string(), retry) {
        Exit::GaveUp { worker } => assert_eq!(worker.id, "a"),
        _ => panic!("expected give up"),
    }
}

#[test]
fn exit_of_unknown_worker_is_stale() {
    let mut s: SupervisorState<u32> = SupervisorState::new();
    s.add(worker("a", Task::new("d").daemon(true)));
    let retry = Task::new("d").retry();
    assert!(matches!(s.worker_exited(&"b".to_string(), retry), Exit::Stale));
    assert_eq!(s.len(), 1);
}

#[test]
fn shutdown_then_exit_does_not_restart() {
    let mut s: SupervisorState<u32> = SupervisorState::new();
    let t = Task::new("d").daemon(true);
    let retry = t.retry();
    s.add(worker("a", t));
    s.add(worker("b", Task::new("e")));
    match s.control(Message::Shutdown { id: "a".to_string() }, &"sock".to_string()) {
        Control::Shutdown { id, worker } => {
            assert_eq!(id, "a");
            assert_eq!(worker.expect("worker").id, "a");
        }
        Control::Spawn(_) => panic!("expected shutdown"),
    }
    assert!(matches!(s.worker_exited(&"a".to_string(), retry), Exit::Stale));
    assert_eq!(s.len(), 1);
}

#[test]
fn shutdown_of_unknown_worker_finds_none() {
    let mut s: SupervisorState<u32> = SupervisorState::new();
    match s.control(Message::Shutdown { id: "q".to_string() }, &"sock".to_string()) {
        Control::Shutdown { id, worker } => {
            assert_eq!(id, "q");
            assert!(worker.is_none());
        }
        Control::Spawn(_) => panic!("expected shutdown"),
    }
}

#[test]
fn spawn_message_asks_for_new_worker() {
    let mut s: SupervisorState<u32> = SupervisorState::new();
    let t = Task::new("w").retry_limit(2);
    match s.control(Message::Spawn { task: t }, &"sock".to_string()) {
        Control::Spawn(sp) => {
            assert_eq!(sp.socket, "sock");
            assert_eq!(sp.task.command(), "w");
            assert_eq!(sp.retry, Retry { limit: 2, factor: 0, attempts: 0 });
            assert!(!sp.id.is_empty() && sp.id.len() <= 16);
        }
        Control::Shutdown { .. } => panic!("expected spawn"),
    }
    assert_eq!(s.len(), 0);
}

#[test]
fn builder_keeps_workers_in_order() {
    let b: SupervisorBuilder<u8, u8> = SupervisorBuilder::new();
    let mut sup: Supervisor<u8, u8> = b
        .add_worker(Task::new("one"))
        .add_worker(Task::new("two"))
        .server(1)
        .shutdown(2)
        .build();
    let names: Vec<&str> = sup.commands().iter().map(|t| t.command().as_str()).collect();
    assert_eq!(names, vec!["one", "two"]);
    assert_eq!(sup.ipc_handler(), Some(&1));
    assert_eq!(sup.take_shutdown(), Some(2));
    assert_eq!(sup.take_shutdown(), None);
}

#[test]
fn builder_socket_path_default_and_set() {
    let tmp = "/tmp".to_string();
    let sup: Supervisor<(), ()> = SupervisorBuilder::new().build();
    assert_eq!(sup.socket_path(&tmp), "/tmp/psup.sock");
    assert!(sup.ipc_handler().is_none());
    let sp = sup.spawn(Task::new("w"), &tmp);
    assert_eq!(sp.socket, "/tmp/psup.sock");
    let sup: Supervisor<(), ()> = SupervisorBuilder::new().path("/run/x.sock".to_string()).build();
    assert_eq!(sup.socket_path(&tmp), "/run/x.sock");
    let sp = sup.spawn(Task::new("w"), &tmp);
    assert_eq!(sp.socket, "/run/x.sock");
    assert_eq!(sp.retry.attempts, 0);
}

#[test]
fn worker_start_decisions() {
    let none: Worker<u8> = Worker::new();
    assert!(matches!(none.start(None, None), Err(Error::WorkerNoId)));
    assert!(matches!(none.start(Some("i".to_string()), Some("p".to_string())), Ok(None)));
    let none_relaxed: Worker<u8> = Worker::new().relaxed(true);
    assert!(matches!(none_relaxed.start(None, None), Ok(None)));
    let w: Worker<u8> = Worker::new().client(3);
    assert_eq!(w.handler(), Some(&3));
    assert!(matches!(w.start(None, Some("p".to_string())), Err(Error::WorkerNoId)));
    assert!(matches!(w.start(Some("i".to_string()), None), Ok(None)));
    match w.start(Some("i".to_string()), Some("p".to_string())) {
        Ok(Some(c)) => {
            assert_eq!(c.id, "i");
            assert_eq!(c.path, "p");
        }
        _ => panic!("expected connection"),
    }
    let relaxed: Worker<u8> = Worker::new().client(3).relaxed(true);
    assert!(matches!(relaxed.start(None, None), Ok(None)));
}

#[test]
fn frame_appends_newline() {
    assert_eq!(frame_line(b"{\"id\":\"a\"}"), b"{\"id\":\"a\"}\n".to_vec());
    assert_eq!(frame_line(b""), b"\n".to_vec());
}

#[test]
fn messages_hold_their_fields() {
    let c = Connected { id: "a".to_string() };
    assert_eq!(c.clone(), c);
    let i = WorkerInfo { path: "/p".to_string(), id: "x".to_string() };
    assert_eq!(i.path, "/p");
}

#[test]
fn worker_exit_decides_on_removed_worker() {
    let t = Task::new("d").daemon(true).retry_limit(2).retry_factor(4);
    let retry = Retry { limit: 2, factor: 4, attempts: 1 };
    let w = worker("a", t);
    assert!(w.wants_restart());
    match w.exit(retry) {
        Exit::Restart { delay_ms, spawn } => {
            assert_eq!(delay_ms, 8);
            assert_eq!(spawn.retry.attempts, 2);
        }
        _ => panic!("expected restart"),
    }
    let w = worker("b", Task::new("d").daemon(true));
    assert!(matches!(w.exit(Retry { limit: 2, factor: 4, attempts: 2 }), Exit::GaveUp { .. }));
    let mut w = worker("c", Task::new("d").daemon(true));
    w.reap = true;
    assert!(!w.wants_restart());
    // An overflowing retry state is harmless for a worker that is not restarted.
    assert!(matches!(w.exit(Retry { limit: 9, factor: usize::MAX, attempts: 3 }), Exit::Retired { .. }));
}

#[test]
fn task_from_options_defaults() {
    let t = Task::from_options("cmd".to_string(), None, None, None, None);
    assert_eq!(t.command(), "cmd");
    assert!(t.arguments().is_empty());
    assert!(t.env_vars().entries().is_empty());
    assert!(!t.is_daemon());
    assert!(!t.is_detached());
    assert_eq!(t.retry(), Retry { limit: 5, factor: 0, attempts: 0 });
    let t = Task::from_options(
        "c".to_string(),
        Some(vec!["x".to_string()]),
        Some(vec![("K".to_string(), "1".to_string()), ("K".to_string(), "2".to_string())]),
        Some(true),
        Some(true),
    );
    assert_eq!(t.arguments(), &vec!["x".to_string()]);
    assert_eq!(env_value(t.env_vars(), "K"), Some("2".to_string()));
    assert!(t.is_daemon() && t.is_detached());
}

#[test]
fn worker_state_equality_is_by_id_and_pid() {
    let a = worker("a", Task::new("x"));
    let mut b = worker("a", Task::new("y"));
    b.shutdown = 5;
    assert!(a == b);
    let mut c = worker("a", Task::new("x"));
    c.pid = Some(8);
    assert!(a != c);
    assert!(a != worker("b", Task::new("x")));
}

#[test]
fn task_clone_keeps_everything() {
    let t = Task::new("w")
        .args(vec!["a".to_string()])
        .envs(vec![("K".to_string(), "V".to_string())])
        .daemon(true)
        .retry_limit(2)
        .retry_factor(3);
    let c = t.clone();
    assert_eq!(c.command(), t.command());
    assert_eq!(c.arguments(), t.arguments());
    assert_eq!(c.env_vars().entries(), t.env_vars().entries());
    assert_eq!(c.is_daemon(), t.is_daemon());
    assert_eq!(c.retry(), t.retry());
}

#[test]
fn initial_spawns_follow_added_order() {
    let sup: Supervisor<(), ()> = SupervisorBuilder::new()
        .path("/s.sock".to_string())
        .add_worker(Task::new("one").retry_limit(1))
        .add_worker(Task::new("two"))
        .build();
    let spawns = sup.initial_spawns(&"/var/tmp".to_string());
    assert_eq!(spawns.len(), 2);
    assert_eq!(spawns[0].task.command(), "one");
    assert_eq!(spawns[0].retry, Retry { limit: 1, factor: 0, attempts: 0 });
    assert_eq!(spawns[1].task.command(), "two");
    assert!(spawns.iter().all(|s| s.socket == "/s.sock"));
    assert_eq!(sup.commands().len(), 2);
}

#[test]
fn drained_table_restarts_nothing() {
    let mut s: SupervisorState<u32> = SupervisorState::new();
    let t = Task::new("d").daemon(true);
    let retry = t.retry();
    s.add(worker("a", t));
    s.add(worker("b", Task::new("d").daemon(true)));
    let all: Vec<String> = s.drain().into_iter().map(|w| w.id).collect();
    assert_eq!(all, vec!["a".to_string(), "b".to_string()]);
    assert!(matches!(s.worker_exited(&"a".to_string(), retry), Exit::Stale));
}

#[test]
fn detached_worker_does_not_connect() {
    let t = Task::new("w").detached(true);
    let e = worker_env(&t, &"abc".to_string(), &"/p.sock".to_string());
    let w: Worker<u8> = Worker::new().client(1);
    let start = w.start(env_value(&e, WORKER_ID), env_value(&e, SOCKET));
    assert!(matches!(start, Ok(None)));
}

#[test]
fn frame_reads_back() {
    let payload = b"{\"request\":{}}";
    let line = frame_line(payload);
    let pos = line.iter().position(|b| *b == b'\n').unwrap();
    assert_eq!(pos, line.len() - 1);
    assert_eq!(&line[..pos], payload);
}

#[test]
fn add_daemon_adds_daemon_task() {
    let sup: Supervisor<(), ()> = SupervisorBuilder::new()
        .add_worker(Task::new("plain"))
        .add_daemon("d".to_string(), vec!["--x".to_string()])
        .build();
    let tasks = sup.commands();
    assert_eq!(tasks.len(), 2);
    assert!(!tasks[0].is_daemon());
    assert_eq!(tasks[1].command(), "d");
    assert_eq!(tasks[1].arguments(), &vec!["--x".to_string()]);
    assert!(tasks[1].is_daemon());
    assert!(!tasks[1].is_detached());
    assert_eq!(tasks[1].retry(), Retry { limit: 5, factor: 0, attempts: 0 });
}

#[test]
fn default_socket_path_joins_like_path() {
    for dir in ["/tmp", "/tmp/", "", "relative/dir", "/"] {
        let expected = std::path::Path::new(dir).join("psup.sock").to_string_lossy().into_owned();
        assert_eq!(default_socket_path(&dir.to_string()), expected);
    }
    assert_eq!(default_socket_path(&"/tmp".to_string()), "/tmp/psup.sock");
}

#[test]
fn id_from_hashes_the_value() {
    for v in [0usize, 1, 42, usize::MAX] {
        let mut h = DefaultHasher::new();
        h.write_usize(v);
        assert_eq!(id_from(v), format!("{:x}", h.finish()));
    }
    assert_eq!(id_from(7), id_from(7));
    assert_ne!(id_from(1), id_from(2));
}

#[test]
fn removed_id_is_gone_from_unique_table() {
    let mut s: SupervisorState<u32> = SupervisorState::new();
    s.add(worker("a", Task::new("x")));
    s.add(worker("b", Task::new("y")));
    assert!(s.remove(&"a".to_string()).is_some());
    assert!(s.remove(&"a".to_string()).is_none());
    assert_eq!(s.len(), 1);
}
