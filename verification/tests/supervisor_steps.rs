use sidecar_shell::supervisor::{
    launch_args, Channel, Effect, Event, LogStream, Phase, Request, Step, Supervisor,
};

fn log(stream: LogStream, text: &str) -> Effect {
    Effect::Log { stream, text: text.to_string() }
}

fn publish(channel: Channel, payload: &str) -> Effect {
    Effect::Publish { channel, payload: payload.to_string() }
}

fn spawn(port: &str) -> Request {
    Request::Spawn {
        program: "conciliacion-backend".to_string(),
        args: vec!["--port".to_string(), port.to_string()],
    }
}

fn announcement(port: &str) -> Vec<Effect> {
    let line = format!("[Rust] Spawning backend sidecar on port {}...", port);
    vec![log(LogStream::Standard, &line), publish(Channel::Stdout, &line)]
}

fn running(port: u16) -> Supervisor {
    let (mut supervisor, _) = Supervisor::start(port);
    assert!(supervisor.step(Event::SpawnSucceeded).is_some());
    supervisor
}

#[test]
fn channel_names() {
    assert_eq!(Channel::Stdout.name(), "backend-stdout");
    assert_eq!(Channel::Stderr.name(), "backend-stderr");
}

#[test]
fn launch_arguments_are_flag_and_decimal_port() {
    assert_eq!(launch_args(8000), vec!["--port".to_string(), "8000".to_string()]);
    assert_eq!(launch_args(1), vec!["--port".to_string(), "1".to_string()]);
    assert_eq!(launch_args(65535), vec!["--port".to_string(), "65535".to_string()]);
}

#[test]
fn start_announces_and_asks_for_a_spawn_without_waiting() {
    let (supervisor, step) = Supervisor::start(40123);
    assert_eq!(supervisor.assigned_port(), 40123);
    assert_eq!(supervisor.current_phase(), Phase::BackingOff);
    assert_eq!(step, Step { effects: announcement("40123"), request: spawn("40123") });
}

#[test]
fn spawn_success_moves_to_running() {
    let (mut supervisor, _) = Supervisor::start(40123);
    let step = supervisor.step(Event::SpawnSucceeded).unwrap();
    assert_eq!(supervisor.current_phase(), Phase::Running);
    assert_eq!(
        step,
        Step {
            effects: vec![
                log(LogStream::Standard, "[Rust] Backend started successfully"),
                publish(Channel::Stdout, "[Rust] Backend started successfully"),
            ],
            request: Request::ReadLine,
        }
    );
}

#[test]
fn spawn_failure_reports_waits_and_retries() {
    let (mut supervisor, _) = Supervisor::start(40123);
    let step = supervisor
        .step(Event::SpawnFailed { error: "No such file or directory (os error 2)".to_string() })
        .unwrap();
    assert_eq!(supervisor.current_phase(), Phase::BackingOff);
    let failure = "[Rust] Failed to spawn sidecar: No such file or directory (os error 2)";
    let mut effects = vec![
        log(LogStream::Error, failure),
        publish(Channel::Stderr, failure),
        log(LogStream::Standard, "[Rust] Retrying in 2 seconds..."),
        Effect::Pause { seconds: 2 },
    ];
    effects.extend(announcement("40123"));
    assert_eq!(step, Step { effects, request: spawn("40123") });
}

#[test]
fn stdout_line_is_published_on_stdout() {
    let mut supervisor = running(9000);
    let step = supervisor.step(Event::StdoutLine { line: "ready".to_string() }).unwrap();
    assert_eq!(supervisor.current_phase(), Phase::Running);
    assert_eq!(
        step,
        Step {
            effects: vec![log(LogStream::Standard, "[PY] ready"), publish(Channel::Stdout, "ready")],
            request: Request::ReadLine,
        }
    );
}

#[test]
fn stderr_line_is_published_on_stderr() {
    let mut supervisor = running(9000);
    let step = supervisor.step(Event::StderrLine { line: "warning: x".to_string() }).unwrap();
    assert_eq!(supervisor.current_phase(), Phase::Running);
    assert_eq!(
        step,
        Step {
            effects: vec![
                log(LogStream::Error, "[PY ERR] warning: x"),
                publish(Channel::Stderr, "warning: x"),
            ],
            request: Request::ReadLine,
        }
    );
}

#[test]
fn empty_line_is_still_published() {
    let mut supervisor = running(9000);
    let step = supervisor.step(Event::StdoutLine { line: String::new() }).unwrap();
    assert_eq!(
        step.effects,
        vec![log(LogStream::Standard, "[PY] "), publish(Channel::Stdout, "")]
    );
}

#[test]
fn other_reports_are_ignored() {
    let mut supervisor = running(9000);
    let step = supervisor.step(Event::Other).unwrap();
    assert_eq!(supervisor.current_phase(), Phase::Running);
    assert_eq!(step, Step { effects: vec![], request: Request::ReadLine });
}

#[test]
fn stream_end_reports_waits_and_restarts() {
    let mut supervisor = running(9000);
    let step = supervisor.step(Event::StreamClosed).unwrap();
    assert_eq!(supervisor.current_phase(), Phase::BackingOff);
    let notice = "[Rust] Backend process exited unexpectedly. Restarting in 2 seconds...";
    let mut effects = vec![
        log(LogStream::Standard, notice),
        publish(Channel::Stderr, notice),
        Effect::Pause { seconds: 2 },
    ];
    effects.extend(announcement("9000"));
    assert_eq!(step, Step { effects, request: spawn("9000") });
}

#[test]
fn events_that_answer_no_pending_request_are_refused() {
    let (mut supervisor, _) = Supervisor::start(7);
    let before = supervisor;
    assert_eq!(supervisor.step(Event::StdoutLine { line: "x".to_string() }), None);
    assert_eq!(supervisor.step(Event::StderrLine { line: "x".to_string() }), None);
    assert_eq!(supervisor.step(Event::Other), None);
    assert_eq!(supervisor.step(Event::StreamClosed), None);
    assert_eq!(supervisor, before);

    let mut supervisor = running(7);
    let before = supervisor;
    assert_eq!(supervisor.step(Event::SpawnSucceeded), None);
    assert_eq!(supervisor.step(Event::SpawnFailed { error: "x".to_string() }), None);
    assert_eq!(supervisor, before);
}

#[test]
fn immediate_exit_is_followed_by_one_wait_per_cycle() {
    let cycles = 25;
    let (mut supervisor, first) = Supervisor::start(5555);
    let mut pauses: Vec<u64> = vec![];
    let mut spawns = 0;
    let mut pending = first.request;
    for _ in 0..cycles {
        assert_eq!(pending, spawn("5555"));
        spawns += 1;
        let started = supervisor.step(Event::SpawnSucceeded).unwrap();
        assert!(started.effects.iter().all(|e| !matches!(e, Effect::Pause { .. })));
        assert_eq!(started.request, Request::ReadLine);
        let ended = supervisor.step(Event::StreamClosed).unwrap();
        let waits: Vec<u64> = ended
            .effects
            .iter()
            .filter_map(|e| match e {
                Effect::Pause { seconds } => Some(*seconds),
                _ => None,
            })
            .collect();
        assert_eq!(waits, vec![2]);
        pauses.extend(waits);
        pending = ended.request;
        assert_eq!(supervisor.current_phase(), Phase::BackingOff);
    }
    assert_eq!(pending, spawn("5555"));
    assert_eq!(spawns + 1, cycles + 1);
    assert_eq!(pauses, vec![2; cycles]);
}

#[test]
fn wait_precedes_the_next_announcement() {
    let mut supervisor = running(5555);
    let ended = supervisor.step(Event::StreamClosed).unwrap();
    let pause_at = ended.effects.iter().position(|e| matches!(e, Effect::Pause { .. })).unwrap();
    assert_eq!(ended.effects[pause_at + 1..].to_vec(), announcement("5555"));
    assert_eq!(pause_at, 2);
}

#[test]
fn failed_starts_retry_after_the_same_wait_as_an_exit() {
    let (mut supervisor, _) = Supervisor::start(5555);
    let mut published: Vec<String> = vec![];
    for round in 0..10 {
        let error = format!("cannot start (attempt {})", round);
        let step = supervisor.step(Event::SpawnFailed { error: error.clone() }).unwrap();
        let waits: Vec<&Effect> =
            step.effects.iter().filter(|e| matches!(e, Effect::Pause { .. })).collect();
        assert_eq!(waits, vec![&Effect::Pause { seconds: 2 }]);
        for effect in &step.effects {
            if let Effect::Publish { channel: Channel::Stderr, payload } = effect {
                assert!(payload.contains(&error));
                published.push(payload.clone());
            }
        }
        assert_eq!(step.request, spawn("5555"));
        assert_eq!(supervisor.current_phase(), Phase::BackingOff);
    }
    assert_eq!(published.len(), 10);
    assert_eq!(published[3], "[Rust] Failed to spawn sidecar: cannot start (attempt 3)");

    let mut other = running(5555);
    let ended = other.step(Event::StreamClosed).unwrap();
    assert!(ended.effects.contains(&Effect::Pause { seconds: 2 }));
}

#[test]
fn lines_are_relayed_in_order_without_loss_or_duplication() {
    let mut supervisor = running(6001);
    let events = vec![
        Event::StdoutLine { line: "one".to_string() },
        Event::StderrLine { line: "e1".to_string() },
        Event::StdoutLine { line: "two".to_string() },
        Event::Other,
        Event::StdoutLine { line: "two".to_string() },
        Event::StdoutLine { line: String::new() },
        Event::StderrLine { line: "e2".to_string() },
        Event::StdoutLine { line: "three".to_string() },
    ];
    let mut on_stdout: Vec<String> = vec![];
    let mut on_stderr: Vec<String> = vec![];
    for event in events {
        let step = supervisor.step(event).unwrap();
        assert_eq!(step.request, Request::ReadLine);
        for effect in step.effects {
            match effect {
                Effect::Publish { channel: Channel::Stdout, payload } => on_stdout.push(payload),
                Effect::Publish { channel: Channel::Stderr, payload } => on_stderr.push(payload),
                Effect::Pause { .. } => panic!("no wait while the process runs"),
                Effect::Log { .. } => {}
            }
        }
    }
    assert_eq!(on_stdout, vec!["one", "two", "two", "", "three"]);
    assert_eq!(on_stderr, vec!["e1", "e2"]);
    assert_eq!(supervisor.current_phase(), Phase::Running);
}

#[test]
fn port_stays_the_same_through_a_run() {
    let (mut supervisor, first) = Supervisor::start(31337);
    let mut requests = vec![first.request];
    let events = vec![
        Event::SpawnFailed { error: "a".to_string() },
        Event::SpawnSucceeded,
        Event::StdoutLine { line: "x".to_string() },
        Event::StreamClosed,
        Event::SpawnFailed { error: "b".to_string() },
        Event::SpawnSucceeded,
        Event::Other,
        Event::StreamClosed,
    ];
    for event in events {
        let step = supervisor.step(event).unwrap();
        assert_eq!(supervisor.assigned_port(), 31337);
        requests.push(step.request);
    }
    let spawns: Vec<&Request> =
        requests.iter().filter(|r| matches!(r, Request::Spawn { .. })).collect();
    assert_eq!(spawns.len(), 5);
    for request in spawns {
        assert_eq!(*request, spawn("31337"));
    }
}

#[test]
fn output_of_one_process_is_published_before_its_end() {
    let (mut supervisor, first) = Supervisor::start(6002);
    let mut on_stdout: Vec<String> = vec![];
    let mut on_stderr: Vec<String> = vec![];
    let mut pauses: Vec<u64> = vec![];
    let mut requests = vec![first.request];
    let events = vec![
        Event::SpawnSucceeded,
        Event::StdoutLine { line: "a".to_string() },
        Event::StderrLine { line: "b".to_string() },
        Event::StdoutLine { line: "c".to_string() },
        Event::StreamClosed,
    ];
    for event in events {
        let step = supervisor.step(event).unwrap();
        for effect in step.effects {
            match effect {
                Effect::Publish { channel: Channel::Stdout, payload } => on_stdout.push(payload),
                Effect::Publish { channel: Channel::Stderr, payload } => on_stderr.push(payload),
                Effect::Pause { seconds } => pauses.push(seconds),
                Effect::Log { .. } => {}
            }
        }
        requests.push(step.request);
    }
    assert_eq!(
        on_stdout,
        vec![
            "[Rust] Backend started successfully",
            "a",
            "c",
            "[Rust] Spawning backend sidecar on port 6002...",
        ]
    );
    assert_eq!(
        on_stderr,
        vec!["b", "[Rust] Backend process exited unexpectedly. Restarting in 2 seconds..."]
    );
    assert_eq!(pauses, vec![2]);
    assert_eq!(
        requests,
        vec![
            spawn("6002"),
            Request::ReadLine,
            Request::ReadLine,
            Request::ReadLine,
            Request::ReadLine,
            spawn("6002"),
        ]
    );
    assert_eq!(supervisor.current_phase(), Phase::BackingOff);
}
