use bevy_playground_server::outcome::CompilationResult;
use bevy_playground_server::outcome::Error;
use bevy_playground_server::pipeline::default_config;
use bevy_playground_server::pipeline::Action;
use bevy_playground_server::pipeline::CompileSession;
use bevy_playground_server::pipeline::Event;
use bevy_playground_server::engine::Invocation;

fn ok_exit(stdout: &str) -> Event {
    Event::Engine {
        inv: Invocation::Exited {
            success: true,
            stdout: Some(stdout.to_string()),
            stderr: Some(String::new()),
        },
    }
}

fn failed_exit(stderr: &str) -> Event {
    Event::Engine {
        inv: Invocation::Exited {
            success: false,
            stdout: Some(String::new()),
            stderr: Some(stderr.to_string()),
        },
    }
}

fn destroys_of(actions: &[Action]) -> Vec<String> {
    let mut out = Vec::new();
    for a in actions {
        if let Action::DestroyInstance { instance } = a {
            out.push(instance.clone());
        }
    }
    out
}

fn artifact_work_of(actions: &[Action]) -> usize {
    actions
        .iter()
        .filter(|a| {
            matches!(a, Action::MakeArtifactDir { .. } | Action::ExtractArtifacts { .. })
        })
        .count()
}

/// Drive one session to completion, answering each action with the next
/// scripted event, and return the verdict with every action emitted.
fn drive(
    source: &str,
    events: Vec<Event>,
) -> (Result<CompilationResult, Error>, Vec<Action>) {
    let config = default_config("/tmp");
    let (mut session, first) = CompileSession::begin(config, source.to_string());
    let mut actions = vec![first];
    for event in events {
        let (next_session, action) = session.step(event);
        session = next_session;
        actions.push(action);
        if session.is_done() {
            break;
        }
    }
    assert!(session.is_done(), "trace did not finish the session");
    (session.verdict(), actions)
}

#[test]
fn successful_compile_reports_the_content_hash() {
    let (verdict, actions) = drive(
        "fn main(){}",
        vec![
            ok_exit("cid42\n"),
            ok_exit(""),
            ok_exit(""),
            Event::HostDir { error: None },
            ok_exit(""),
            ok_exit(""),
        ],
    );
    match verdict.unwrap() {
        CompilationResult::Success { id } => assert_eq!(id, "8416942539958729049"),
        CompilationResult::Error { msg } => panic!("unexpected build failure: {}", msg),
    }
    assert!(matches!(actions[0], Action::CreateInstance));
    assert!(matches!(&actions[1], Action::InjectSource { instance } if instance == "cid42"));
    assert!(matches!(&actions[2], Action::RunInstance { instance } if instance == "cid42"));
    assert!(matches!(
        &actions[3],
        Action::MakeArtifactDir { path } if path == "/tmp/bevy-playground/8416942539958729049"
    ));
    assert!(matches!(
        &actions[4],
        Action::ExtractArtifacts { instance, host_dir }
            if instance == "cid42" && host_dir == "/tmp/bevy-playground/8416942539958729049"
    ));
    assert_eq!(destroys_of(&actions), ["cid42"]);
    assert!(matches!(actions[5], Action::DestroyInstance { .. }));
    assert!(matches!(actions[6], Action::Report));
}

#[test]
fn build_failure_reports_diagnostics_and_stores_nothing() {
    let diagnostics = "error[E0601]: `main` function not found";
    let (verdict, actions) = drive(
        "broken source",
        vec![ok_exit("cid7\n"), ok_exit(""), failed_exit(diagnostics), ok_exit("")],
    );
    match verdict.unwrap() {
        CompilationResult::Error { msg } => assert_eq!(msg, diagnostics),
        CompilationResult::Success { id } => panic!("unexpected success: {}", id),
    }
    assert_eq!(artifact_work_of(&actions), 0);
    assert_eq!(destroys_of(&actions), ["cid7"]);
}

#[test]
fn injection_failure_still_destroys_the_instance() {
    let (verdict, actions) = drive(
        "fn main(){}",
        vec![ok_exit("cid9\n"), failed_exit("copy failed"), ok_exit("")],
    );
    match verdict.unwrap_err() {
        Error::PodmanCLI { command, stderr } => {
            assert_eq!(command, "cp");
            assert_eq!(stderr, "copy failed");
        },
        other => panic!("expected an engine CLI error, got {:?}", other),
    }
    assert_eq!(destroys_of(&actions), ["cid9"]);
    assert_eq!(artifact_work_of(&actions), 0);
}

#[test]
fn extraction_failure_still_destroys_the_instance() {
    let (verdict, actions) = drive(
        "fn main(){}",
        vec![
            ok_exit("cid11\n"),
            ok_exit(""),
            ok_exit(""),
            Event::HostDir { error: None },
            failed_exit("no such directory"),
            ok_exit(""),
        ],
    );
    assert!(matches!(verdict, Err(Error::PodmanCLI { .. })));
    assert_eq!(destroys_of(&actions), ["cid11"]);
}

#[test]
fn directory_failure_is_an_io_error_and_destroys() {
    let (verdict, actions) = drive(
        "fn main(){}",
        vec![
            ok_exit("cid12\n"),
            ok_exit(""),
            ok_exit(""),
            Event::HostDir { error: Some("read-only filesystem".to_string()) },
            ok_exit(""),
        ],
    );
    match verdict.unwrap_err() {
        Error::IO { message } => assert_eq!(message, "read-only filesystem"),
        other => panic!("expected an io error, got {:?}", other),
    }
    assert_eq!(destroys_of(&actions), ["cid12"]);
}

#[test]
fn create_failure_destroys_nothing() {
    let (verdict, actions) = drive("fn main(){}", vec![failed_exit("cannot pull image")]);
    assert!(matches!(verdict, Err(Error::PodmanCLI { .. })));
    assert_eq!(destroys_of(&actions).len(), 0);
    assert_eq!(artifact_work_of(&actions), 0);
}

#[test]
fn destroy_failure_surfaces_as_infrastructure_error() {
    let (verdict, actions) = drive(
        "fn main(){}",
        vec![
            ok_exit("cid13\n"),
            ok_exit(""),
            ok_exit(""),
            Event::HostDir { error: None },
            ok_exit(""),
            failed_exit("container is locked"),
        ],
    );
    match verdict.unwrap_err() {
        Error::PodmanCLI { command, stderr } => {
            assert_eq!(command, "rm");
            assert_eq!(stderr, "container is locked");
        },
        other => panic!("expected an engine CLI error, got {:?}", other),
    }
    assert_eq!(destroys_of(&actions), ["cid13"]);
}

#[test]
fn concurrent_sessions_are_independent() {
    let config_a = default_config("/tmp");
    let config_b = default_config("/tmp");
    let (mut a, first_a) = CompileSession::begin(config_a, "fn main(){}".to_string());
    let (mut b, first_b) = CompileSession::begin(config_b, "fn main() {}".to_string());
    assert!(matches!(first_a, Action::CreateInstance));
    assert!(matches!(first_b, Action::CreateInstance));

    let mut actions_a = Vec::new();
    let mut actions_b = Vec::new();
    let events_a = vec![
        ok_exit("instance-a\n"),
        ok_exit(""),
        ok_exit(""),
        Event::HostDir { error: None },
        ok_exit(""),
        ok_exit(""),
    ];
    let events_b = vec![
        ok_exit("instance-b\n"),
        ok_exit(""),
        ok_exit(""),
        Event::HostDir { error: None },
        ok_exit(""),
        ok_exit(""),
    ];
    // Interleave the two sessions step by step.
    for (ea, eb) in events_a.into_iter().zip(events_b.into_iter()) {
        let (na, aa) = a.step(ea);
        a = na;
        actions_a.push(aa);
        let (nb, ab) = b.step(eb);
        b = nb;
        actions_b.push(ab);
    }
    assert!(a.is_done());
    assert!(b.is_done());
    let id_a = match a.verdict().unwrap() {
        CompilationResult::Success { id } => id,
        CompilationResult::Error { msg } => panic!("unexpected failure: {}", msg),
    };
    let id_b = match b.verdict().unwrap() {
        CompilationResult::Success { id } => id,
        CompilationResult::Error { msg } => panic!("unexpected failure: {}", msg),
    };
    assert_ne!(id_a, id_b);
    assert_eq!(destroys_of(&actions_a), ["instance-a"]);
    assert_eq!(destroys_of(&actions_b), ["instance-b"]);
    for action in &actions_a {
        if let Action::MakeArtifactDir { path } = action {
            assert_eq!(path, &format!("/tmp/bevy-playground/{}", id_a));
        }
    }
    for action in &actions_b {
        if let Action::MakeArtifactDir { path } = action {
            assert_eq!(path, &format!("/tmp/bevy-playground/{}", id_b));
        }
    }
}
