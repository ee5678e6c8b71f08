use bevy_playground_server::engine::classify;
use bevy_playground_server::engine::copy_in_args;
use bevy_playground_server::engine::copy_out_args;
use bevy_playground_server::engine::create_args;
use bevy_playground_server::engine::remove_args;
use bevy_playground_server::engine::start_args;
use bevy_playground_server::engine::trim_end_spaces;
use bevy_playground_server::engine::Invocation;
use bevy_playground_server::outcome::Error;

#[test]
fn cli_words_are_bit_exact() {
    assert_eq!(create_args("bevy-builder"), ["create", "bevy-builder"]);
    assert_eq!(
        copy_in_args("/tmp/stage123", "abc", "/project/src/main.rs"),
        ["cp", "/tmp/stage123", "abc:/project/src/main.rs"]
    );
    assert_eq!(start_args("abc"), ["start", "--attach", "abc"]);
    assert_eq!(
        copy_out_args("abc", "/project/out/.", "/tmp/bevy-playground/42"),
        ["cp", "abc:/project/out/.", "/tmp/bevy-playground/42"]
    );
    assert_eq!(remove_args("abc"), ["rm", "abc"]);
}

#[test]
fn trailing_whitespace_is_trimmed() {
    assert_eq!(trim_end_spaces("abc\n"), "abc");
    assert_eq!(trim_end_spaces("abc \t\r\n"), "abc");
    assert_eq!(trim_end_spaces("abc"), "abc");
    assert_eq!(trim_end_spaces(""), "");
    assert_eq!(trim_end_spaces(" \n"), "");
    assert_eq!(trim_end_spaces("a b\n"), "a b");
}

#[test]
fn trimming_matches_standard_trim_end() {
    for s in [
        "abc\u{000C}",
        "abc\u{000B}\n",
        "abc\u{00A0}",
        "abc\u{2003}\u{2028}",
        "abc\u{3000}",
        "abc\u{200B}", // zero-width space is not whitespace and must stay
    ] {
        assert_eq!(trim_end_spaces(s), s.trim_end());
    }
}

#[test]
fn successful_invocation_yields_trimmed_stdout() {
    let inv = Invocation::Exited {
        success: true,
        stdout: Some(String::from("0a1b2c3d\n")),
        stderr: Some(String::new()),
    };
    assert_eq!(classify("create", inv).unwrap(), "0a1b2c3d");
}

#[test]
fn nonzero_exit_reports_command_and_stderr() {
    let inv = Invocation::Exited {
        success: false,
        stdout: Some(String::new()),
        stderr: Some(String::from("no such image")),
    };
    match classify("create", inv).unwrap_err() {
        Error::PodmanCLI { command, stderr } => {
            assert_eq!(command, "create");
            assert_eq!(stderr, "no such image");
        },
        other => panic!("expected an engine CLI error, got {:?}", other),
    }
}

#[test]
fn undecodable_output_is_flagged() {
    let inv = Invocation::Exited { success: true, stdout: None, stderr: Some(String::new()) };
    assert!(matches!(classify("create", inv), Err(Error::InvalidUTF8 { .. })));
    let inv = Invocation::Exited { success: false, stdout: None, stderr: None };
    assert!(matches!(classify("start", inv), Err(Error::InvalidUTF8 { .. })));
}

#[test]
fn launch_failure_is_an_io_error() {
    let inv = Invocation::LaunchFailed { message: String::from("podman: command not found") };
    match classify("rm", inv).unwrap_err() {
        Error::IO { message } => assert_eq!(message, "podman: command not found"),
        other => panic!("expected an io error, got {:?}", other),
    }
}
