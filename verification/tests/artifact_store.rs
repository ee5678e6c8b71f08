use bevy_playground_server::artifacts::artifact_dir;
use bevy_playground_server::artifacts::artifact_file;
use bevy_playground_server::artifacts::classify_read;
use bevy_playground_server::artifacts::ReadResult;
use bevy_playground_server::artifacts::CACHE_SUBDIR;
use bevy_playground_server::artifacts::SCRIPT_ARTIFACT;
use bevy_playground_server::artifacts::WASM_ARTIFACT;
use bevy_playground_server::outcome::Error;
use bevy_playground_server::source_id::SourceHash;

#[test]
fn paths_are_keyed_by_hash() {
    let id = SourceHash::parse("42").unwrap();
    let root = format!("/tmp/{}", CACHE_SUBDIR);
    assert_eq!(artifact_dir(&root, &id), "/tmp/bevy-playground/42");
    assert_eq!(
        artifact_file(&root, &id, SCRIPT_ARTIFACT),
        "/tmp/bevy-playground/42/bevy-project.js"
    );
    assert_eq!(
        artifact_file(&root, &id, WASM_ARTIFACT),
        "/tmp/bevy-playground/42/bevy-project_bg.wasm"
    );
}

#[test]
fn distinct_identifiers_get_distinct_directories() {
    let a = SourceHash::parse("41").unwrap();
    let b = SourceHash::parse("412").unwrap();
    let c = SourceHash::parse("42").unwrap();
    let root = "/cache";
    let dirs = [artifact_dir(root, &a), artifact_dir(root, &b), artifact_dir(root, &c)];
    assert_ne!(dirs[0], dirs[1]);
    assert_ne!(dirs[0], dirs[2]);
    assert_ne!(dirs[1], dirs[2]);
}

#[test]
fn found_content_comes_back_byte_identical() {
    let content = vec![0u8, 159, 146, 150, 255];
    let out = classify_read(
        String::from("/tmp/bevy-playground/42/bevy-project_bg.wasm"),
        ReadResult::Found { content: content.clone() },
    );
    assert_eq!(out.unwrap(), content);
}

#[test]
fn never_compiled_identifier_is_not_found_not_io() {
    let path = String::from("/tmp/bevy-playground/99999/bevy-project.js");
    match classify_read(path.clone(), ReadResult::Missing).unwrap_err() {
        Error::NotFound { path: reported } => assert_eq!(reported, path),
        other => panic!("expected not-found, got {:?}", other),
    }
}

#[test]
fn other_read_failures_stay_io_errors() {
    let out = classify_read(
        String::from("/tmp/bevy-playground/1/bevy-project.js"),
        ReadResult::Failed { message: String::from("permission denied") },
    );
    match out.unwrap_err() {
        Error::IO { message } => assert_eq!(message, "permission denied"),
        other => panic!("expected an io error, got {:?}", other),
    }
}
