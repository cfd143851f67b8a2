use dusk_warden::client::CommandOutcome;
use dusk_warden::error::{ErrorKind, RunError};
use dusk_warden::mapping::SecretMapping;
use dusk_warden::push::{PushRun, PushStep};
use dusk_warden::sync::{SyncRun, SyncStep};
use std::collections::BTreeMap;

fn push_mappings(pairs: &[(&str, &str)]) -> Vec<SecretMapping> {
    pairs
        .iter()
        .map(|(path, id)| SecretMapping::new(path.to_string(), id.to_string()).unwrap())
        .collect()
}

fn table(entries: &[(&str, &str)]) -> BTreeMap<String, String> {
    entries.iter().map(|(key, value)| (key.to_string(), value.to_string())).collect()
}

struct Pushed {
    remote: BTreeMap<String, String>,
    lines: Vec<String>,
    read: Vec<String>,
    end: Result<(), RunError>,
}

fn play_push(pairs: &[(&str, &str)], files: &BTreeMap<String, String>, known: &[&str]) -> Pushed {
    let mut played = Pushed { remote: BTreeMap::new(), lines: Vec::new(), read: Vec::new(), end: Ok(()) };
    let mut run = PushRun::new(push_mappings(pairs));
    loop {
        let (pending, path) = match run.advance() {
            PushStep::Finished => return played,
            PushStep::Read(pending, path) => (pending, path),
        };
        played.read.push(path.clone());
        let contents = match files.get(&path) {
            Some(contents) => Ok(contents.clone()),
            None => Err("No such file or directory (os error 2)".to_string()),
        };
        let (pending, invocation) = match pending.read(contents, "t0k3n") {
            Ok(next) => next,
            Err(error) => {
                played.end = Err(error);
                return played;
            },
        };
        assert_eq!(invocation.program, "bws");
        assert_eq!(invocation.variable, "BWS_ACCESS_TOKEN");
        assert_eq!(invocation.token, "t0k3n");
        assert_eq!(invocation.arguments.len(), 5);
        assert_eq!(&invocation.arguments[..3], ["secret", "edit", "--value"]);
        let id = invocation.arguments[4].clone();
        let outcome = if known.contains(&id.as_str()) {
            played.remote.insert(id, invocation.arguments[3].clone());
            CommandOutcome::Exited { success: true, stdout: b"{}".to_vec(), stderr: String::new() }
        } else {
            CommandOutcome::Exited {
                success: false,
                stdout: Vec::new(),
                stderr: "Error: [404 Not Found] {\"message\":\"Resource not found.\"}".to_string(),
            }
        };
        match pending.exited(outcome) {
            Ok((next, line)) => {
                played.lines.push(line);
                run = next;
            },
            Err(error) => {
                played.end = Err(error);
                return played;
            },
        }
    }
}

#[test]
fn push_updates_every_mapping_in_order() {
    let files = table(&[("a/.env", "A=1\n"), ("b/.env", ""), ("c/.env", "C=3")]);
    let played = play_push(
        &[("a/.env", "id-a"), ("b/.env", "id-b"), ("c/.env", "id-c")],
        &files,
        &["id-a", "id-b", "id-c"],
    );
    assert_eq!(played.end, Ok(()));
    assert_eq!(played.read, vec!["a/.env", "b/.env", "c/.env"]);
    assert_eq!(played.lines, vec!["Pushed a/.env", "Pushed b/.env", "Pushed c/.env"]);
    assert_eq!(played.remote, table(&[("id-a", "A=1\n"), ("id-b", ""), ("id-c", "C=3")]));
}

#[test]
fn push_without_mappings_is_finished_at_once() {
    assert!(matches!(PushRun::new(Vec::new()).advance(), PushStep::Finished));
}

#[test]
fn push_stops_at_the_first_failed_read() {
    let files = table(&[("a/.env", "A=1"), ("c/.env", "C=3")]);
    let played = play_push(
        &[("a/.env", "id-a"), ("b/.env", "id-b"), ("c/.env", "id-c")],
        &files,
        &["id-a", "id-b", "id-c"],
    );
    assert_eq!(played.remote, table(&[("id-a", "A=1")]));
    assert_eq!(played.lines, vec!["Pushed a/.env"]);
    assert_eq!(played.read, vec!["a/.env", "b/.env"]);
    let error = played.end.unwrap_err();
    assert_eq!(
        error,
        RunError::Read {
            path: "b/.env".to_string(),
            reason: "No such file or directory (os error 2)".to_string(),
        }
    );
    assert_eq!(error.kind(), ErrorKind::Io);
    assert_eq!(error.message(), "Failed to read b/.env");
}

#[test]
fn push_stops_at_the_first_failed_update() {
    let files = table(&[("a/.env", "A=1"), ("b/.env", "B=2"), ("c/.env", "C=3")]);
    let played = play_push(
        &[("a/.env", "id-a"), ("b/.env", "id-b"), ("c/.env", "id-c")],
        &files,
        &["id-a", "id-c"],
    );
    assert_eq!(played.remote, table(&[("id-a", "A=1")]));
    assert_eq!(played.lines, vec!["Pushed a/.env"]);
    assert_eq!(played.read, vec!["a/.env", "b/.env"]);
    let error = played.end.unwrap_err();
    assert_eq!(error.path(), "b/.env");
    assert_eq!(error.kind(), ErrorKind::Remote);
    assert_eq!(
        error.chain(),
        vec![
            "Failed to push secret for b/.env",
            "Secret id-b not found or access denied. Check that your service account token has write permissions.",
        ]
    );
}

#[test]
fn push_fails_where_the_command_is_missing() {
    let run = PushRun::new(push_mappings(&[("a/.env", "id-a")]));
    let pending = match run.advance() {
        PushStep::Read(pending, _) => pending,
        PushStep::Finished => panic!("a mapping is left"),
    };
    let (pending, _) = pending.read(Ok("A=1".to_string()), "t0k3n").ok().unwrap();
    let outcome = CommandOutcome::NotStarted { cause: "No such file or directory (os error 2)".to_string() };
    let error = pending.exited(outcome).err().unwrap();
    assert_eq!(error.path(), "a/.env");
    assert_eq!(error.kind(), ErrorKind::Execution);
    assert_eq!(
        error.chain(),
        vec![
            "Failed to push secret for a/.env",
            "Failed to run bws CLI. Is it installed?",
            "No such file or directory (os error 2)",
        ]
    );
}

#[test]
fn push_sends_the_contents_as_they_are() {
    let contents = "  A=1\r\n\n\tB=é \n\n";
    let files = table(&[("a/.env", contents)]);
    let played = play_push(&[("a/.env", "id-a")], &files, &["id-a"]);
    assert_eq!(played.remote["id-a"], contents);
}

#[test]
fn push_after_sync_hands_back_the_value() {
    let value = "A=1\nB=\"two\"\n\n";
    let pairs = [("a/.env", "id-a")];
    let pending = match SyncRun::new(push_mappings(&pairs)).advance("t0k3n") {
        SyncStep::Fetch(pending, _) => pending,
        SyncStep::Finished => panic!("a mapping is left"),
    };
    let fetched = CommandOutcome::Exited {
        success: true,
        stdout: b"{\"id\": \"id-a\", \"value\": \"A=1\\nB=\\\"two\\\"\\n\\n\"}".to_vec(),
        stderr: String::new(),
    };
    let (_, write) = pending.exited(fetched).ok().unwrap();
    let files = table(&[(write.path.as_str(), write.contents.as_str())]);
    let played = play_push(&pairs, &files, &["id-a"]);
    assert_eq!(played.end, Ok(()));
    assert_eq!(played.remote, table(&[("id-a", value)]));
}
