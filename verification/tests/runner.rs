use bagpack_core::probe::{list_request, outdated_request};
use bagpack_core::runner::{ensure_success, CommandRequest, CommandResult, Execution};
use bagpack_core::{CollectionError, CommandError, PackageManager};

fn request(program: &str, args: &[&str], allowed: Option<Vec<i32>>) -> CommandRequest {
    CommandRequest {
        program: program.to_string(),
        args: args.iter().map(|arg| arg.to_string()).collect(),
        allowed_exit_codes: allowed,
    }
}

fn finished(stdout: &[u8], stderr: &[u8], code: Option<i32>) -> Execution {
    Execution::Finished { stdout: stdout.to_vec(), stderr: stderr.to_vec(), code }
}

#[test]
fn commands_are_those_of_the_three_managers() {
    assert_eq!(list_request(PackageManager::Brew), request("brew", &["list", "--versions"], None));
    assert_eq!(
        outdated_request(PackageManager::Brew),
        request("brew", &["outdated", "--json=v2"], None)
    );
    assert_eq!(
        list_request(PackageManager::Npm),
        request("npm", &["ls", "-g", "--depth=0", "--json"], None)
    );
    assert_eq!(
        outdated_request(PackageManager::Npm),
        request("npm", &["outdated", "-g", "--json"], Some(vec![0, 1]))
    );
    assert_eq!(list_request(PackageManager::Pip), request("pip", &["list", "--format=json"], None));
    assert_eq!(
        outdated_request(PackageManager::Pip),
        request("pip", &["list", "--outdated", "--format=json"], None)
    );
}

#[test]
fn label_is_program_and_arguments() {
    assert_eq!(request("brew", &["list", "--versions"], None).label(), "brew list --versions");
    assert_eq!(request("brew", &[], None).label(), "brew ");
}

#[test]
fn exit_code_zero_is_success() {
    let outcome = request("brew", &["list"], None).outcome(finished(b"out", b"err", Some(0)));
    assert_eq!(
        outcome,
        Ok(CommandResult { stdout: "out".to_string(), stderr: "err".to_string(), code: Some(0) })
    );
}

#[test]
fn other_exit_codes_fail_with_label_code_and_stderr() {
    let outcome = request("brew", &["list", "--versions"], None).outcome(finished(b"out", b"no", Some(1)));
    assert_eq!(
        outcome,
        Err(CollectionError::Command(CommandError::Status {
            program: "brew list --versions".to_string(),
            code: Some(1),
            stderr: "no".to_string(),
        }))
    );
    let killed = request("pip", &["list"], Some(vec![1])).outcome(finished(b"", b"", None));
    assert_eq!(
        killed,
        Err(CollectionError::Command(CommandError::Status {
            program: "pip list".to_string(),
            code: None,
            stderr: String::new(),
        }))
    );
}

#[test]
fn allowed_exit_codes_are_success() {
    let command = request("npm", &["outdated"], Some(vec![0, 1]));
    assert!(command.accepts(Some(0)));
    assert!(command.accepts(Some(1)));
    assert!(!command.accepts(Some(2)));
    assert!(!command.accepts(None));
    assert!(request("x", &[], None).accepts(Some(0)));
    assert!(!request("x", &[], None).accepts(Some(1)));
    assert!(request("x", &[], Some(vec![])).accepts(Some(0)));
    assert!(request("x", &[], Some(vec![3])).accepts(Some(3)));
}

#[test]
fn js_outdated_exit_code_one_with_json_is_success() {
    let outcome = outdated_request(PackageManager::Npm)
        .outcome(finished(b"{\"typescript\":{\"latest\":\"5.6.3\"}}", b"", Some(1)));
    assert_eq!(
        outcome,
        Ok(CommandResult {
            stdout: "{\"typescript\":{\"latest\":\"5.6.3\"}}".to_string(),
            stderr: String::new(),
            code: Some(1),
        })
    );
    let failed = outdated_request(PackageManager::Npm).outcome(finished(b"{}", b"bad", Some(2)));
    assert_eq!(
        failed,
        Err(CollectionError::Command(CommandError::Status {
            program: "npm outdated -g --json".to_string(),
            code: Some(2),
            stderr: "bad".to_string(),
        }))
    );
}

#[test]
fn spawn_failure_names_the_program() {
    let outcome = request("brew", &["list"], None)
        .outcome(Execution::NotStarted { reason: "not found".to_string() });
    assert_eq!(
        outcome,
        Err(CollectionError::Command(CommandError::Spawn {
            program: "brew".to_string(),
            source: "not found".to_string(),
        }))
    );
}

#[test]
fn invalid_utf8_fails_before_the_exit_code_counts() {
    let bad_stdout = request("pip", &["list"], None).outcome(finished(&[0x66, 0xff], b"", Some(0)));
    assert_eq!(
        bad_stdout,
        Err(CollectionError::Command(CommandError::Utf8 {
            program: "pip".to_string(),
            source: "invalid utf-8 sequence of 1 bytes from index 1".to_string(),
        }))
    );
    let bad_stderr = request("pip", &["list"], None).outcome(finished(b"ok", &[0xe2, 0x82], Some(3)));
    assert_eq!(
        bad_stderr,
        Err(CollectionError::Command(CommandError::Utf8 {
            program: "pip".to_string(),
            source: "incomplete utf-8 byte sequence from index 0".to_string(),
        }))
    );
    let both = request("pip", &["list"], None).outcome(finished(&[0xc0], &[0xff, 0xff], Some(0)));
    assert_eq!(
        both,
        Err(CollectionError::Command(CommandError::Utf8 {
            program: "pip".to_string(),
            source: "invalid utf-8 sequence of 1 bytes from index 0".to_string(),
        }))
    );
}

#[test]
fn output_is_decoded_as_utf8() {
    let outcome = request("x", &[], None)
        .outcome(finished("caf\u{e9} \u{1F600}".as_bytes(), "\u{3000}".as_bytes(), Some(0)));
    assert_eq!(
        outcome,
        Ok(CommandResult {
            stdout: "caf\u{e9} \u{1F600}".to_string(),
            stderr: "\u{3000}".to_string(),
            code: Some(0),
        })
    );
}

#[test]
fn ensure_success_passes_exit_code_zero_only() {
    let good = CommandResult { stdout: String::new(), stderr: "e".to_string(), code: Some(0) };
    assert_eq!(ensure_success(&good, "brew list --versions"), Ok(()));
    let bad = CommandResult { stdout: String::new(), stderr: "e".to_string(), code: Some(1) };
    assert_eq!(
        ensure_success(&bad, "brew list --versions"),
        Err(CollectionError::Command(CommandError::Status {
            program: "brew list --versions".to_string(),
            code: Some(1),
            stderr: "e".to_string(),
        }))
    );
    let killed = CommandResult { stdout: String::new(), stderr: String::new(), code: None };
    assert!(ensure_success(&killed, "x").is_err());
}
