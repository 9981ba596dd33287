use gitwatch_rs::message::{blank, check_script_output, trim, MessageError, ScriptRun};

fn finished(success: bool, stdout: Option<&str>, stderr: &str) -> ScriptRun {
    ScriptRun::Finished {
        success,
        status: if success { "exit status: 0".to_string() } else { "exit status: 1".to_string() },
        stdout: stdout.map(|s| s.to_string()),
        stderr: stderr.to_string(),
    }
}

#[test]
fn test_successful_script_execution() {
    let result = check_script_output("test_script.sh", finished(true, Some("Test commit message\n"), ""));
    assert_eq!(result.unwrap().trim(), "Test commit message");
}

#[test]
fn test_output_is_kept_whole() {
    let result = check_script_output("s.sh", finished(true, Some("  line one\nline two\n"), ""));
    assert_eq!(result.unwrap(), "  line one\nline two\n");
}

#[test]
fn test_script_execution_failure() {
    let result = check_script_output("test_script.sh", finished(false, Some(""), "  bad thing \n"));
    let err = result.unwrap_err();
    assert!(err.describe().contains("failed with exit code"));
    match err {
        MessageError::Failed { stderr, .. } => assert_eq!(stderr, "bad thing"),
        _ => panic!("expected a failure"),
    }
}

#[test]
fn test_nonexistent_script() {
    let result = check_script_output(
        "/nonexistent/script/path",
        ScriptRun::NotStarted("No such file or directory".to_string()),
    );
    assert!(result
        .unwrap_err()
        .describe()
        .contains("Failed to execute commit message script"));
}

#[test]
fn test_empty_output() {
    let result = check_script_output("test_script.sh", finished(true, Some("\n"), ""));
    assert!(result
        .unwrap_err()
        .describe()
        .contains("Commit message script output is empty"));
}

#[test]
fn test_whitespace_only_output() {
    let result = check_script_output("test_script.sh", finished(true, Some("   \n  \t  \n"), ""));
    assert!(result
        .unwrap_err()
        .describe()
        .contains("Commit message script output is empty"));
}

#[test]
fn test_invalid_utf8_output() {
    let result = check_script_output("test_script.sh", finished(true, None, ""));
    assert!(matches!(result, Err(MessageError::NotUtf8)));
}

#[test]
fn test_trim_and_blank() {
    assert_eq!(trim("\u{3000} a b \t\n"), "a b");
    assert_eq!(trim("   "), "");
    assert!(blank(" \u{a0}\n"));
    assert!(!blank(" x "));
    assert!(blank(""));
}
