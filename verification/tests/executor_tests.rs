use fabric_atelier::error::Error;
use fabric_atelier::executor::{ExecutionOutcome, PatternExecutor};
use fabric_atelier::loader::CandidateDir;
use std::path::PathBuf;
use std::time::Duration;

fn candidate(path: &str, exists: bool) -> CandidateDir {
    CandidateDir { path: PathBuf::from(path), location: path.to_string(), exists }
}

#[test]
fn test_executor_creation() {
    let executor = PatternExecutor::with_path(PathBuf::from("/usr/bin/fabric"), 30);
    assert_eq!(Duration::from_secs(executor.timeout_secs()), Duration::from_secs(30));
    assert_eq!(executor.fabric_path(), &PathBuf::from("/usr/bin/fabric"));
}

#[test]
fn test_find_fabric_binary() {
    let candidates = vec![
        candidate("fabric", false),
        candidate("/usr/local/bin/fabric", false),
        candidate("/usr/bin/fabric", true),
    ];
    match PatternExecutor::find_fabric_binary(None, &candidates) {
        Ok(path) => {
            assert!(path.to_string_lossy().contains("fabric"));
            assert_eq!(path, PathBuf::from("/usr/bin/fabric"));
        }
        Err(_) => panic!("one candidate exists"),
    }
}

#[test]
fn binary_on_path_wins() {
    let candidates = vec![candidate("/usr/bin/fabric", true)];
    let found =
        PatternExecutor::find_fabric_binary(Some(PathBuf::from("/opt/fabric")), &candidates);
    assert_eq!(found.unwrap(), PathBuf::from("/opt/fabric"));
}

#[test]
fn missing_binary_is_a_config_error() {
    let candidates = vec![candidate("fabric", false)];
    match PatternExecutor::new(None, &candidates, 30) {
        Err(Error::ConfigError(m)) => assert_eq!(
            m,
            "Fabric CLI not found. Please install fabric or set fabric_path in config"
        ),
        _ => panic!("expected a configuration error"),
    }
}

fn failure(outcome: ExecutionOutcome) -> String {
    let executor = PatternExecutor::with_path(PathBuf::from("fabric"), 30);
    match executor.execute("summarize", outcome) {
        Err(Error::PatternExecutionFailed { pattern, message }) => {
            assert_eq!(pattern, "summarize");
            message
        }
        _ => panic!("expected a failed execution"),
    }
}

#[test]
fn each_failure_is_reported_in_its_own_words() {
    assert_eq!(
        failure(ExecutionOutcome::SpawnFailed("no such file".to_string())),
        "Failed to spawn fabric process: no such file"
    );
    assert_eq!(
        failure(ExecutionOutcome::WriteFailed("broken pipe".to_string())),
        "Failed to write stdin: broken pipe"
    );
    assert_eq!(
        failure(ExecutionOutcome::FlushFailed("broken pipe".to_string())),
        "Failed to flush stdin: broken pipe"
    );
    assert_eq!(failure(ExecutionOutcome::TimedOut), "Execution timeout after 30 seconds");
    assert_eq!(
        failure(ExecutionOutcome::WaitFailed("interrupted".to_string())),
        "Failed to wait for output: interrupted"
    );
    assert_eq!(
        failure(ExecutionOutcome::Exited {
            success: false,
            status: "exit status: 2".to_string(),
            stdout: "partial".to_string(),
            stderr: "boom".to_string(),
        }),
        "Exit code: exit status: 2, stderr: boom"
    );
}

#[test]
fn successful_run_yields_its_output() {
    let executor = PatternExecutor::with_path(PathBuf::from("fabric"), 30);
    let r = executor.execute(
        "summarize",
        ExecutionOutcome::Exited {
            success: true,
            status: "exit status: 0".to_string(),
            stdout: "the summary".to_string(),
            stderr: "warnings".to_string(),
        },
    );
    assert_eq!(r.unwrap(), "the summary");
}
