// The executor's decisions and classifications, exercised against an
// in-memory stand-in for the operating system: recorded spawn answers and a
// recorded final-stage outcome.

use shutil::error::{Error, ErrorKind};
use shutil::pipeline::{classify_run, run_replay, spawn_failure, Action, Executor, RunOutcome};

fn stages(words: &[&[&str]]) -> Vec<Vec<String>> {
    let mut out: Vec<Vec<String>> = Vec::new();
    for stage in words {
        let mut tokens: Vec<String> = Vec::new();
        for w in *stage {
            tokens.push((*w).to_string());
        }
        out.push(tokens);
    }
    out
}

fn quiet_exit(code: i32) -> RunOutcome {
    RunOutcome::Completed { exit_code: Some(code), stdout: Vec::new() }
}

#[test]
fn replay_empty_pipeline_is_invalid_format() {
    let r = run_replay(stages(&[]), &vec![], quiet_exit(0));
    let e = r.unwrap_err();
    assert_eq!(e.kind(), ErrorKind::InvalidFormatError);
    assert_eq!(e.code(), Some(-1));
    assert_eq!(e.details(), "no commands supplied");
}

#[test]
fn replay_empty_first_stage_is_invalid_format() {
    let r = run_replay(stages(&[&[]]), &vec![], quiet_exit(0));
    let e = r.unwrap_err();
    assert_eq!(e.kind(), ErrorKind::InvalidFormatError);
    assert_eq!(e.code(), Some(-1));
    assert_eq!(e.details(), "no command binary supplied");
}

#[test]
fn replay_empty_later_stage_is_invalid_format() {
    let r = run_replay(
        stages(&[&["producer"], &[], &["consumer"]]),
        &vec![true, true],
        quiet_exit(0),
    );
    let e = r.unwrap_err();
    assert_eq!(e.kind(), ErrorKind::InvalidFormatError);
    assert_eq!(e.code(), Some(-1));
    assert_eq!(e.details(), "no command binary supplied");
}

#[test]
fn replay_spawn_refusal_is_exec_error_with_sentinel() {
    let r = run_replay(
        stages(&[&["producer"], &["consumer"]]),
        &vec![false],
        quiet_exit(0),
    );
    let e = r.unwrap_err();
    assert_eq!(e.kind(), ErrorKind::ExecError);
    assert_eq!(e.code(), Some(-1));
}

#[test]
fn replay_spawn_refusal_wins_over_later_empty_stage() {
    // Validation is interleaved with spawning: stage 0 is started before
    // stage 2 is ever looked at, so a refusal to start stage 0 is what the
    // run reports.
    let r = run_replay(
        stages(&[&["producer"], &["consumer"], &[]]),
        &vec![false],
        quiet_exit(0),
    );
    let e = r.unwrap_err();
    assert_eq!(e.kind(), ErrorKind::ExecError);
    assert_eq!(e.code(), Some(-1));
}

#[test]
fn replay_silent_success_returns_empty_text() {
    let r = run_replay(stages(&[&["producer"]]), &vec![], quiet_exit(0));
    assert_eq!(r.unwrap(), "");
}

#[test]
fn replay_two_stage_returns_final_stage_text() {
    let fin = RunOutcome::Completed {
        exit_code: Some(0),
        stdout: b"oof\n".to_vec(),
    };
    let r = run_replay(stages(&[&["producer", "foo"], &["reverser"]]), &vec![true], fin);
    assert_eq!(r.unwrap(), "oof\n");
}

#[test]
fn replay_success_returns_decoded_output() {
    let fin = RunOutcome::Completed {
        exit_code: Some(0),
        stdout: b"hello\n".to_vec(),
    };
    let r = run_replay(stages(&[&["producer"]]), &vec![], fin);
    assert_eq!(r.unwrap(), "hello\n");
}

#[test]
fn replay_only_final_stage_outcome_decides() {
    // Whatever the intermediate stages did while running, the verdict comes
    // from the final stage alone: the same final outcome gives the same
    // result for one, two and three spawned-and-running predecessors.
    let fin = || RunOutcome::Completed { exit_code: Some(0), stdout: b"OOF\n".to_vec() };
    let one = run_replay(stages(&[&["a"]]), &vec![], fin());
    let two = run_replay(stages(&[&["a"], &["b"]]), &vec![true], fin());
    let three = run_replay(stages(&[&["a"], &["b"], &["c"]]), &vec![true, true], fin());
    assert_eq!(one.unwrap(), "OOF\n");
    assert_eq!(two.unwrap(), "OOF\n");
    assert_eq!(three.unwrap(), "OOF\n");
}

#[test]
fn replay_identical_runs_agree() {
    let fin = || RunOutcome::Completed { exit_code: Some(1), stdout: Vec::new() };
    let a = run_replay(stages(&[&["x", "1"], &["y"]]), &vec![true], fin());
    let b = run_replay(stages(&[&["x", "1"], &["y"]]), &vec![true], fin());
    let ea = a.unwrap_err();
    let eb = b.unwrap_err();
    assert_eq!(ea.kind(), eb.kind());
    assert_eq!(ea.code(), eb.code());
    assert_eq!(ea.details(), eb.details());
}

#[test]
fn classify_not_started_with_errno_is_os_error() {
    let fin = RunOutcome::NotStarted {
        raw_os_error: Some(2),
        message: "No such file or directory (os error 2)".to_string(),
    };
    let e = classify_run(fin).unwrap_err();
    assert_eq!(e.kind(), ErrorKind::OsError);
    assert_eq!(e.code(), Some(2));
    assert_eq!(e.details(), "No such file or directory (os error 2)");
}

#[test]
fn classify_not_started_without_errno_is_unknown() {
    let fin = RunOutcome::NotStarted {
        raw_os_error: None,
        message: "something went wrong".to_string(),
    };
    let e = classify_run(fin).unwrap_err();
    assert_eq!(e.kind(), ErrorKind::UnknownError);
    assert_eq!(e.code(), None);
    assert_eq!(e.details(), "something went wrong");
}

#[test]
fn classify_nonzero_exit_is_exec_error_with_code() {
    let e = classify_run(quiet_exit(1)).unwrap_err();
    assert_eq!(e.kind(), ErrorKind::ExecError);
    assert_eq!(e.code(), Some(1));
    assert_eq!(e.details(), "non-zero exit code");
}

#[test]
fn classify_signal_death_is_exec_error_without_code() {
    let fin = RunOutcome::Completed { exit_code: None, stdout: Vec::new() };
    let e = classify_run(fin).unwrap_err();
    assert_eq!(e.kind(), ErrorKind::ExecError);
    assert_eq!(e.code(), None);
}

#[test]
fn classify_invalid_utf8_is_decode_error() {
    let fin = RunOutcome::Completed {
        exit_code: Some(0),
        stdout: vec![0xff, 0xfe, 0x00],
    };
    let e = classify_run(fin).unwrap_err();
    assert_eq!(e.kind(), ErrorKind::UnicodeDecodeError);
    assert_eq!(e.code(), None);
    assert_eq!(e.details(), "utf-8 decode failed");
}

#[test]
fn classify_success_keeps_output_byte_exact() {
    let fin = RunOutcome::Completed {
        exit_code: Some(0),
        stdout: b" spaced \n\n".to_vec(),
    };
    assert_eq!(classify_run(fin).unwrap(), " spaced \n\n");
}

#[test]
fn classify_decodes_multibyte_utf8() {
    let fin = RunOutcome::Completed {
        exit_code: Some(0),
        stdout: "héllo → π\n".as_bytes().to_vec(),
    };
    assert_eq!(classify_run(fin).unwrap(), "héllo → π\n");
}

#[test]
fn spawn_failure_carries_message() {
    let e = spawn_failure("boom");
    assert_eq!(e.kind(), ErrorKind::ExecError);
    assert_eq!(e.code(), Some(-1));
    assert_eq!(e.details(), "spawning failed: boom");
}

#[test]
fn error_accessors_return_what_was_given() {
    let e = Error::new(ErrorKind::OsError, Some(13), "permission denied");
    assert_eq!(e.kind(), ErrorKind::OsError);
    assert_eq!(e.code(), Some(13));
    assert_eq!(e.details(), "permission denied");
}

#[test]
fn executor_walks_spawn_then_run() {
    let mut ex = Executor::new(stages(&[&["a"], &["b"], &["c"]]));
    assert_eq!(ex.stage_count(), 3);
    assert_eq!(ex.stage_argv(0), &vec!["a".to_string()]);
    match ex.next_action() {
        Action::SpawnStage(i) => assert_eq!(i, 0),
        _ => panic!("expected a spawn request"),
    }
    ex.record_spawned();
    match ex.next_action() {
        Action::SpawnStage(i) => assert_eq!(i, 1),
        _ => panic!("expected a spawn request"),
    }
    ex.record_spawned();
    match ex.next_action() {
        Action::RunFinal(i) => assert_eq!(i, 2),
        _ => panic!("expected the final run"),
    }
}
