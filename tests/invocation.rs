use image_infer::invoke::{
    judge_probe, judge_run, plan_invocation, step, Action, InvokeError, Phase, ProcessOutcome,
};
use image_infer::result::{DecodeErrorKind, ModelResult};
use image_infer::resolver::{ExecutableConfig, Platform};

fn exited(code: Option<i32>, stdout: &[u8], stderr: &[u8]) -> ProcessOutcome {
    ProcessOutcome::Exited { code, stdout: stdout.to_vec(), stderr: stderr.to_vec() }
}

#[test]
fn plan_has_probe_flag_and_three_run_arguments() {
    let c = ExecutableConfig { override_path: None, venv_root: Some("/v".to_string()) };
    let p = plan_invocation(&c, Platform::Posix, "/app", "/tmp/cat.png");
    assert_eq!(p.executable, "/v/bin/python");
    assert_eq!(p.probe_args, vec!["--version".to_string()]);
    assert_eq!(
        p.run_args,
        vec![
            "/app/python/inference.py".to_string(),
            "/tmp/cat.png".to_string(),
            "/app/resources/model/result_improved.pth".to_string(),
        ]
    );
}

#[test]
fn probe_exit_zero_leads_to_the_run() {
    let (phase, action) = step(Phase::Probing, exited(Some(0), b"Python 3.11", b""));
    assert_eq!(phase, Phase::Running);
    assert!(matches!(action, Action::RunInference));
}

#[test]
fn probe_exit_127_stops_before_the_run() {
    let (phase, action) = step(Phase::Probing, exited(Some(127), b"", b"python: not found"));
    assert_eq!(phase, Phase::Done);
    match action {
        Action::Finish(Err(InvokeError::ProbeRejected(stderr))) => {
            assert_eq!(stderr, b"python: not found".to_vec())
        }
        _ => panic!("expected a rejected probe"),
    }
}

#[test]
fn probe_that_cannot_start_is_a_launch_failure() {
    match judge_probe(ProcessOutcome::FailedToStart("No such file".to_string())) {
        Err(InvokeError::ProbeLaunch(m)) => assert_eq!(m, "No such file"),
        _ => panic!("expected a probe launch failure"),
    }
    assert!(matches!(judge_probe(exited(None, b"", b"")), Err(InvokeError::ProbeRejected(_))));
}

#[test]
fn run_success_payload_finishes_with_prediction() {
    let out = br#"{"prediction":"cat","confidence":0.92,"class_probabilities":{"cat":0.92,"dog":0.08}}"#;
    let (phase, action) = step(Phase::Running, exited(Some(0), out, b"warning: slow"));
    assert_eq!(phase, Phase::Done);
    match action {
        Action::Finish(Ok(ModelResult::Success(r))) => assert_eq!(r.prediction, "cat"),
        _ => panic!("expected a success"),
    }
}

#[test]
fn run_exit_code_does_not_override_payload() {
    match judge_run(exited(Some(3), br#"{"error":"unsupported image format"}"#, b"")) {
        Ok(ModelResult::Error(e)) => assert_eq!(e.error, "unsupported image format"),
        _ => panic!("expected an error result"),
    }
}

#[test]
fn run_with_invalid_utf8_is_an_encoding_failure() {
    assert!(matches!(judge_run(exited(Some(0), &[0xff, 0xfe, 0x7b], b"")), Err(InvokeError::Encoding)));
}

#[test]
fn run_with_non_json_is_a_decode_failure_not_a_launch_failure() {
    match judge_run(exited(Some(0), "not json at all".as_bytes(), b"")) {
        Err(InvokeError::Decode(e)) => {
            assert_eq!(e.kind, DecodeErrorKind::NotJson);
            assert_eq!(e.payload, "not json at all");
        }
        _ => panic!("expected a decode failure"),
    }
}

#[test]
fn run_utf8_text_is_decoded_as_is() {
    let out = "{\"error\":\"caf\u{e9} \u{1F600}\"}";
    match judge_run(exited(Some(0), out.as_bytes(), b"")) {
        Ok(ModelResult::Error(e)) => assert_eq!(e.error, "caf\u{e9} \u{1F600}"),
        _ => panic!("expected an error result"),
    }
}

#[test]
fn run_that_cannot_start_is_a_launch_failure() {
    match judge_run(ProcessOutcome::FailedToStart("denied".to_string())) {
        Err(InvokeError::Launch(m)) => assert_eq!(m, "denied"),
        _ => panic!("expected a launch failure"),
    }
}

#[test]
fn same_stdout_same_answer_whatever_exit_code_and_stderr() {
    let out = br#"{"prediction":"dog","confidence":0.7,"class_probabilities":{"dog":0.7}}"#;
    let a = judge_run(exited(Some(0), out, b""));
    let b = judge_run(exited(Some(2), out, b"Traceback: noise"));
    match (a, b) {
        (Ok(ModelResult::Success(x)), Ok(ModelResult::Success(y))) => {
            assert_eq!(x.prediction, y.prediction);
            assert_eq!(x.confidence, y.confidence);
            assert_eq!(x.class_probabilities, y.class_probabilities);
        }
        _ => panic!("expected two equal successes"),
    }
}
