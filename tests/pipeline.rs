use casegen::config::DockerConfig;
use casegen::langs::{LangInfo, LangType};
use casegen::runner::exec::{
    classify, final_line_of, Action, Channel, Event, Execution, ExecutionOutcome, OutputCapture,
    OutputChunk, Stage,
};
use casegen::runner::Runner;

fn docker_config() -> DockerConfig {
    DockerConfig {
        host: "unix:///var/run/docker.sock".to_string(),
        image_label: "casegen.lang".to_string(),
        name_prefix: "casegen-".to_string(),
        container_name_prefix: "casegen-run-".to_string(),
        languages: vec!["python".to_string()],
    }
}

fn python_runner() -> Runner {
    let lang = LangInfo::new("python", LangType::Scripting);
    Runner::new(&docker_config(), &lang, "net123", "sha256:abc".to_string())
}

fn chunk(channel: Channel, text: &str) -> OutputChunk {
    OutputChunk { channel, data: text.as_bytes().to_vec() }
}

/// Drives one execution through a runtime that answers every step, feeding
/// the given output chunks and exit status.
fn run_with(chunks: Vec<OutputChunk>, status: Option<isize>) -> ExecutionOutcome {
    let runner = python_runner();
    let (mut exe, action) = Execution::begin(&runner, "harness text", "def gen(ctx): pass");
    assert!(matches!(action, Action::CreateContainer(_)));
    for _ in 0..4 {
        let (next, _) = exe.advance(Event::Completed);
        exe = next;
    }
    let (next, action) = exe.advance(Event::Completed);
    assert!(matches!(action, Action::ReadOutput));
    exe = next;
    for c in chunks {
        let (next, action) = exe.advance(Event::Output(c));
        assert!(matches!(action, Action::ReadOutput));
        exe = next;
    }
    let (next, action) = exe.advance(Event::OutputEnd);
    assert!(matches!(action, Action::Wait));
    let (next, action) = next.advance(Event::Completed);
    assert!(matches!(action, Action::Inspect));
    let (next, action) = next.advance(Event::Exited(status));
    assert!(matches!(action, Action::RemoveContainer));
    let (done, action) = next.advance(Event::Completed);
    assert!(matches!(action, Action::Finish));
    done.finish().expect("no pipeline error")
}

fn cases_of(outcome: &ExecutionOutcome) -> serde_json::Value {
    match outcome {
        ExecutionOutcome::Success(o) => serde_json::from_slice(&o.cases_json).expect("cases parse"),
        ExecutionOutcome::Failure(e) => panic!("unexpected failure {:?}", e),
    }
}

fn two_sum_cases() -> serde_json::Value {
    let case = || {
        let mut m = serde_json::Map::new();
        m.insert(
            "input".to_string(),
            serde_json::Value::Array(vec![serde_json::Value::from(1), serde_json::Value::from(1)]),
        );
        m.insert("output".to_string(), serde_json::Value::from(2));
        serde_json::Value::Object(m)
    };
    serde_json::Value::Array(vec![case(), case()])
}

#[test]
fn test_generator() {
    let printed = "[{\"input\": [1, 1], \"output\": 2}, {\"input\": [1, 1], \"output\": 2}]\n";
    let outcome = run_with(vec![chunk(Channel::StdOut, printed)], Some(0));
    assert_eq!(cases_of(&outcome), two_sum_cases());
}

#[test]
fn round_trip_keeps_cases_in_emitted_order() {
    let outcome = run_with(
        vec![
            chunk(Channel::StdOut, "debug line from user code\n"),
            chunk(Channel::StdOut, "[{\"input\":[1,1],\"output\":2},"),
            chunk(Channel::StdOut, "{\"input\":[1,1],\"output\":2}]\n\n"),
        ],
        Some(0),
    );
    assert_eq!(cases_of(&outcome), two_sum_cases());
    match outcome {
        ExecutionOutcome::Success(o) => {
            assert!(o.stdout.starts_with("debug line from user code\n"));
            assert_eq!(o.stderr, "");
        }
        ExecutionOutcome::Failure(_) => panic!("expected success"),
    }
}

#[test]
fn nonzero_exit_is_a_failure_with_stderr() {
    let outcome = run_with(
        vec![chunk(Channel::StdErr, "Traceback: boom\n")],
        Some(1),
    );
    match outcome {
        ExecutionOutcome::Failure(e) => {
            assert_eq!(e.exit_code, 1);
            assert_eq!(e.stderr, "Traceback: boom\n");
            assert_eq!(e.stdout, "");
        }
        ExecutionOutcome::Success(_) => panic!("expected failure"),
    }
}

#[test]
fn missing_exit_status_counts_as_minus_one() {
    let outcome = run_with(vec![chunk(Channel::StdOut, "[]")], None);
    match outcome {
        ExecutionOutcome::Failure(e) => assert_eq!(e.exit_code, -1),
        ExecutionOutcome::Success(_) => panic!("expected failure"),
    }
}

#[test]
fn interleaved_channels_stay_apart() {
    let outcome = run_with(
        vec![
            chunk(Channel::StdOut, "ab"),
            chunk(Channel::StdErr, "XY"),
            chunk(Channel::StdIn, "ignored"),
            chunk(Channel::StdOut, "cd"),
            chunk(Channel::StdErr, "Z"),
        ],
        Some(3),
    );
    match outcome {
        ExecutionOutcome::Failure(e) => {
            assert_eq!(e.exit_code, 3);
            assert_eq!(e.stdout, "abcd");
            assert_eq!(e.stderr, "XYZ");
        }
        ExecutionOutcome::Success(_) => panic!("expected failure"),
    }
}

#[test]
fn capture_splits_by_channel() {
    let mut cap = OutputCapture::new();
    cap.push(chunk(Channel::StdErr, "e1"));
    cap.push(chunk(Channel::StdOut, "o1"));
    cap.push(chunk(Channel::StdIn, "i"));
    cap.push(chunk(Channel::StdErr, "e2"));
    assert_eq!(cap.stdout, b"o1".to_vec());
    assert_eq!(cap.stderr, b"e1e2".to_vec());
}

#[test]
fn final_line_after_last_newline() {
    assert_eq!(final_line_of(b"log\nmore\n[1,2]\n  \t\r\n"), b"[1,2]".to_vec());
    assert_eq!(final_line_of(b"[3]   "), b"[3]".to_vec());
    assert_eq!(final_line_of(b""), Vec::<u8>::new());
    assert_eq!(final_line_of(b" \n\n "), Vec::<u8>::new());
    assert_eq!(final_line_of(b"a\n\n"), b"a".to_vec());
}

#[test]
fn classify_success_keeps_full_streams() {
    match classify(0, b"x\n[]\n", b"warn") {
        ExecutionOutcome::Success(o) => {
            assert_eq!(o.cases_json, b"[]".to_vec());
            assert_eq!(o.stdout, "x\n[]\n");
            assert_eq!(o.stderr, "warn");
        }
        ExecutionOutcome::Failure(_) => panic!("expected success"),
    }
}

#[test]
fn classify_decodes_invalid_utf8_lossily() {
    match classify(2, &[0x66, 0xff, 0x6f], b"") {
        ExecutionOutcome::Failure(e) => assert_eq!(e.stdout, "f\u{fffd}o"),
        ExecutionOutcome::Success(_) => panic!("expected failure"),
    }
}

#[test]
fn failure_before_creation_finishes_without_cleanup() {
    let runner = python_runner();
    let (exe, _) = Execution::begin(&runner, "h", "c");
    let (done, action) = exe.advance(Event::Failed("no such image".to_string()));
    assert!(matches!(action, Action::Finish));
    let err = done.finish().unwrap_err();
    assert_eq!(err.stage, Stage::Create);
    assert_eq!(err.message, "no such image");
}

#[test]
fn failure_after_creation_removes_the_container() {
    let runner = python_runner();
    let (exe, _) = Execution::begin(&runner, "h", "c");
    let (exe, action) = exe.advance(Event::Completed);
    match action {
        Action::CopyFile { path, contents } => {
            assert_eq!(path, "/runner/main.py");
            assert_eq!(contents, "h");
        }
        _ => panic!("expected the harness copy"),
    }
    let (exe, action) = exe.advance(Event::Completed);
    match action {
        Action::CopyFile { path, contents } => {
            assert_eq!(path, "/runner/gen.py");
            assert_eq!(contents, "c");
        }
        _ => panic!("expected the code copy"),
    }
    let (exe, action) = exe.advance(Event::Completed);
    assert!(matches!(action, Action::Attach));
    let (exe, action) = exe.advance(Event::Failed("attach refused".to_string()));
    assert!(matches!(action, Action::RemoveContainer));
    let (done, action) = exe.advance(Event::Completed);
    assert!(matches!(action, Action::Finish));
    let err = done.finish().unwrap_err();
    assert_eq!(err.stage, Stage::Attach);
    assert_eq!(err.message, "attach refused");
}

#[test]
fn unexpected_answer_aborts_the_step() {
    let runner = python_runner();
    let (exe, _) = Execution::begin(&runner, "h", "c");
    let (exe, _) = exe.advance(Event::Completed);
    let (exe, action) = exe.advance(Event::OutputEnd);
    assert!(matches!(action, Action::RemoveContainer));
    let (done, _) = exe.advance(Event::Failed("remove failed".to_string()));
    let err = done.finish().unwrap_err();
    assert_eq!(err.stage, Stage::InjectHarness);
}

#[test]
fn container_names_are_fresh_per_execution() {
    let runner = python_runner();
    let a = runner.new_container();
    let b = runner.new_container();
    assert!(a.name.starts_with("casegen-run-python"));
    assert_eq!(a.name.len(), "casegen-run-python".len() + 36);
    assert_ne!(a.name, b.name);
    assert_eq!(a.image, "sha256:abc");
    assert_eq!(a.network, "net123");
    assert_eq!(a.cpus, 1);
    assert_eq!(a.memory_bytes, 16384 * 1024);
    assert!(!a.privileged);
}

#[test]
fn container_spec_uses_given_suffix() {
    let spec = python_runner().container_spec("-x1");
    assert_eq!(spec.name, "casegen-run-python-x1");
}
