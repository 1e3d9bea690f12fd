use bytes::Bytes;
use debug_capture::config::DebugLoggingConfig;
use debug_capture::location::OutputDir;
use debug_capture::tee::{StreamTee, TeeAction, TeeEvent};
use debug_capture::writer::{advance_at, begin_write, WriteOutcome, WriteReply, WriteStep};
use serde_json::Value;

const READING: i64 = 1_700_000_000_123;

fn sample_meta() -> Value {
    let mut meta = serde_json::Map::new();
    meta.insert(String::from("url"), Value::String(String::from("https://example.test/v1")));
    Value::Object(meta)
}

#[test]
fn two_chunks_end_up_in_one_file() {
    let cfg = DebugLoggingConfig { enabled: true, output_dir: Some(String::from("/var/captures")) };
    let tee = StreamTee::new(&cfg, String::from("t1"), String::from("resp"), sample_meta());
    let events: Vec<TeeEvent<String>> = vec![
        TeeEvent::Element(Ok(Bytes::from_static(b"{\"a\":1}"))),
        TeeEvent::Element(Ok(Bytes::from_static(b"{\"b\":2}"))),
        TeeEvent::Exhausted,
    ];
    let (tee, mut actions) = tee.run(events);
    assert_eq!(actions.len(), 3);
    let job = match actions.pop() {
        Some(TeeAction::Capture(job)) => job,
        _ => panic!("expected a capture at the end of the stream"),
    };
    assert!(matches!(&actions[0], TeeAction::Forward(Ok(bytes)) if &bytes[..] == b"{\"a\":1}"));
    assert!(matches!(&actions[1], TeeAction::Forward(Ok(bytes)) if &bytes[..] == b"{\"b\":2}"));

    let mut files: Vec<(String, Vec<u8>)> = Vec::new();
    let mut step = begin_write(&cfg, job);
    let outcome = loop {
        step = match step {
            WriteStep::Finished(outcome) => break outcome,
            WriteStep::ResolveDataDir { .. } => panic!("a directory is configured"),
            WriteStep::CreateDir { ref dir, .. } => {
                assert!(matches!(dir, OutputDir::Configured(root) if root == "/var/captures"));
                advance_at(step, WriteReply::Io(Ok(())), READING)
            }
            WriteStep::WriteFile { ref file_name, ref contents, .. } => {
                files.push((file_name.clone(), contents.clone()));
                advance_at(step, WriteReply::Io(Ok(())), READING)
            }
        };
    };
    assert!(matches!(outcome, WriteOutcome::Written));
    assert_eq!(outcome.warning(), None);

    assert_eq!(files.len(), 1);
    assert_eq!(files[0].0, "20231114_221320.123_t1_resp.json");
    let stored: Value = serde_json::from_slice(&files[0].1).expect("a JSON document");
    assert_eq!(stored.get("response_text").and_then(Value::as_str), Some("{\"a\":1}{\"b\":2}"));
    assert_eq!(stored.get("trace_id").and_then(Value::as_str), Some("t1"));
    assert_eq!(stored.get("kind").and_then(Value::as_str), Some("upstream_response"));
    assert_eq!(stored.get("meta"), Some(&sample_meta()));
    let text = String::from_utf8(files[0].1.clone()).expect("text");
    assert!(text.starts_with("{\n  \""));
    assert!(text.ends_with("\n}"));

    let (_, last) = tee.step(TeeEvent::<String>::CaptureFinished(outcome));
    assert!(matches!(last, TeeAction::EndOfStream));
}

#[test]
fn disabled_capture_writes_nothing_end_to_end() {
    let cfg = DebugLoggingConfig { enabled: false, output_dir: Some(String::from("/var/captures")) };
    let tee = StreamTee::new(&cfg, String::from("t1"), String::from("resp"), Value::Null);
    let events: Vec<TeeEvent<String>> = vec![
        TeeEvent::Element(Ok(Bytes::from_static(b"{\"a\":1}"))),
        TeeEvent::Element(Err(String::from("reset"))),
        TeeEvent::Exhausted,
    ];
    let (_, actions) = tee.run(events);
    assert_eq!(actions.len(), 3);
    assert!(matches!(&actions[0], TeeAction::Forward(Ok(bytes)) if &bytes[..] == b"{\"a\":1}"));
    assert!(matches!(&actions[1], TeeAction::Forward(Err(message)) if message == "reset"));
    assert!(matches!(&actions[2], TeeAction::EndOfStream));
}

#[test]
fn unwritable_directory_leaves_the_stream_alone() {
    let cfg = DebugLoggingConfig { enabled: true, output_dir: Some(String::from("/proc/nowhere")) };
    let tee = StreamTee::new(&cfg, String::from("t9"), String::from("resp"), Value::Null);
    let events: Vec<TeeEvent<String>> = vec![
        TeeEvent::Element(Ok(Bytes::from_static(b"one"))),
        TeeEvent::Element(Ok(Bytes::from_static(b"two"))),
        TeeEvent::Exhausted,
    ];
    let (tee, mut actions) = tee.run(events);
    let job = match actions.pop() {
        Some(TeeAction::Capture(job)) => job,
        _ => panic!("expected a capture at the end of the stream"),
    };
    let step = begin_write(&cfg, job);
    let step = advance_at(step, WriteReply::Io(Err(String::from("Permission denied"))), READING);
    let outcome = match step {
        WriteStep::Finished(outcome) => outcome,
        _ => panic!("expected the write to end"),
    };
    assert!(matches!(outcome, WriteOutcome::CreateDirFailed(_)));
    let (_, last) = tee.step(TeeEvent::<String>::CaptureFinished(outcome));
    assert!(matches!(last, TeeAction::EndOfStream));
    assert_eq!(actions.len(), 2);
    assert!(matches!(&actions[0], TeeAction::Forward(Ok(bytes)) if &bytes[..] == b"one"));
    assert!(matches!(&actions[1], TeeAction::Forward(Ok(bytes)) if &bytes[..] == b"two"));
}
