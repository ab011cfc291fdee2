use rslox::entry::{dispatch, exit_status_of, run_driver, usage_message, Directive, EXIT_DATA_ERROR, EXIT_OK, EXIT_USAGE};
use rslox::session::ReadEvent;
use rslox::loader::{file_verdict, load_source, run_file};
use rslox::pipeline::{ErrorKind, PipelineResult, ScriptedSink};

#[test]
fn usage_with_two_args() {
    let args = vec!["a.lox".to_string(), "b.lox".to_string()];
    match dispatch(&args) {
        Directive::ReportUsage(message) => assert!(message.contains("Usage")),
        other => panic!("expected a usage error, got {:?}", other),
    }
    assert_eq!(EXIT_USAGE, 64);
}

#[test]
fn usage_with_many_args() {
    let args = vec!["a".to_string(), "b".to_string(), "c".to_string(), "d".to_string()];
    assert!(matches!(dispatch(&args), Directive::ReportUsage(_)));
}

#[test]
fn interactive_with_no_args() {
    let args: Vec<String> = vec![];
    assert_eq!(dispatch(&args), Directive::StartInteractive);
}

#[test]
fn file_with_one_arg() {
    let args = vec!["script.lox".to_string()];
    assert_eq!(dispatch(&args), Directive::LoadFile("script.lox".to_string()));
}

#[test]
fn usage_message_text() {
    assert_eq!(usage_message(), "Usage: rslox [script]");
}

#[test]
fn exit_codes() {
    assert_eq!(exit_status_of(&Ok(())), EXIT_OK);
    assert_eq!(exit_status_of(&Ok(())), 0);
    assert_eq!(exit_status_of(&Err(ErrorKind::IoFailure)), EXIT_DATA_ERROR);
    assert_eq!(exit_status_of(&Err(ErrorKind::IoFailure)), 65);
    assert_eq!(
        exit_status_of(&Err(ErrorKind::PipelineFailure("bad".to_string()))),
        EXIT_DATA_ERROR
    );
}

#[test]
fn missing_file_skips_pipeline() {
    let mut sink = ScriptedSink::new(vec![]);
    let outcome = run_file(None, &mut sink);
    assert_eq!(outcome, Err(ErrorKind::IoFailure));
    assert!(sink.received.is_empty());
    assert_eq!(exit_status_of(&outcome), 65);
}

#[test]
fn invalid_bytes_are_replaced() {
    let bytes = vec![0x68, 0xFF, 0x69];
    let source = load_source(Some(bytes)).unwrap();
    assert_eq!(source, "h\u{FFFD}i");
}

#[test]
fn empty_file_decodes_to_empty_text() {
    assert_eq!(load_source(Some(vec![])).unwrap(), "");
}

#[test]
fn valid_utf8_decodes_unchanged() {
    let bytes = "print 1;\n".as_bytes().to_vec();
    assert_eq!(load_source(Some(bytes)).unwrap(), "print 1;\n");
}

#[test]
fn failed_read_yields_no_source() {
    assert_eq!(load_source(None), Err(ErrorKind::IoFailure));
}

#[test]
fn file_verdicts() {
    assert_eq!(file_verdict(PipelineResult::Success), Ok(()));
    assert_eq!(
        file_verdict(PipelineResult::Failure("parse error".to_string())),
        Err(ErrorKind::PipelineFailure("parse error".to_string()))
    );
}

#[test]
fn file_run_success() {
    let mut sink = ScriptedSink::new(vec![]);
    let bytes = "print 1;\n".as_bytes().to_vec();
    let outcome = run_file(Some(bytes), &mut sink);
    assert_eq!(outcome, Ok(()));
    assert_eq!(sink.received, vec!["print 1;\n".to_string()]);
    assert_eq!(exit_status_of(&outcome), 0);
}

#[test]
fn file_run_pipeline_failure() {
    let mut sink = ScriptedSink::new(vec![PipelineResult::Failure("parse error".to_string())]);
    let bytes = "1 +;\n".as_bytes().to_vec();
    let outcome = run_file(Some(bytes), &mut sink);
    assert_eq!(outcome, Err(ErrorKind::PipelineFailure("parse error".to_string())));
    assert_eq!(sink.received, vec!["1 +;\n".to_string()]);
    assert_eq!(exit_status_of(&outcome), 65);
}

#[test]
fn sink_answers_from_its_script() {
    let mut sink = ScriptedSink::new(vec![
        PipelineResult::Failure("bad".to_string()),
        PipelineResult::Success,
    ]);
    assert_eq!(sink.run(&"a".to_string()), PipelineResult::Failure("bad".to_string()));
    assert_eq!(sink.run(&"b".to_string()), PipelineResult::Success);
    assert_eq!(sink.run(&"c".to_string()), PipelineResult::Success);
    assert_eq!(sink.received, vec!["a".to_string(), "b".to_string(), "c".to_string()]);
}

#[test]
fn whole_invocation_usage() {
    let args = vec!["a.lox".to_string(), "b.lox".to_string()];
    let mut sink = ScriptedSink::new(vec![]);
    let status = run_driver(&args, None, &vec![], &mut sink);
    assert_eq!(status, 64);
    assert!(sink.received.is_empty());
}

#[test]
fn whole_invocation_missing_file() {
    let args = vec!["missing.lox".to_string()];
    let mut sink = ScriptedSink::new(vec![]);
    let status = run_driver(&args, None, &vec![], &mut sink);
    assert_eq!(status, 65);
    assert!(sink.received.is_empty());
}

#[test]
fn whole_invocation_file_success() {
    let args = vec!["ok.lox".to_string()];
    let mut sink = ScriptedSink::new(vec![]);
    let bytes = "print 1;\n".as_bytes().to_vec();
    let status = run_driver(&args, Some(bytes), &vec![], &mut sink);
    assert_eq!(status, 0);
    assert_eq!(sink.received, vec!["print 1;\n".to_string()]);
}

#[test]
fn whole_invocation_file_rejected() {
    let args = vec!["bad.lox".to_string()];
    let mut sink = ScriptedSink::new(vec![PipelineResult::Failure("syntax error".to_string())]);
    let bytes = "1 +;\n".as_bytes().to_vec();
    let status = run_driver(&args, Some(bytes), &vec![], &mut sink);
    assert_eq!(status, 65);
    assert_eq!(sink.received, vec!["1 +;\n".to_string()]);
}

#[test]
fn whole_invocation_interactive_empty_input() {
    let args: Vec<String> = vec![];
    let mut sink = ScriptedSink::new(vec![]);
    let status = run_driver(&args, None, &vec![ReadEvent::EndOfInput], &mut sink);
    assert_eq!(status, 0);
    assert!(sink.received.is_empty());
}

#[test]
fn whole_invocation_interactive_bad_line_still_exits_cleanly() {
    let args: Vec<String> = vec![];
    let events = vec![
        ReadEvent::Line("1 +;\n".to_string()),
        ReadEvent::Line("print 2;\n".to_string()),
        ReadEvent::EndOfInput,
    ];
    let mut sink = ScriptedSink::new(vec![PipelineResult::Failure("syntax error".to_string())]);
    let status = run_driver(&args, None, &events, &mut sink);
    assert_eq!(status, 0);
    assert_eq!(sink.received, vec!["1 +;\n".to_string(), "print 2;\n".to_string()]);
}
