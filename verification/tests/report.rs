use toolkit_rs::painc::{admit_fault, set_panic_handler, Admitted, PaincConf, PanicState};
use toolkit_rs::report::{
    candidate_paths, payload_message, stamp_line, stamped, Action, Event, PanicEvent, Payload,
    Platform, Report, REPORT_FILE_NAME,
};

const START: &str =
    "panic occurred:-----------------------------start-----------------------------";
const END: &str =
    "panic occurred:-----------------------------end-----------------------------\n\n";

/// The leave that the first fault of a fresh process gets.
fn program(exit: bool) -> Admitted {
    let conf = PaincConf {
        version: "1.2.3".to_string(),
        build_time: "2024-01-01".to_string(),
        painc_exit: exit,
    };
    let mut state = PanicState::new();
    set_panic_handler(&mut state, conf).unwrap();
    admit_fault(&mut state).unwrap()
}

fn platform() -> Platform {
    Platform { os: "linux".to_string(), arch: "x86_64".to_string() }
}

fn boom() -> PanicEvent {
    PanicEvent::new(
        "2024-01-01 10:00:00 +00:00".to_string(),
        Some("worker-1".to_string()),
        "src/x.rs".to_string(),
        42,
        Payload::Text("boom".to_string()),
    )
}

fn open_path(action: Action) -> String {
    match action {
        Action::Open { path } => path,
        other => panic!("expected a file to open, got {:?}", other),
    }
}

fn written(action: Action) -> Vec<String> {
    match action {
        Action::Write { lines } => lines,
        other => panic!("expected lines to write, got {:?}", other),
    }
}

fn head(destination: &str) -> Vec<String> {
    vec![
        START.to_string(),
        "app version: 1.2.3".to_string(),
        "app build date: 2024-01-01".to_string(),
        "os version: linux".to_string(),
        "arch: x86_64".to_string(),
        format!("panic is recorded in: {}", destination),
        "thread: worker-1".to_string(),
        "time: 2024-01-01 10:00:00 +00:00".to_string(),
        "location: src/x.rs:42".to_string(),
        "panic info: boom".to_string(),
    ]
}

/// Runs a report to its end.  `opens` says which of the files can be
/// opened; the result is every line written, the file it went to, and
/// the last action.
fn run(exit: bool, opens: &[bool], trace: Option<&str>) -> (Vec<String>, Option<String>, Action) {
    let paths = candidate_paths("/tmp/panic.log".to_string());
    let (mut report, mut action) = Report::start(program(exit), platform(), boom(), paths);
    let mut lines = Vec::new();
    let mut tried = 0;
    let mut steps = 0;
    loop {
        steps += 1;
        assert!(steps < 20);
        let event = match action {
            Action::Open { .. } => {
                let ok = opens[tried];
                tried += 1;
                Event::Opened(ok)
            }
            Action::Write { lines: more } => {
                lines.extend(more);
                Event::Written
            }
            Action::CaptureTrace => match trace {
                Some(t) => Event::Trace(t.to_string()),
                None => Event::Written,
            },
            last => {
                assert!(report.is_finished());
                return (lines, report.destination().cloned(), last);
            }
        };
        assert!(!report.is_finished());
        action = report.step(event);
    }
}

#[test]
fn text_payloads_are_their_own_message() {
    for text in ["boom", "", "two\nlines", "<unknown panic info>", "gr\u{fc}\u{df}e \u{1f980}"] {
        assert_eq!(payload_message(Payload::Text(text.to_string())), text);
    }
}

#[test]
fn other_payloads_get_the_placeholder() {
    assert_eq!(payload_message(Payload::Other), "<unknown panic info>");
}

#[test]
fn events_take_names_and_placeholders() {
    let named = boom();
    assert_eq!(named.thread_name, "worker-1");
    assert_eq!(named.timestamp, "2024-01-01 10:00:00 +00:00");
    assert_eq!(named.file, "src/x.rs");
    assert_eq!(named.line, 42);
    assert_eq!(named.message, "boom");
    let unnamed = PanicEvent::new("t".to_string(), None, "f.rs".to_string(), 0, Payload::Other);
    assert_eq!(unnamed.thread_name, "<unnamed>");
    assert_eq!(unnamed.message, "<unknown panic info>");
    assert_eq!(unnamed.line, 0);
}

#[test]
fn a_captured_event_differs_only_in_its_time() {
    let event = PanicEvent::capture(None, "src/main.rs".to_string(), 7, Payload::Text("x".to_string()));
    assert_eq!(event.thread_name, "<unnamed>");
    assert_eq!(event.file, "src/main.rs");
    assert_eq!(event.line, 7);
    assert_eq!(event.message, "x");
    assert!(!event.timestamp.is_empty());
}

#[test]
fn the_working_directory_comes_first() {
    assert_eq!(REPORT_FILE_NAME, "panic.log");
    assert_eq!(
        candidate_paths("/tmp/panic.log".to_string()),
        vec!["panic.log".to_string(), "/tmp/panic.log".to_string()]
    );
}

#[test]
fn lines_are_stamped() {
    assert_eq!(stamp_line("12:00", "thread: main"), "12:00: thread: main");
    assert_eq!(stamp_line("", ""), ": ");
    let now = stamped("app version: 1.2.3");
    assert!(now.ends_with(": app version: 1.2.3"));
    assert!(now.len() > ": app version: 1.2.3".len());
}

#[test]
fn scenario_boom_with_exit() {
    let (lines, destination, last) = run(true, &[true], Some("0: main"));
    assert_eq!(destination, Some("panic.log".to_string()));
    let mut expected = head("panic.log");
    expected.push("backtrace: 0: main".to_string());
    expected.push(END.to_string());
    assert_eq!(lines, expected);
    for needle in [
        "app version: 1.2.3",
        "app build date: 2024-01-01",
        "thread: worker-1",
        "location: src/x.rs:42",
        "panic info: boom",
    ] {
        assert_eq!(lines.iter().filter(|l| l.contains(needle)).count(), 1);
    }
    assert!(matches!(last, Action::Exit { code: 1 }));
}

#[test]
fn scenario_no_exit() {
    let (lines, destination, last) = run(false, &[true], Some("0: main"));
    assert_eq!(destination, Some("panic.log".to_string()));
    assert_eq!(lines.len(), 12);
    assert_eq!(lines[0], START);
    assert_eq!(lines[11], END);
    assert!(matches!(last, Action::Resume));
}

#[test]
fn one_block_with_markers_in_order() {
    for opens in [[true, true], [false, true], [false, false]] {
        let (lines, _, _) = run(true, &opens, Some("trace"));
        assert_eq!(lines.iter().filter(|l| l.as_str() == START).count(), 1);
        assert_eq!(lines.iter().filter(|l| l.as_str() == END).count(), 1);
        assert_eq!(lines.first().unwrap(), START);
        assert_eq!(lines.last().unwrap(), END);
        assert_eq!(lines[1], "app version: 1.2.3");
        assert_eq!(lines[2], "app build date: 2024-01-01");
    }
}

#[test]
fn the_temporary_directory_is_the_fallback() {
    let (lines, destination, last) = run(true, &[false, true], Some("t"));
    assert_eq!(destination, Some("/tmp/panic.log".to_string()));
    assert_eq!(lines[..10], head("/tmp/panic.log")[..]);
    assert_eq!(lines.len(), 12);
    assert!(matches!(last, Action::Exit { code: 1 }));
}

#[test]
fn without_a_file_the_report_is_still_written() {
    let (lines, destination, last) = run(false, &[false, false], Some("t"));
    assert_eq!(destination, None);
    assert_eq!(lines[..10], head("<no file>")[..]);
    assert_eq!(lines[10], "backtrace: t");
    assert_eq!(lines[11], END);
    assert!(matches!(last, Action::Resume));
}

#[test]
fn the_files_are_asked_for_in_order() {
    let paths = candidate_paths("/tmp/panic.log".to_string());
    let (mut report, first) = Report::start(program(true), platform(), boom(), paths);
    assert_eq!(open_path(first), "panic.log");
    assert_eq!(report.destination(), None);
    assert_eq!(open_path(report.step(Event::Opened(false))), "/tmp/panic.log");
    assert_eq!(report.destination(), None);
    assert_eq!(written(report.step(Event::Opened(true))), head("/tmp/panic.log"));
    assert_eq!(report.destination().unwrap(), "/tmp/panic.log");
}

#[test]
fn the_trace_is_taken_after_the_head_is_written() {
    let paths = candidate_paths("/tmp/panic.log".to_string());
    let (mut report, _) = Report::start(program(true), platform(), boom(), paths);
    assert_eq!(written(report.step(Event::Opened(true))).len(), 10);
    assert!(matches!(report.step(Event::Written), Action::CaptureTrace));
    assert_eq!(
        written(report.step(Event::Trace("frames".to_string()))),
        vec!["backtrace: frames".to_string(), END.to_string()]
    );
    assert!(!report.is_finished());
    assert!(matches!(report.step(Event::Written), Action::Exit { code: 1 }));
    assert!(report.is_finished());
}

#[test]
fn a_missing_trace_is_left_out() {
    let (lines, _, last) = run(true, &[true], None);
    assert_eq!(lines.len(), 11);
    assert_eq!(lines[..10], head("panic.log")[..]);
    assert_eq!(lines[10], END);
    assert!(matches!(last, Action::Exit { code: 1 }));
}

#[test]
fn a_report_without_candidates_goes_to_standard_error() {
    let (mut report, first) = Report::start(program(false), platform(), boom(), Vec::new());
    assert_eq!(written(first), head("<no file>"));
    assert_eq!(report.destination(), None);
    assert!(matches!(report.step(Event::Written), Action::CaptureTrace));
    assert_eq!(written(report.step(Event::Trace(String::new()))), vec!["backtrace: ".to_string(), END.to_string()]);
    assert!(matches!(report.step(Event::Written), Action::Resume));
}

#[test]
fn unexpected_answers_do_not_stall_the_report() {
    let paths = candidate_paths("/tmp/panic.log".to_string());
    let (mut report, _) = Report::start(program(true), platform(), boom(), paths);
    assert_eq!(open_path(report.step(Event::Written)), "/tmp/panic.log");
    assert_eq!(written(report.step(Event::Trace("x".to_string()))), head("<no file>"));
    assert!(matches!(report.step(Event::Opened(true)), Action::CaptureTrace));
    assert_eq!(written(report.step(Event::Opened(false))), vec![END.to_string()]);
    assert!(matches!(report.step(Event::Trace("y".to_string())), Action::Exit { code: 1 }));
    assert!(report.is_finished());
}

#[test]
fn a_finished_report_repeats_its_last_action() {
    let paths = candidate_paths("/tmp/panic.log".to_string());
    let (mut report, _) = Report::start(program(false), platform(), boom(), paths);
    report.step(Event::Opened(true));
    report.step(Event::Written);
    report.step(Event::Trace("t".to_string()));
    assert!(matches!(report.step(Event::Written), Action::Resume));
    for _ in 0..3 {
        assert!(matches!(report.step(Event::Written), Action::Resume));
        assert!(report.is_finished());
        assert_eq!(report.destination().unwrap(), "panic.log");
    }
}

#[test]
fn many_candidates_are_tried_one_by_one() {
    let paths: Vec<String> = (0..5).map(|i| format!("dir{}/panic.log", i)).collect();
    let (mut report, first) = Report::start(program(true), platform(), boom(), paths);
    assert_eq!(open_path(first), "dir0/panic.log");
    for i in 1..5 {
        assert_eq!(open_path(report.step(Event::Opened(false))), format!("dir{}/panic.log", i));
    }
    assert_eq!(written(report.step(Event::Opened(false))), head("<no file>"));
}

#[test]
fn a_message_that_looks_like_a_marker_stays_inside_its_line() {
    let event = PanicEvent::new(
        "t".to_string(),
        Some(START.to_string()),
        "f.rs".to_string(),
        1,
        Payload::Text(END.to_string()),
    );
    let (_, first) = Report::start(program(true), platform(), event, Vec::new());
    let lines = written(first);
    assert_eq!(lines.iter().filter(|l| l.as_str() == START).count(), 1);
    assert_eq!(lines.iter().filter(|l| l.as_str() == END).count(), 0);
    assert_eq!(lines[6], format!("thread: {}", START));
    assert_eq!(lines[9], format!("panic info: {}", END));
}
