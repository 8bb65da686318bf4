//! Crash reporting, second half: the lines of a report, and the protocol
//! by which one is written.
//!
//! Nothing here touches the process or the disk.  A caller whose fault
//! was admitted starts a `Report`, carries out each `Action` it is
//! handed, and answers with the `Event` that came of it, until the action
//! is `Exit` or `Resume`.

use vstd::prelude::*;
use crate::painc::{Admitted, PaincConf, PaincConfView, FAULT_EXIT_CODE};
use crate::text::{decimal, opt_text, push_decimal, texts};
use crate::time::local_now_text;

verus! {

/// What a fault carried with it.
#[derive(Debug)]
pub enum Payload {
    /// A text, whether borrowed or owned.
    Text(String),
    /// A value of any other type.
    Other,
}

/// The message that a payload stands for: the text itself, or a fixed
/// placeholder where the payload is no text.
pub open spec fn payload_text(payload: Payload) -> Seq<char> {
    match payload {
        Payload::Text(t) => t@,
        Payload::Other => "<unknown panic info>"@,
    }
}

/// Extracts the message of a payload.
pub fn payload_message(payload: Payload) -> (message: String)
    ensures
        message@ == payload_text(payload),
{
    match payload {
        Payload::Text(t) => t,
        Payload::Other => "<unknown panic info>".to_string(),
    }
}

/// The name under which a thread is reported: its own, or a fixed
/// placeholder where it has none.
pub open spec fn thread_text(name: Option<Seq<char>>) -> Seq<char> {
    match name {
        Some(n) => n,
        None => "<unnamed>"@,
    }
}

/// The machine that the process runs on.
#[derive(Debug)]
pub struct Platform {
    /// Name of the operating system.
    pub os: String,
    /// Name of the processor architecture.
    pub arch: String,
}

/// A `Platform` as plain values.
pub struct PlatformView {
    pub os: Seq<char>,
    pub arch: Seq<char>,
}

impl View for Platform {
    type V = PlatformView;

    open spec fn view(&self) -> PlatformView {
        PlatformView { os: self.os@, arch: self.arch@ }
    }
}

/// One fault, as far as it is known when it is caught.  The stack trace
/// joins the report later, when everything else has been written.
#[derive(Debug)]
pub struct PanicEvent {
    /// Local time at which the fault was caught.
    pub timestamp: String,
    /// Name of the thread that faulted.
    pub thread_name: String,
    /// Source file in which the fault arose.
    pub file: String,
    /// Line in that file.
    pub line: u32,
    /// Message of the fault.
    pub message: String,
}

/// A `PanicEvent` as plain values.
pub struct PanicEventView {
    pub timestamp: Seq<char>,
    pub thread_name: Seq<char>,
    pub file: Seq<char>,
    pub line: u32,
    pub message: Seq<char>,
}

impl View for PanicEvent {
    type V = PanicEventView;

    open spec fn view(&self) -> PanicEventView {
        PanicEventView {
            timestamp: self.timestamp@,
            thread_name: self.thread_name@,
            file: self.file@,
            line: self.line,
            message: self.message@,
        }
    }
}

/// The event that a fault at `file:line` on the given thread stands
/// for, caught at time `timestamp`.
pub open spec fn event_of(
    timestamp: Seq<char>,
    thread: Option<Seq<char>>,
    file: Seq<char>,
    line: u32,
    payload: Payload,
) -> PanicEventView {
    PanicEventView {
        timestamp,
        thread_name: thread_text(thread),
        file,
        line,
        message: payload_text(payload),
    }
}

impl PanicEvent {
    /// The event of a fault that was caught at time `timestamp`.
    pub fn new(
        timestamp: String,
        thread: Option<String>,
        file: String,
        line: u32,
        payload: Payload,
    ) -> (event: Self)
        ensures
            event@ == event_of(timestamp@, opt_text(thread), file@, line, payload),
    {
        let thread_name = match thread {
            Some(name) => name,
            None => "<unnamed>".to_string(),
        };
        PanicEvent { timestamp, thread_name, file, line, message: payload_message(payload) }
    }

    /// The event of a fault that is caught now.  The time is read from
    /// the clock; everything else is as `new` has it.
    pub fn capture(thread: Option<String>, file: String, line: u32, payload: Payload) -> (event:
        Self)
        ensures
            event@ == event_of(event@.timestamp, opt_text(thread), file@, line, payload),
    {
        PanicEvent::new(local_now_text(), thread, file, line, payload)
    }
}

/// The name of the report file, in each directory that is tried.
pub const REPORT_FILE_NAME: &'static str = "panic.log";

/// The files to try for the report, in order: the one in the working
/// directory, then the given one, which stands in the directory for
/// temporary files.
pub fn candidate_paths(temp_file: String) -> (paths: Vec<String>)
    ensures
        texts(paths@) == seq![REPORT_FILE_NAME@, temp_file@],
{
    let mut paths: Vec<String> = Vec::new();
    paths.push(REPORT_FILE_NAME.to_string());
    paths.push(temp_file);
    paths
}

/// The line that opens a report.
pub open spec fn start_marker() -> Seq<char> {
    "panic occurred:-----------------------------start-----------------------------"@
}

/// The line that closes a report.  It ends with two line breaks, which
/// leave a gap before whatever is written next.
pub open spec fn end_marker() -> Seq<char> {
    "panic occurred:-----------------------------end-----------------------------\n\n"@
}

/// The file that a report names as its own: the one that was opened, or
/// a fixed placeholder where none was.
pub open spec fn destination_text(destination: Option<Seq<char>>) -> Seq<char> {
    match destination {
        Some(path) => path,
        None => "<no file>"@,
    }
}

/// The first part of a report, which is written before the stack trace
/// is taken: the opening marker, then the program, the machine, the file
/// of the report, and the fault.
pub open spec fn head_lines(
    conf: PaincConfView,
    platform: PlatformView,
    event: PanicEventView,
    destination: Option<Seq<char>>,
) -> Seq<Seq<char>> {
    seq![
        start_marker(),
        "app version: "@ + conf.version,
        "app build date: "@ + conf.build_time,
        "os version: "@ + platform.os,
        "arch: "@ + platform.arch,
        "panic is recorded in: "@ + destination_text(destination),
        "thread: "@ + event.thread_name,
        "time: "@ + event.timestamp,
        "location: "@ + event.file + ":"@ + decimal(event.line as nat),
        "panic info: "@ + event.message,
    ]
}

/// The last part of a report: the stack trace, where one was taken, and
/// the closing marker.
pub open spec fn tail_lines(trace: Option<Seq<char>>) -> Seq<Seq<char>> {
    match trace {
        Some(t) => seq!["backtrace: "@ + t, end_marker()],
        None => seq![end_marker()],
    }
}

/// A whole report, line by line.
pub open spec fn report_block(
    conf: PaincConfView,
    platform: PlatformView,
    event: PanicEventView,
    destination: Option<Seq<char>>,
    trace: Option<Seq<char>>,
) -> Seq<Seq<char>> {
    head_lines(conf, platform, event, destination) + tail_lines(trace)
}

/// A line that starts with `label` and goes on with `value`.
fn labelled(label: &str, value: &str) -> (line: String)
    ensures
        line@ == label@ + value@,
{
    let mut line = String::new();
    line.append(label);
    line.append(value);
    line
}

/// Writes the first part of a report.
fn compose_head(
    conf: &PaincConf,
    platform: &Platform,
    event: &PanicEvent,
    destination: &Option<String>,
) -> (lines: Vec<String>)
    ensures
        texts(lines@) == head_lines(conf@, platform@, event@, opt_text(*destination)),
{
    let mut lines: Vec<String> = Vec::new();
    lines.push(
        "panic occurred:-----------------------------start-----------------------------".to_string(),
    );
    lines.push(labelled("app version: ", conf.version.as_str()));
    lines.push(labelled("app build date: ", conf.build_time.as_str()));
    lines.push(labelled("os version: ", platform.os.as_str()));
    lines.push(labelled("arch: ", platform.arch.as_str()));
    let recorded = match destination {
        Some(path) => labelled("panic is recorded in: ", path.as_str()),
        None => labelled("panic is recorded in: ", "<no file>"),
    };
    lines.push(recorded);
    lines.push(labelled("thread: ", event.thread_name.as_str()));
    lines.push(labelled("time: ", event.timestamp.as_str()));
    let mut location = labelled("location: ", event.file.as_str());
    location.append(":");
    push_decimal(&mut location, event.line);
    lines.push(location);
    lines.push(labelled("panic info: ", event.message.as_str()));
    lines
}

/// Writes the last part of a report.
fn compose_tail(trace: Option<String>) -> (lines: Vec<String>)
    ensures
        texts(lines@) == tail_lines(opt_text(trace)),
{
    let mut lines: Vec<String> = Vec::new();
    match trace {
        Some(t) => {
            lines.push(labelled("backtrace: ", t.as_str()));
        },
        None => {},
    }
    lines.push(
        "panic occurred:-----------------------------end-----------------------------\n\n".to_string(),
    );
    lines
}

/// A line as it is written at time `now`: the time, a colon and a space,
/// and the line.
pub open spec fn stamped_text(now: Seq<char>, line: Seq<char>) -> Seq<char> {
    now + ": "@ + line
}

/// Puts the time `now` in front of a line.
pub fn stamp_line(now: &str, line: &str) -> (written: String)
    ensures
        written@ == stamped_text(now@, line@),
{
    let mut written = String::new();
    written.append(now);
    written.append(": ");
    written.append(line);
    written
}

/// Puts the present time in front of a line.  The time is read from the
/// clock; the rest is as `stamp_line` has it.
pub fn stamped(line: &str) -> (written: String)
    ensures
        exists|now: Seq<char>| written@ == #[trigger] stamped_text(now, line@),
{
    let now = local_now_text();
    let written = stamp_line(now.as_str(), line);
    assert(written@ == stamped_text(now@, line@));
    written
}

/// What the caller is to do next.
#[derive(Debug)]
pub enum Action {
    /// Try to open the file for appending, creating it where it is
    /// missing; answer with `Event::Opened`.
    Open { path: String },
    /// Write each line to standard error and to the file that was
    /// opened, if any, and go on whether or not that worked; answer with
    /// `Event::Written`.
    Write { lines: Vec<String> },
    /// Take the stack trace; answer with `Event::Trace`.
    CaptureTrace,
    /// End the process with this status.
    Exit { code: i32 },
    /// Return, and let the fault take its usual course.
    Resume,
}

/// An `Action` as plain values.
pub enum ActionView {
    Open { path: Seq<char> },
    Write { lines: Seq<Seq<char>> },
    CaptureTrace,
    Exit { code: i32 },
    Resume,
}

impl View for Action {
    type V = ActionView;

    open spec fn view(&self) -> ActionView {
        match self {
            Action::Open { path } => ActionView::Open { path: path@ },
            Action::Write { lines } => ActionView::Write { lines: texts(lines@) },
            Action::CaptureTrace => ActionView::CaptureTrace,
            Action::Exit { code } => ActionView::Exit { code: *code },
            Action::Resume => ActionView::Resume,
        }
    }
}

/// What came of the last action.
#[derive(Debug)]
pub enum Event {
    /// Whether the file could be opened.
    Opened(bool),
    /// The lines were written, or could not be.
    Written,
    /// The stack trace, as text.
    Trace(String),
}

/// An `Event` as plain values.
pub enum EventView {
    Opened(bool),
    Written,
    Trace(Seq<char>),
}

impl View for Event {
    type V = EventView;

    open spec fn view(&self) -> EventView {
        match self {
            Event::Opened(ok) => EventView::Opened(*ok),
            Event::Written => EventView::Written,
            Event::Trace(t) => EventView::Trace(t@),
        }
    }
}

/// How far a report has come.
#[derive(Clone, Copy, Debug)]
enum Phase {
    Opening,
    Head,
    Trace,
    Tail,
    Finished,
}

/// How far a report has come, as plain values.
pub enum PhaseView {
    /// The file of this path is being opened.
    Opening(Seq<char>),
    /// The first part is being written.
    Head,
    /// The stack trace is being taken.
    Trace,
    /// The last part is being written.
    Tail,
    /// The report is done and the last action was handed out.
    Finished,
}

/// One report in the making.
#[derive(Debug)]
pub struct Report {
    conf: PaincConf,
    platform: Platform,
    event: PanicEvent,
    candidates: Vec<String>,
    next: usize,
    trying: String,
    destination: Option<String>,
    phase: Phase,
}

/// A `Report` as plain values.
pub struct ReportView {
    /// The program that faulted.
    pub conf: PaincConfView,
    /// The machine it runs on.
    pub platform: PlatformView,
    /// The fault.
    pub event: PanicEventView,
    /// The files to try, in order.
    pub candidates: Seq<Seq<char>>,
    /// How many of them were tried or are being tried.
    pub next: nat,
    /// The file that was opened, if any.
    pub destination: Option<Seq<char>>,
    /// How far the report has come.
    pub phase: PhaseView,
}

impl View for Report {
    type V = ReportView;

    closed spec fn view(&self) -> ReportView {
        ReportView {
            conf: self.conf@,
            platform: self.platform@,
            event: self.event@,
            candidates: texts(self.candidates@),
            next: self.next as nat,
            destination: opt_text(self.destination),
            phase: match self.phase {
                Phase::Opening => PhaseView::Opening(self.trying@),
                Phase::Head => PhaseView::Head,
                Phase::Trace => PhaseView::Trace,
                Phase::Tail => PhaseView::Tail,
                Phase::Finished => PhaseView::Finished,
            },
        }
    }
}

/// The action that ends a report: the process ends with the status of a
/// fault where the configuration asks for it, and carries on where not.
pub open spec fn last_action(conf: PaincConfView) -> ActionView {
    if conf.painc_exit {
        ActionView::Exit { code: FAULT_EXIT_CODE }
    } else {
        ActionView::Resume
    }
}

/// The first part of the report `r`, naming `destination` as its file.
pub open spec fn head_of(r: ReportView, destination: Option<Seq<char>>) -> Seq<Seq<char>> {
    head_lines(r.conf, r.platform, r.event, destination)
}

/// How a report starts: with the first file to try, or, where there is
/// none, with its first part, which then names no file.
pub open spec fn started(
    conf: PaincConfView,
    platform: PlatformView,
    event: PanicEventView,
    candidates: Seq<Seq<char>>,
) -> (ReportView, ActionView) {
    if candidates.len() > 0 {
        (
            ReportView {
                conf,
                platform,
                event,
                candidates,
                next: 1,
                destination: None,
                phase: PhaseView::Opening(candidates[0]),
            },
            ActionView::Open { path: candidates[0] },
        )
    } else {
        (
            ReportView {
                conf,
                platform,
                event,
                candidates,
                next: 0,
                destination: None,
                phase: PhaseView::Head,
            },
            ActionView::Write { lines: head_lines(conf, platform, event, None) },
        )
    }
}

/// How a report goes on after an event: the report as it is then, and
/// the next action.
///
/// While a file is being opened, only `Opened(true)` counts as success;
/// on anything else the next file is tried, and after the last one the
/// report goes on without a file.  While the trace is being taken, only
/// `Trace` brings one; on anything else the report goes on without it.
/// In the other phases every event moves the report on.
pub open spec fn stepped(r: ReportView, e: EventView) -> (ReportView, ActionView) {
    match r.phase {
        PhaseView::Opening(path) => {
            if e == EventView::Opened(true) {
                (
                    ReportView { destination: Some(path), phase: PhaseView::Head, ..r },
                    ActionView::Write { lines: head_of(r, Some(path)) },
                )
            } else if r.next < r.candidates.len() {
                (
                    ReportView {
                        next: r.next + 1,
                        phase: PhaseView::Opening(r.candidates[r.next as int]),
                        ..r
                    },
                    ActionView::Open { path: r.candidates[r.next as int] },
                )
            } else {
                (
                    ReportView { destination: None, phase: PhaseView::Head, ..r },
                    ActionView::Write { lines: head_of(r, None) },
                )
            }
        },
        PhaseView::Head => (ReportView { phase: PhaseView::Trace, ..r }, ActionView::CaptureTrace),
        PhaseView::Trace => (
            ReportView { phase: PhaseView::Tail, ..r },
            ActionView::Write {
                lines: tail_lines(
                    match e {
                        EventView::Trace(t) => Some(t),
                        _ => None,
                    },
                ),
            },
        ),
        PhaseView::Tail => (ReportView { phase: PhaseView::Finished, ..r }, last_action(r.conf)),
        PhaseView::Finished => (r, last_action(r.conf)),
    }
}

impl Report {
    /// Starts the report of an admitted fault.  `candidates` are the
    /// files to try for it, in order.
    pub fn start(
        admitted: Admitted,
        platform: Platform,
        event: PanicEvent,
        candidates: Vec<String>,
    ) -> (out: (Report, Action))
        ensures
            out.0@ == started(admitted@, platform@, event@, texts(candidates@)).0,
            out.1@ == started(admitted@, platform@, event@, texts(candidates@)).1,
    {
        let conf = admitted.into_conf();
        if candidates.len() > 0 {
            let trying = candidates[0].clone();
            let path = candidates[0].clone();
            let report = Report {
                conf,
                platform,
                event,
                candidates,
                next: 1,
                trying,
                destination: None,
                phase: Phase::Opening,
            };
            (report, Action::Open { path })
        } else {
            let destination: Option<String> = None;
            let lines = compose_head(&conf, &platform, &event, &destination);
            let report = Report {
                conf,
                platform,
                event,
                candidates,
                next: 0,
                trying: String::new(),
                destination,
                phase: Phase::Head,
            };
            (report, Action::Write { lines })
        }
    }

    /// Takes in what came of the last action, and hands out the next one.
    pub fn step(&mut self, event: Event) -> (action: Action)
        ensures
            final(self)@ == stepped(old(self)@, event@).0,
            action@ == stepped(old(self)@, event@).1,
    {
        match self.phase {
            Phase::Opening => {
                let opened = match event {
                    Event::Opened(ok) => ok,
                    _ => false,
                };
                if opened {
                    self.destination = Some(self.trying.clone());
                    self.phase = Phase::Head;
                    let lines = compose_head(
                        &self.conf,
                        &self.platform,
                        &self.event,
                        &self.destination,
                    );
                    Action::Write { lines }
                } else if self.next < self.candidates.len() {
                    self.trying = self.candidates[self.next].clone();
                    let path = self.candidates[self.next].clone();
                    self.next = self.next + 1;
                    Action::Open { path }
                } else {
                    self.destination = None;
                    self.phase = Phase::Head;
                    let lines = compose_head(
                        &self.conf,
                        &self.platform,
                        &self.event,
                        &self.destination,
                    );
                    Action::Write { lines }
                }
            },
            Phase::Head => {
                self.phase = Phase::Trace;
                Action::CaptureTrace
            },
            Phase::Trace => {
                self.phase = Phase::Tail;
                let trace = match event {
                    Event::Trace(t) => Some(t),
                    _ => None,
                };
                Action::Write { lines: compose_tail(trace) }
            },
            Phase::Tail => {
                self.phase = Phase::Finished;
                self.closing_action()
            },
            Phase::Finished => self.closing_action(),
        }
    }

    /// The action that ends this report.
    fn closing_action(&self) -> (action: Action)
        ensures
            action@ == last_action(self@.conf),
    {
        if self.conf.painc_exit {
            Action::Exit { code: FAULT_EXIT_CODE }
        } else {
            Action::Resume
        }
    }

    /// The file that the report is written to, once one was opened.
    pub fn destination(&self) -> (path: Option<&String>)
        ensures
            match path {
                Some(p) => self@.destination == Some(p@),
                None => self@.destination is None,
            },
    {
        self.destination.as_ref()
    }

    /// Whether the report is done.
    pub fn is_finished(&self) -> (done: bool)
        ensures
            done == (self@.phase is Finished),
    {
        match self.phase {
            Phase::Finished => true,
            _ => false,
        }
    }
}

/// The most steps that a report still takes before it is done.
pub open spec fn steps_left(r: ReportView) -> nat {
    match r.phase {
        PhaseView::Opening(_) => if r.next < r.candidates.len() {
            (r.candidates.len() - r.next + 4) as nat
        } else {
            4
        },
        PhaseView::Head => 3,
        PhaseView::Trace => 2,
        PhaseView::Tail => 1,
        PhaseView::Finished => 0,
    }
}

/// Every report comes to its end, whatever the events are: each step
/// brings it closer, and neither a file that does not open nor a trace
/// that is not taken holds it up.  What a report says of the program,
/// the machine and the fault never changes on the way.
///
/// The action tells the phase that the report has come to: a file is
/// asked for while files are being opened, lines are handed out on the
/// way into the first and into the last part, the trace is asked for on
/// the way into the phase between them, and the process is ended or the
/// fault let go when the report is done.  As every step brings the
/// report closer to its end, it comes into each part once at most.
pub proof fn lemma_report_completes(r: ReportView, e: EventView)
    ensures
        !(r.phase is Finished) ==> steps_left(stepped(r, e).0) < steps_left(r),
        r.phase is Finished ==> stepped(r, e).0 == r,
        steps_left(r) == 0 <==> r.phase is Finished,
        stepped(r, e).0.conf == r.conf,
        stepped(r, e).0.platform == r.platform,
        stepped(r, e).0.event == r.event,
        stepped(r, e).0.candidates == r.candidates,
        stepped(r, e).1 is Open <==> stepped(r, e).0.phase is Opening,
        stepped(r, e).1 is Write <==> (stepped(r, e).0.phase is Head || stepped(r, e).0.phase
            is Tail),
        stepped(r, e).1 is CaptureTrace <==> stepped(r, e).0.phase is Trace,
        stepped(r, e).0.phase is Finished <==> stepped(r, e).1 == last_action(r.conf),
        stepped(r, e).0.phase is Finished <==> (stepped(r, e).1 is Exit || stepped(r, e).1
            is Resume),
{
}

/// The report after `failures` files in a row could not be opened.
pub open spec fn after_failures(start: ReportView, failures: nat) -> ReportView
    decreases failures,
{
    if failures == 0 {
        start
    } else {
        stepped(after_failures(start, (failures - 1) as nat), EventView::Opened(false)).0
    }
}

/// The files are tried in their order.  After the first `k` of them
/// could not be opened, the next one is being opened and no file is
/// held yet.  If that one opens, the report names it; if it does not
/// and it was the last, the report names no file.  Either way the first
/// part of the report is written next.
pub proof fn lemma_files_tried_in_order(
    conf: PaincConfView,
    platform: PlatformView,
    event: PanicEventView,
    candidates: Seq<Seq<char>>,
    k: nat,
)
    requires
        k < candidates.len(),
    ensures
        ({
            let start = started(conf, platform, event, candidates).0;
            let r = after_failures(start, k);
            &&& r == ReportView {
                conf,
                platform,
                event,
                candidates,
                next: k + 1,
                destination: None,
                phase: PhaseView::Opening(candidates[k as int]),
            }
            &&& k == 0 ==> started(conf, platform, event, candidates).1 == ActionView::Open {
                path: candidates[0],
            }
            &&& k > 0 ==> stepped(after_failures(start, (k - 1) as nat), EventView::Opened(false)).1
                == ActionView::Open { path: candidates[k as int] }
            &&& stepped(r, EventView::Opened(true)).1 == ActionView::Write {
                lines: head_lines(conf, platform, event, Some(candidates[k as int])),
            }
            &&& stepped(r, EventView::Opened(true)).0.destination == Some(candidates[k as int])
            &&& k + 1 == candidates.len() ==> stepped(r, EventView::Opened(false)).1
                == ActionView::Write { lines: head_lines(conf, platform, event, None) }
            &&& k + 1 == candidates.len() ==> stepped(r, EventView::Opened(false)).0.destination
                is None
        }),
    decreases k,
{
    if k > 0 {
        lemma_files_tried_in_order(conf, platform, event, candidates, (k - 1) as nat);
    }
}

/// With the two usual files: when the one in the working directory
/// cannot be opened, the one in the directory for temporary files is
/// tried; the report goes to it if it opens, and to standard error alone
/// if it does not.  In both cases the report is written in full and
/// comes to its end.
pub proof fn lemma_fallback_to_temp(
    conf: PaincConfView,
    platform: PlatformView,
    event: PanicEventView,
    temp_file: Seq<char>,
    temp_opens: bool,
    trace: Seq<char>,
)
    ensures
        ({
            let paths = seq![REPORT_FILE_NAME@, temp_file];
            let dest = if temp_opens {
                Some(temp_file)
            } else {
                None
            };
            let (r0, a0) = started(conf, platform, event, paths);
            let (r1, a1) = stepped(r0, EventView::Opened(false));
            let (r2, a2) = stepped(r1, EventView::Opened(temp_opens));
            let (r3, a3) = stepped(r2, EventView::Written);
            let (r4, a4) = stepped(r3, EventView::Trace(trace));
            let (r5, a5) = stepped(r4, EventView::Written);
            &&& a0 == ActionView::Open { path: REPORT_FILE_NAME@ }
            &&& a1 == ActionView::Open { path: temp_file }
            &&& a2 == ActionView::Write { lines: head_lines(conf, platform, event, dest) }
            &&& r2.destination == dest
            &&& a3 == ActionView::CaptureTrace
            &&& a4 == ActionView::Write { lines: tail_lines(Some(trace)) }
            &&& a5 == last_action(conf)
            &&& r5.phase is Finished
        }),
{
}

/// Once the first part of a report is handed out, what follows is
/// fixed: the trace is asked for, then the last part is handed out, with
/// the trace if one came, and then the report is done.  So the lines of
/// one report are its first part and its last part, each handed out
/// once: one whole block.
pub proof fn lemma_one_block(r: ReportView, e1: EventView, e2: EventView, e3: EventView)
    requires
        r.phase is Head,
    ensures
        ({
            let (r1, a1) = stepped(r, e1);
            let (r2, a2) = stepped(r1, e2);
            let (r3, a3) = stepped(r2, e3);
            let trace = match e2 {
                EventView::Trace(t) => Some(t),
                _ => None,
            };
            &&& a1 == ActionView::CaptureTrace
            &&& a2 == ActionView::Write { lines: tail_lines(trace) }
            &&& a3 == last_action(r.conf)
            &&& r3.phase is Finished
            &&& head_of(r, r.destination) + tail_lines(trace) == report_block(
                r.conf,
                r.platform,
                r.event,
                r.destination,
                trace,
            )
        }),
{
}

/// A report is one well-formed block.  Its first line is the opening
/// marker and its last line the closing marker, and no other line is
/// either of them, whatever the program, the machine and the fault are
/// called.  The second line gives the version and the third the build
/// time, both letter for letter.
pub proof fn lemma_block_well_formed(
    conf: PaincConfView,
    platform: PlatformView,
    event: PanicEventView,
    destination: Option<Seq<char>>,
    trace: Option<Seq<char>>,
)
    ensures
        ({
            let block = report_block(conf, platform, event, destination, trace);
            &&& block.len() == if trace is Some {
                12int
            } else {
                11int
            }
            &&& block[0] == start_marker()
            &&& block[block.len() - 1] == end_marker()
            &&& forall|i: int| 0 < i < block.len() ==> block[i] != start_marker()
            &&& forall|i: int| 0 <= i < block.len() - 1 ==> block[i] != end_marker()
            &&& block[1] == "app version: "@ + conf.version
            &&& block[2] == "app build date: "@ + conf.build_time
        }),
{
    reveal_strlit("panic occurred:-----------------------------start-----------------------------");
    reveal_strlit("panic occurred:-----------------------------end-----------------------------\n\n");
    reveal_strlit("app version: ");
    reveal_strlit("app build date: ");
    reveal_strlit("os version: ");
    reveal_strlit("arch: ");
    reveal_strlit("panic is recorded in: ");
    reveal_strlit("thread: ");
    reveal_strlit("time: ");
    reveal_strlit("location: ");
    reveal_strlit("panic info: ");
    reveal_strlit("backtrace: ");
    assert(start_marker()[0] == 'p' && start_marker()[6] == 'o' && start_marker()[44] == 's');
    assert(end_marker()[0] == 'p' && end_marker()[6] == 'o' && end_marker()[44] == 'e');
}

} // verus!
