//! Logging configuration: the settings a caller gives, the layout of a
//! log line in each style, and the backend settings a configuration
//! stands for.

use vstd::prelude::*;
use crate::text::{decimal, opt_text, push_decimal, texts};

verus! {

/// The layout of the timestamp that opens every log line.
pub const TIME_FORMAT: &'static str = "%Y.%m.%d %H:%M:%S%.3f";

/// Which fields a log line shows before the message.
#[derive(Clone, Copy, Debug, PartialEq, Eq, Structural)]
pub enum LogStyle {
    /// Time and level; warnings and errors also show where they come from.
    Default,
    /// Time, level, and the source file and line.
    Line,
    /// Time, level and module; warnings and errors also show file and line.
    Module,
    /// Time, level, module, and the source file and line.
    Full,
}

/// How severe a record is, from `Error` (most severe) to `Trace`.
#[derive(Clone, Copy, Debug, PartialEq, Eq, Structural)]
pub enum Level {
    Error,
    Warn,
    Info,
    Debug,
    Trace,
}

/// What a caller asks of the logger.
#[derive(Clone, Debug)]
pub struct LogConfig {
    /// Severity code, 1 (errors only) to 5 (everything).
    pub level: u8,
    /// Size in megabytes at which the log file is rotated.
    pub size_mb: u64,
    /// Whether records are also shown on the console.
    pub console: bool,
    /// Directory that receives the log files.
    pub dir: String,
    /// Days for which rotated files are kept.
    pub keep_day: usize,
    /// Modules that are held to warnings and errors.
    pub filters: Option<Vec<String>>,
    /// Layout of each line.
    pub style: LogStyle,
}

/// A `LogConfig` as plain values.
pub struct LogConfigView {
    pub level: u8,
    pub size_mb: u64,
    pub console: bool,
    pub dir: Seq<char>,
    pub keep_day: usize,
    pub filters: Option<Seq<Seq<char>>>,
    pub style: LogStyle,
}

impl View for LogConfig {
    type V = LogConfigView;

    open spec fn view(&self) -> LogConfigView {
        LogConfigView {
            level: self.level,
            size_mb: self.size_mb,
            console: self.console,
            dir: self.dir@,
            keep_day: self.keep_day,
            filters: match self.filters {
                Some(list) => Some(texts(list@)),
                None => None,
            },
            style: self.style,
        }
    }
}

/// The rotation size used when none is given, in megabytes.
pub fn default_usize() -> (size_mb: u64)
    ensures
        size_mb == 3,
{
    3
}

/// Records go to the console unless told otherwise.
pub fn default_console() -> (console: bool)
    ensures
        console,
{
    true
}

/// The days of retention used when none are given.
pub fn default_keep_day() -> (days: usize)
    ensures
        days == 3,
{
    3
}

/// The severity code used when none is given: debug.
pub fn default_level() -> (code: u8)
    ensures
        code == 4,
{
    4
}

/// The directory used when none is given.
pub fn default_log_dir() -> (dir: String)
    ensures
        dir@ == "./logs"@,
{
    "./logs".to_string()
}

impl Default for LogConfig {
    fn default() -> (cfg: Self)
        ensures
            cfg@ == (LogConfigView {
                level: 4,
                size_mb: 3,
                console: true,
                dir: "./logs"@,
                keep_day: 3,
                filters: None,
                style: LogStyle::Default,
            }),
    {
        Self {
            level: default_level(),
            size_mb: default_usize(),
            console: default_console(),
            dir: default_log_dir(),
            keep_day: default_keep_day(),
            filters: None,
            style: LogStyle::Default,
        }
    }
}

/// The severity code that a level name stands for.  A name is accepted
/// all in lower case or all in upper case; any other text gives 4.
pub open spec fn code_of_name(name: Seq<char>) -> u8 {
    if name == "trace"@ || name == "TRACE"@ {
        5
    } else if name == "debug"@ || name == "DEBUG"@ {
        4
    } else if name == "info"@ || name == "INFO"@ {
        3
    } else if name == "warn"@ || name == "WARN"@ {
        2
    } else if name == "error"@ || name == "ERROR"@ {
        1
    } else {
        4
    }
}

/// Turns a level name into its severity code.
pub fn string_to_level(level: &str) -> (code: u8)
    ensures
        code == code_of_name(level@),
        1 <= code <= 5,
{
    if *level == *"trace" || *level == *"TRACE" {
        5
    } else if *level == *"debug" || *level == *"DEBUG" {
        4
    } else if *level == *"info" || *level == *"INFO" {
        3
    } else if *level == *"warn" || *level == *"WARN" {
        2
    } else if *level == *"error" || *level == *"ERROR" {
        1
    } else {
        4
    }
}

/// The level that a severity code selects.  Codes outside 1 to 5 select
/// `Debug`.
pub open spec fn level_at(code: u8) -> Level {
    if code == 1 {
        Level::Error
    } else if code == 2 {
        Level::Warn
    } else if code == 3 {
        Level::Info
    } else if code == 5 {
        Level::Trace
    } else {
        Level::Debug
    }
}

/// Turns a severity code into its level.
pub fn level_of_code(code: u8) -> (level: Level)
    ensures
        level == level_at(code),
{
    if code == 1 {
        Level::Error
    } else if code == 2 {
        Level::Warn
    } else if code == 3 {
        Level::Info
    } else if code == 5 {
        Level::Trace
    } else {
        Level::Debug
    }
}

/// The name a level is printed with.
pub open spec fn level_label(level: Level) -> Seq<char> {
    match level {
        Level::Error => "ERROR"@,
        Level::Warn => "WARN"@,
        Level::Info => "INFO"@,
        Level::Debug => "DEBUG"@,
        Level::Trace => "TRACE"@,
    }
}

/// Names, codes and levels agree: the name that a level is printed with
/// stands for the code that selects that level.
pub proof fn lemma_names_codes_levels_agree(level: Level)
    ensures
        level_at(code_of_name(level_label(level))) == level,
        1 <= code_of_name(level_label(level)) <= 5,
{
    reveal_strlit("trace");
    reveal_strlit("TRACE");
    reveal_strlit("debug");
    reveal_strlit("DEBUG");
    reveal_strlit("info");
    reveal_strlit("INFO");
    reveal_strlit("warn");
    reveal_strlit("WARN");
    reveal_strlit("error");
    reveal_strlit("ERROR");
    assert("trace"@[0] == 't' && "debug"@[0] == 'd' && "info"@[0] == 'i' && "warn"@[0] == 'w'
        && "error"@[0] == 'e');
    assert("TRACE"@[0] == 'T' && "DEBUG"@[0] == 'D' && "INFO"@[0] == 'I' && "WARN"@[0] == 'W'
        && "ERROR"@[0] == 'E');
}

/// The name under which the `log` crate prints a level.
///
/// Calls `log::Level::as_str`, which gives the level's name in capital
/// letters: the name of the variant, and the text that the level's
/// `Display` writes.
#[verifier::external_body]
fn level_name(level: Level) -> (name: &'static str)
    ensures
        name@ == level_label(level),
{
    let outside = match level {
        Level::Error => log::Level::Error,
        Level::Warn => log::Level::Warn,
        Level::Info => log::Level::Info,
        Level::Debug => log::Level::Debug,
        Level::Trace => log::Level::Trace,
    };
    outside.as_str()
}

/// One record on its way to the log: what the layouts read of it.
#[derive(Clone, Debug)]
pub struct LogRecord {
    /// Severity of the record.
    pub level: Level,
    /// Source file that issued it, where known.
    pub file: Option<String>,
    /// Line in that file, where known.
    pub line: Option<u32>,
    /// Module that issued it, where known.
    pub module: Option<String>,
    /// The message itself.
    pub args: String,
}

/// A `LogRecord` as plain values.
pub struct LogRecordView {
    pub level: Level,
    pub file: Option<Seq<char>>,
    pub line: Option<u32>,
    pub module: Option<Seq<char>>,
    pub args: Seq<char>,
}

impl View for LogRecord {
    type V = LogRecordView;

    open spec fn view(&self) -> LogRecordView {
        LogRecordView {
            level: self.level,
            file: opt_text(self.file),
            line: self.line,
            module: opt_text(self.module),
            args: self.args@,
        }
    }
}

/// Warnings and errors: the records that always show their source.
pub open spec fn is_alarming(level: Level) -> bool {
    level == Level::Error || level == Level::Warn
}

/// What opens every line: the time, then the level in square brackets.
pub open spec fn opening(now: Seq<char>, level: Level) -> Seq<char> {
    now + " ["@ + level_label(level) + "]"@
}

/// The module in square brackets; `<unnamed>` where it is not known.
pub open spec fn module_part(r: LogRecordView) -> Seq<char> {
    " ["@ + match r.module {
        Some(m) => m,
        None => "<unnamed>"@,
    } + "]"@
}

/// File and line, joined by a colon; `<unnamed>` and 0 where they are
/// not known.
pub open spec fn location_part(r: LogRecordView) -> Seq<char> {
    " "@ + match r.file {
        Some(f) => f,
        None => "<unnamed>"@,
    } + ":"@ + decimal(
        match r.line {
            Some(n) => n as nat,
            None => 0,
        },
    )
}

/// What closes every line: a colon, a space and the message.
pub open spec fn closing(r: LogRecordView) -> Seq<char> {
    ": "@ + r.args
}

/// Whether a style shows the module of a record.
pub open spec fn shows_module(style: LogStyle) -> bool {
    style == LogStyle::Module || style == LogStyle::Full
}

/// Whether a style shows file and line of a record of the given level.
/// Warnings and errors show them in every style.
pub open spec fn shows_location(style: LogStyle, level: Level) -> bool {
    style == LogStyle::Line || style == LogStyle::Full || is_alarming(level)
}

/// The line that a style lays out for a record at time `now`.
pub open spec fn styled_line(style: LogStyle, now: Seq<char>, r: LogRecordView) -> Seq<char> {
    opening(now, r.level) + (if shows_module(style) {
        module_part(r)
    } else {
        Seq::empty()
    }) + (if shows_location(style, r.level) {
        location_part(r)
    } else {
        Seq::empty()
    }) + closing(r)
}

/// Starts a line with the time and the level.
fn open_line(now: &str, level: Level) -> (out: String)
    ensures
        out@ == opening(now@, level),
{
    let mut out = String::new();
    out.append(now);
    out.append(" [");
    out.append(level_name(level));
    out.append("]");
    out
}

/// Adds the module of `record` to a line.
fn push_module(out: &mut String, record: &LogRecord)
    ensures
        final(out)@ == old(out)@ + module_part(record@),
{
    out.append(" [");
    match &record.module {
        Some(m) => out.append(m.as_str()),
        None => out.append("<unnamed>"),
    }
    out.append("]");
}

/// Adds file and line of `record` to a line.
fn push_location(out: &mut String, record: &LogRecord)
    ensures
        final(out)@ == old(out)@ + location_part(record@),
{
    out.append(" ");
    match &record.file {
        Some(f) => out.append(f.as_str()),
        None => out.append("<unnamed>"),
    }
    out.append(":");
    let line: u32 = match record.line {
        Some(n) => n,
        None => 0,
    };
    push_decimal(out, line);
}

/// Ends a line with the message of `record`.
fn close_line(out: &mut String, record: &LogRecord)
    ensures
        final(out)@ == old(out)@ + closing(record@),
{
    out.append(": ");
    out.append(record.args.as_str());
}

/// Whether a level is a warning or an error.
fn alarming(level: Level) -> (yes: bool)
    ensures
        yes == is_alarming(level),
{
    match level {
        Level::Error => true,
        Level::Warn => true,
        _ => false,
    }
}

/// Lays out a record in the `Default` style: time and level, and for
/// warnings and errors file and line as well.
pub fn _default(now: &str, record: &LogRecord) -> (line: String)
    ensures
        line@ == styled_line(LogStyle::Default, now@, record@),
{
    let mut out = open_line(now, record.level);
    if alarming(record.level) {
        push_location(&mut out, record);
    }
    close_line(&mut out, record);
    out
}

/// Lays out a record in the `Line` style: time, level, file and line.
pub fn _line(now: &str, record: &LogRecord) -> (line: String)
    ensures
        line@ == styled_line(LogStyle::Line, now@, record@),
{
    let mut out = open_line(now, record.level);
    push_location(&mut out, record);
    close_line(&mut out, record);
    out
}

/// Lays out a record in the `Module` style: time, level and module, and
/// for warnings and errors file and line as well.
pub fn _module(now: &str, record: &LogRecord) -> (line: String)
    ensures
        line@ == styled_line(LogStyle::Module, now@, record@),
{
    let mut out = open_line(now, record.level);
    push_module(&mut out, record);
    if alarming(record.level) {
        push_location(&mut out, record);
    }
    close_line(&mut out, record);
    out
}

/// Lays out a record in the `Full` style: time, level, module, file and
/// line.
pub fn _full(now: &str, record: &LogRecord) -> (line: String)
    ensures
        line@ == styled_line(LogStyle::Full, now@, record@),
{
    let mut out = open_line(now, record.level);
    push_module(&mut out, record);
    push_location(&mut out, record);
    close_line(&mut out, record);
    out
}

/// Whatever the style, the line of a warning or an error holds the
/// record's file and line, directly before the colon that introduces the
/// message; the line of any record ends with its message.
pub proof fn lemma_alarming_lines_show_location(
    style: LogStyle,
    now: Seq<char>,
    r: LogRecordView,
)
    ensures
        is_alarming(r.level) ==> exists|before: Seq<char>|
            styled_line(style, now, r) == before + location_part(r) + closing(r),
        exists|before: Seq<char>| styled_line(style, now, r) == before + #[trigger] closing(r),
{
    let head = opening(now, r.level) + (if shows_module(style) {
        module_part(r)
    } else {
        Seq::empty()
    });
    let body = head + (if shows_location(style, r.level) {
        location_part(r)
    } else {
        Seq::empty()
    });
    assert(styled_line(style, now, r) == body + closing(r));
    if is_alarming(r.level) {
        assert(styled_line(style, now, r) == head + location_part(r) + closing(r));
    }
}

/// The backend's builder of level filters, kept as it is.
#[verifier::external_type_specification]
#[verifier::external_body]
pub struct ExLogSpecBuilder(flexi_logger::LogSpecBuilder);

/// The backend's finished set of level filters, kept as it is.
#[verifier::external_type_specification]
#[verifier::external_body]
pub struct ExLogSpecification(flexi_logger::LogSpecification);

/// The filters that a builder holds: for each module name, and under
/// `None` for all other modules, the least severe level that passes;
/// `None` as a level lets nothing pass.
pub uninterp spec fn builder_filters(builder: flexi_logger::LogSpecBuilder) -> Map<
    Option<Seq<char>>,
    Option<Level>,
>;

/// The filters that a finished specification holds, read as
/// `builder_filters` reads a builder.
pub uninterp spec fn specification_filters(spec: flexi_logger::LogSpecification) -> Map<
    Option<Seq<char>>,
    Option<Level>,
>;

/// The filters that let nothing pass: one entry, for all modules.
pub open spec fn all_off() -> Map<Option<Seq<char>>, Option<Level>> {
    Map::empty().insert(None, None)
}

/// A builder in its first state.
///
/// Calls `flexi_logger::LogSpecification::builder`, which makes a builder
/// whose one entry switches all modules off.
#[verifier::external_body]
fn new_builder() -> (builder: flexi_logger::LogSpecBuilder)
    ensures
        builder_filters(builder) == all_off(),
{
    flexi_logger::LogSpecification::builder()
}

/// Sets the level for all modules that have no entry of their own.
///
/// Calls `flexi_logger::LogSpecBuilder::default`, which inserts the level
/// under the key `None` and replaces what stood there.
#[verifier::external_body]
fn set_default_level(builder: &mut flexi_logger::LogSpecBuilder, level: Level)
    ensures
        builder_filters(*final(builder)) == builder_filters(*old(builder)).insert(
            None,
            Some(level),
        ),
{
    let filter = match level {
        Level::Error => log::LevelFilter::Error,
        Level::Warn => log::LevelFilter::Warn,
        Level::Info => log::LevelFilter::Info,
        Level::Debug => log::LevelFilter::Debug,
        Level::Trace => log::LevelFilter::Trace,
    };
    builder.default(filter);
}

/// Sets the level for one module.
///
/// Calls `flexi_logger::LogSpecBuilder::module`, which inserts the level
/// under the module's name and replaces what stood there.
#[verifier::external_body]
fn set_module_level(builder: &mut flexi_logger::LogSpecBuilder, module: &str, level: Level)
    ensures
        builder_filters(*final(builder)) == builder_filters(*old(builder)).insert(
            Some(module@),
            Some(level),
        ),
{
    let filter = match level {
        Level::Error => log::LevelFilter::Error,
        Level::Warn => log::LevelFilter::Warn,
        Level::Info => log::LevelFilter::Info,
        Level::Debug => log::LevelFilter::Debug,
        Level::Trace => log::LevelFilter::Trace,
    };
    builder.module(module, filter);
}

/// The specification that a builder stands for.
///
/// Calls `flexi_logger::LogSpecBuilder::build`, which copies each entry
/// of the builder into the specification, one filter for each key.
#[verifier::external_body]
fn build_specification(builder: &flexi_logger::LogSpecBuilder) -> (spec:
    flexi_logger::LogSpecification)
    ensures
        specification_filters(spec) == builder_filters(*builder),
{
    builder.build()
}

/// The filters that a configuration asks for: its own level for all
/// modules, and warnings and errors only for each module it names.
pub open spec fn config_filters(cfg: LogConfigView) -> Map<Option<Seq<char>>, Option<Level>> {
    Map::new(
        |key: Option<Seq<char>>|
            match key {
                None => true,
                Some(name) => cfg.filters is Some && cfg.filters->0.contains(name),
            },
        |key: Option<Seq<char>>|
            match key {
                None => Some(level_at(cfg.level)),
                Some(_) => Some(Level::Warn),
            },
    )
}

/// The filters after the first `done` names of `names` were entered
/// beside the general level.
pub open spec fn filters_upto(general: Level, names: Seq<Seq<char>>, done: int) -> Map<
    Option<Seq<char>>,
    Option<Level>,
> {
    Map::new(
        |key: Option<Seq<char>>|
            match key {
                None => true,
                Some(name) => exists|i: int| 0 <= i < done && names[i] == name,
            },
        |key: Option<Seq<char>>|
            match key {
                None => Some(general),
                Some(_) => Some(Level::Warn),
            },
    )
}

/// Builds the backend's level filters for a configuration.
pub fn log_specification(cfg: &LogConfig) -> (spec: flexi_logger::LogSpecification)
    ensures
        specification_filters(spec) == config_filters(cfg@),
{
    let general = level_of_code(cfg.level);
    let mut builder = new_builder();
    set_default_level(&mut builder, general);
    match &cfg.filters {
        Some(items) => {
            let ghost names = texts(items@);
            let mut i: usize = 0;
            while i < items.len()
                invariant
                    i <= items.len(),
                    names == texts(items@),
                    builder_filters(builder) == filters_upto(general, names, i as int),
                decreases items.len() - i,
            {
                set_module_level(&mut builder, items[i].as_str(), Level::Warn);
                assert(names[i as int] == items[i as int]@);
                i += 1;
            }
        },
        None => {},
    }
    build_specification(&builder)
}

/// Bytes in one megabyte.
pub const MEGABYTE: u64 = 1024 * 1024;

/// The layout of the date that names a rotated file.
pub const ROTATED_NAME_FORMAT: &'static str = "%Y.%m.%d";

/// Why a configuration cannot be turned into backend settings.
#[derive(Clone, Copy, Debug, PartialEq, Eq, Structural)]
pub enum SetupError {
    /// The rotation size, counted in bytes, does not fit in 64 bits.
    RotationTooLarge,
}

impl SetupError {
    /// The error in words.
    pub fn message(&self) -> (text: &'static str)
        ensures
            text@ == "rotation size in bytes exceeds 64 bits"@,
    {
        match self {
            SetupError::RotationTooLarge => "rotation size in bytes exceeds 64 bits",
        }
    }
}

/// The backend settings that a configuration stands for.
///
/// Log files rotate at each new day, or earlier once a file holds
/// `rotate_bytes` bytes.  A rotated file is named by its date, laid out
/// as `rotated_name_format`, and kept for `keep_days` days.
#[derive(Debug)]
pub struct LoggerPlan {
    /// Level filters, for all modules and for the modules named.
    pub specification: flexi_logger::LogSpecification,
    /// Layout of each line.
    pub style: LogStyle,
    /// Size at which the file is rotated, in bytes.
    pub rotate_bytes: u64,
    /// Layout of the date in a rotated file's name.
    pub rotated_name_format: &'static str,
    /// Days for which rotated files are kept.
    pub keep_days: usize,
    /// Directory that receives the log files.
    pub directory: String,
    /// First part of each file's name.
    pub basename: &'static str,
    /// The least severe level that is also shown on the console, if any.
    pub duplicate: Option<Level>,
}

/// A `LoggerPlan` as plain values.
pub struct LoggerPlanView {
    pub filters: Map<Option<Seq<char>>, Option<Level>>,
    pub style: LogStyle,
    pub rotate_bytes: u64,
    pub rotated_name_format: Seq<char>,
    pub keep_days: usize,
    pub directory: Seq<char>,
    pub basename: Seq<char>,
    pub duplicate: Option<Level>,
}

impl View for LoggerPlan {
    type V = LoggerPlanView;

    open spec fn view(&self) -> LoggerPlanView {
        LoggerPlanView {
            filters: specification_filters(self.specification),
            style: self.style,
            rotate_bytes: self.rotate_bytes,
            rotated_name_format: self.rotated_name_format@,
            keep_days: self.keep_days,
            directory: self.directory@,
            basename: self.basename@,
            duplicate: self.duplicate,
        }
    }
}

/// Whether the rotation size of a configuration can be counted in bytes.
pub open spec fn rotation_fits(cfg: LogConfigView) -> bool {
    cfg.size_mb * MEGABYTE <= u64::MAX
}

/// The settings that a configuration with a rotation size that fits
/// stands for.
pub open spec fn plan_of(cfg: LogConfigView) -> LoggerPlanView {
    LoggerPlanView {
        filters: config_filters(cfg),
        style: cfg.style,
        rotate_bytes: (cfg.size_mb * MEGABYTE) as u64,
        rotated_name_format: ROTATED_NAME_FORMAT@,
        keep_days: cfg.keep_day,
        directory: cfg.dir,
        basename: Seq::empty(),
        duplicate: if cfg.console {
            Some(level_at(cfg.level))
        } else {
            None
        },
    }
}

/// Turns a configuration into the settings of the backend.  Fails only
/// when the rotation size cannot be counted in bytes.
pub fn setup(cfg: LogConfig) -> (plan: Result<LoggerPlan, SetupError>)
    ensures
        match plan {
            Ok(p) => rotation_fits(cfg@) && p@ == plan_of(cfg@),
            Err(e) => !rotation_fits(cfg@) && e == SetupError::RotationTooLarge,
        },
{
    let rotate_bytes = match cfg.size_mb.checked_mul(MEGABYTE) {
        Some(bytes) => bytes,
        None => {
            return Err(SetupError::RotationTooLarge);
        },
    };
    let specification = log_specification(&cfg);
    let duplicate = if cfg.console {
        Some(level_of_code(cfg.level))
    } else {
        None
    };
    proof {
        reveal_strlit("");
        assert(""@ =~= Seq::<char>::empty());
    }
    Ok(
        LoggerPlan {
            specification,
            style: cfg.style,
            rotate_bytes,
            rotated_name_format: ROTATED_NAME_FORMAT,
            keep_days: cfg.keep_day,
            directory: cfg.dir,
            basename: "",
            duplicate,
        },
    )
}

} // verus!
