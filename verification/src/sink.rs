//! The logger as a machine. The program around it owns the channel and the
//! files: it hands the logger what happened, the logger answers with what is
//! to be done next. One logger serves all four logs.

use vstd::prelude::*;

use crate::config::{GooseConfiguration, GooseDefaults};
use crate::logger::{
    debug_csv_header, debug_record_text, error_csv_header, error_record_text, requests_csv_header,
    request_record_text, task_record_text, tasks_csv_header, GooseLog, GooseLogFormat, GooseLogger,
};
use crate::text::push_str;

verus! {

/// One of the four log files.
#[derive(Debug, Clone, Copy, PartialEq, Eq, Structural)]
pub enum GooseLogFile {
    /// The debug log.
    Debug,
    /// The error log.
    Error,
    /// The request log.
    Request,
    /// The task log.
    Task,
}

/// What the logger knows: which files are open, for which files a failed
/// write was already reported, and whether it has finished.
#[derive(Debug, Clone, Copy, PartialEq, Eq, Structural)]
pub struct GooseLoggerState {
    /// Whether the debug log is open.
    pub debug_open: bool,
    /// Whether the error log is open.
    pub error_open: bool,
    /// Whether the request log is open.
    pub request_open: bool,
    /// Whether the task log is open.
    pub task_open: bool,
    /// Whether a failed write to the debug log was reported.
    pub debug_warned: bool,
    /// Whether a failed write to the error log was reported.
    pub error_warned: bool,
    /// Whether a failed write to the request log was reported.
    pub request_warned: bool,
    /// Whether a failed write to the task log was reported.
    pub task_warned: bool,
    /// Whether the logger has flushed its files and stopped.
    pub finished: bool,
}

/// What happened, as the program around the logger reports it.
#[derive(Debug)]
pub enum GooseLoggerEvent {
    /// The logger was started.
    Start,
    /// A file that the logger asked for was created, or could not be.
    Opened {
        /// The file.
        file: GooseLogFile,
        /// Whether it was created.
        success: bool,
    },
    /// The channel delivered a message: a record, or `None` for "finish".
    Received(Option<GooseLog>),
    /// The channel was closed: no user can send any more.
    Disconnected,
    /// A write to a file failed.
    WriteFailed {
        /// The file.
        file: GooseLogFile,
    },
}

/// What the logger asks the program around it to do.
#[derive(Debug)]
pub enum GooseLoggerAction {
    /// Create the file, replacing any file at that path, and write to it
    /// through a buffer of the given capacity.
    Open {
        /// The file.
        file: GooseLogFile,
        /// Where to create it.
        path: String,
        /// What to call it in messages.
        label: String,
        /// The capacity of its buffer, in bytes.
        buffer_capacity: usize,
    },
    /// Append the text to the file.
    Write {
        /// The file.
        file: GooseLogFile,
        /// The text, with the line feed that ends it.
        text: String,
    },
    /// Write out what the file's buffer holds.
    Flush {
        /// The file.
        file: GooseLogFile,
    },
    /// Report that a write to the file failed.
    Warn {
        /// The file.
        file: GooseLogFile,
    },
    /// Release the files and stop.
    Exit,
}

/// What an action holds.
pub enum GooseLoggerActionView {
    /// Create a file.
    Open { file: GooseLogFile, path: Seq<char>, label: Seq<char>, buffer_capacity: usize },
    /// Append a text to a file.
    Write { file: GooseLogFile, text: Seq<char> },
    /// Write out what a file's buffer holds.
    Flush { file: GooseLogFile },
    /// Report that a write failed.
    Warn { file: GooseLogFile },
    /// Release the files and stop.
    Exit,
}

impl View for GooseLoggerAction {
    type V = GooseLoggerActionView;

    open spec fn view(&self) -> GooseLoggerActionView {
        match self {
            GooseLoggerAction::Open {
                file,
                path,
                label,
                buffer_capacity,
            } => GooseLoggerActionView::Open {
                file: *file,
                path: path@,
                label: label@,
                buffer_capacity: *buffer_capacity,
            },
            GooseLoggerAction::Write { file, text } => GooseLoggerActionView::Write {
                file: *file,
                text: text@,
            },
            GooseLoggerAction::Flush { file } => GooseLoggerActionView::Flush { file: *file },
            GooseLoggerAction::Warn { file } => GooseLoggerActionView::Warn { file: *file },
            GooseLoggerAction::Exit => GooseLoggerActionView::Exit,
        }
    }
}

/// What the actions of a list hold, in order.
pub open spec fn action_views(actions: Seq<GooseLoggerAction>) -> Seq<GooseLoggerActionView> {
    Seq::new(actions.len(), |i: int| actions[i]@)
}

/// The smaller buffer: 64 KiB.
pub const SMALL_BUFFER: usize = 65536;

/// The larger buffer, for logs that may hold bodies: 8 MiB.
pub const LARGE_BUFFER: usize = 8388608;

/// The configured path of a log; empty where the log is disabled.
pub open spec fn log_path(config: GooseConfiguration, file: GooseLogFile) -> Seq<char> {
    match file {
        GooseLogFile::Debug => config.debug_log@,
        GooseLogFile::Error => config.error_log@,
        GooseLogFile::Request => config.request_log@,
        GooseLogFile::Task => config.task_log@,
    }
}

/// The configured format of a log.
pub open spec fn log_format(config: GooseConfiguration, file: GooseLogFile) -> Option<
    GooseLogFormat,
> {
    match file {
        GooseLogFile::Debug => config.debug_format,
        GooseLogFile::Error => config.error_format,
        GooseLogFile::Request => config.request_format,
        GooseLogFile::Task => config.task_format,
    }
}

/// What a log is called in messages.
pub open spec fn log_label(file: GooseLogFile) -> Seq<char> {
    match file {
        GooseLogFile::Debug => "debug file"@,
        GooseLogFile::Error => "error log"@,
        GooseLogFile::Request => "request log"@,
        GooseLogFile::Task => "task log"@,
    }
}

/// The first line of a log in the CSV format.
pub open spec fn log_header(file: GooseLogFile) -> Seq<char> {
    match file {
        GooseLogFile::Debug => "tag,request,header,body"@,
        GooseLogFile::Error => "elapsed,raw,name,final_url,redirected,response_time,status_code,user,error"@,
        GooseLogFile::Request => "elapsed,raw,name,final_url,redirected,response_time,status_code,success,update,user,error,coordinated_omission_elapsed,user_cadence"@,
        GooseLogFile::Task => "elapsed,taskset_index,task_index,name,run_time,success,user"@,
    }
}

/// The capacity of a log's buffer: the larger one for the debug log unless
/// response bodies are left out of it, and for the request log where request
/// bodies are captured; the smaller one otherwise.
pub open spec fn log_buffer_capacity(config: GooseConfiguration, file: GooseLogFile) -> usize {
    match file {
        GooseLogFile::Debug => if config.no_debug_body {
            SMALL_BUFFER
        } else {
            LARGE_BUFFER
        },
        GooseLogFile::Request => if config.request_body {
            LARGE_BUFFER
        } else {
            SMALL_BUFFER
        },
        GooseLogFile::Error => SMALL_BUFFER,
        GooseLogFile::Task => SMALL_BUFFER,
    }
}

/// Every log has a format. This holds once the loggers are configured, off a
/// manager.
pub open spec fn formats_configured(config: GooseConfiguration) -> bool {
    &&& config.debug_format is Some
    &&& config.error_format is Some
    &&& config.request_format is Some
    &&& config.task_format is Some
}

/// The log of the record that an event brings has a format; of an event that
/// brings no record this holds as it is.
pub open spec fn record_has_format(config: GooseConfiguration, event: GooseLoggerEvent) -> bool {
    match event {
        GooseLoggerEvent::Received(Some(log)) => log_format(config, log_file_of(log)) is Some,
        _ => true,
    }
}

/// The log that a record belongs to.
pub open spec fn log_file_of(log: GooseLog) -> GooseLogFile {
    match log {
        GooseLog::Debug(_) => GooseLogFile::Debug,
        GooseLog::Error(_) => GooseLogFile::Error,
        GooseLog::Request(_) => GooseLogFile::Request,
        GooseLog::Task(_) => GooseLogFile::Task,
    }
}

/// A record in the format of its log.
pub open spec fn log_text(config: GooseConfiguration, log: GooseLog) -> Seq<char> {
    match log {
        GooseLog::Debug(m) => debug_record_text(m, config.debug_format.unwrap()),
        GooseLog::Error(m) => error_record_text(m, config.error_format.unwrap()),
        GooseLog::Request(m) => request_record_text(m, config.request_format.unwrap()),
        GooseLog::Task(m) => task_record_text(m, config.task_format.unwrap()),
    }
}

impl GooseLoggerState {
    /// The state of a logger that was just started: no file is open.
    pub open spec fn initial() -> GooseLoggerState {
        GooseLoggerState {
            debug_open: false,
            error_open: false,
            request_open: false,
            task_open: false,
            debug_warned: false,
            error_warned: false,
            request_warned: false,
            task_warned: false,
            finished: false,
        }
    }

    /// Whether a file is open.
    pub open spec fn is_open(self, file: GooseLogFile) -> bool {
        match file {
            GooseLogFile::Debug => self.debug_open,
            GooseLogFile::Error => self.error_open,
            GooseLogFile::Request => self.request_open,
            GooseLogFile::Task => self.task_open,
        }
    }

    /// Whether a failed write to a file was reported.
    pub open spec fn is_warned(self, file: GooseLogFile) -> bool {
        match file {
            GooseLogFile::Debug => self.debug_warned,
            GooseLogFile::Error => self.error_warned,
            GooseLogFile::Request => self.request_warned,
            GooseLogFile::Task => self.task_warned,
        }
    }

    /// The state with a file open.
    pub open spec fn with_open(self, file: GooseLogFile) -> GooseLoggerState {
        match file {
            GooseLogFile::Debug => GooseLoggerState { debug_open: true, ..self },
            GooseLogFile::Error => GooseLoggerState { error_open: true, ..self },
            GooseLogFile::Request => GooseLoggerState { request_open: true, ..self },
            GooseLogFile::Task => GooseLoggerState { task_open: true, ..self },
        }
    }

    /// The state with a failed write to a file reported.
    pub open spec fn with_warned(self, file: GooseLogFile) -> GooseLoggerState {
        match file {
            GooseLogFile::Debug => GooseLoggerState { debug_warned: true, ..self },
            GooseLogFile::Error => GooseLoggerState { error_warned: true, ..self },
            GooseLogFile::Request => GooseLoggerState { request_warned: true, ..self },
            GooseLogFile::Task => GooseLoggerState { task_warned: true, ..self },
        }
    }

    /// The state of a logger that has stopped: no file is open.
    pub open spec fn stopped(self) -> GooseLoggerState {
        GooseLoggerState {
            debug_open: false,
            error_open: false,
            request_open: false,
            task_open: false,
            finished: true,
            ..self
        }
    }

    /// The state of a logger that was just started.
    pub fn new() -> (r: GooseLoggerState)
        ensures
            r == GooseLoggerState::initial(),
    {
        GooseLoggerState {
            debug_open: false,
            error_open: false,
            request_open: false,
            task_open: false,
            debug_warned: false,
            error_warned: false,
            request_warned: false,
            task_warned: false,
            finished: false,
        }
    }

    /// Whether a file is open.
    pub fn file_is_open(&self, file: GooseLogFile) -> (r: bool)
        ensures
            r == self.is_open(file),
    {
        match file {
            GooseLogFile::Debug => self.debug_open,
            GooseLogFile::Error => self.error_open,
            GooseLogFile::Request => self.request_open,
            GooseLogFile::Task => self.task_open,
        }
    }
}

/// Opening one log: nothing where it has no path, else the request to
/// create its file.
pub open spec fn open_actions(config: GooseConfiguration, file: GooseLogFile) -> Seq<
    GooseLoggerActionView,
> {
    if log_path(config, file).len() == 0 {
        Seq::empty()
    } else {
        seq![
            GooseLoggerActionView::Open {
                file,
                path: log_path(config, file),
                label: log_label(file),
                buffer_capacity: log_buffer_capacity(config, file),
            },
        ]
    }
}

/// What a logger does first: it opens the debug log, the error log, the
/// request log and the task log, in that order, each if it is enabled.
pub open spec fn start_actions(config: GooseConfiguration) -> Seq<GooseLoggerActionView> {
    open_actions(config, GooseLogFile::Debug) + open_actions(config, GooseLogFile::Error)
        + open_actions(config, GooseLogFile::Request) + open_actions(config, GooseLogFile::Task)
}

/// What follows the creation of a file: in the CSV format its header is
/// written, in the other formats nothing.
pub open spec fn header_actions(config: GooseConfiguration, file: GooseLogFile) -> Seq<
    GooseLoggerActionView,
> {
    if log_format(config, file) == Some(GooseLogFormat::Csv) {
        seq![GooseLoggerActionView::Write { file, text: log_header(file) + seq!['\n'] }]
    } else {
        Seq::empty()
    }
}

/// What a record leads to: a line in its log where that log is open, nothing
/// otherwise.
pub open spec fn record_actions(
    config: GooseConfiguration,
    state: GooseLoggerState,
    log: GooseLog,
) -> Seq<GooseLoggerActionView> {
    if state.is_open(log_file_of(log)) {
        seq![
            GooseLoggerActionView::Write {
                file: log_file_of(log),
                text: log_text(config, log) + seq!['\n'],
            },
        ]
    } else {
        Seq::empty()
    }
}

/// Flushing one log: nothing where it is not open.
pub open spec fn flush_actions(state: GooseLoggerState, file: GooseLogFile) -> Seq<
    GooseLoggerActionView,
> {
    if state.is_open(file) {
        seq![GooseLoggerActionView::Flush { file }]
    } else {
        Seq::empty()
    }
}

/// How a logger finishes: it flushes the debug log, the request log, the
/// task log and the error log, in that order, each if it is open, and stops.
pub open spec fn finish_actions(state: GooseLoggerState) -> Seq<GooseLoggerActionView> {
    flush_actions(state, GooseLogFile::Debug) + flush_actions(state, GooseLogFile::Request)
        + flush_actions(state, GooseLogFile::Task) + flush_actions(state, GooseLogFile::Error)
        + seq![GooseLoggerActionView::Exit]
}

/// The state after an event.
pub open spec fn next_state(state: GooseLoggerState, event: GooseLoggerEvent) -> GooseLoggerState {
    if state.finished {
        state
    } else {
        match event {
            GooseLoggerEvent::Start => state,
            GooseLoggerEvent::Opened { file, success } => if success {
                state.with_open(file)
            } else {
                state
            },
            GooseLoggerEvent::Received(Some(_)) => state,
            GooseLoggerEvent::Received(None) => state.stopped(),
            GooseLoggerEvent::Disconnected => state.stopped(),
            GooseLoggerEvent::WriteFailed { file } => state.with_warned(file),
        }
    }
}

/// What the logger asks for after an event. A logger that has finished asks
/// for nothing more. A failed write is reported the first time it happens to
/// a file, and never stops the logger.
pub open spec fn next_actions(
    config: GooseConfiguration,
    state: GooseLoggerState,
    event: GooseLoggerEvent,
) -> Seq<GooseLoggerActionView> {
    if state.finished {
        Seq::empty()
    } else {
        match event {
            GooseLoggerEvent::Start => start_actions(config),
            GooseLoggerEvent::Opened { file, success } => if success {
                header_actions(config, file)
            } else {
                Seq::empty()
            },
            GooseLoggerEvent::Received(Some(log)) => record_actions(config, state, log),
            GooseLoggerEvent::Received(None) => finish_actions(state),
            GooseLoggerEvent::Disconnected => finish_actions(state),
            GooseLoggerEvent::WriteFailed { file } => if state.is_warned(file) {
                Seq::empty()
            } else {
                seq![GooseLoggerActionView::Warn { file }]
            },
        }
    }
}

fn copy_text(s: &str) -> (r: String)
    ensures
        r@ == s@,
{
    let mut r = String::new();
    push_str(&mut r, s);
    assert(r@ =~= s@);
    r
}

impl GooseConfiguration {
    /// Whether any of the four logs has a path.
    pub open spec fn any_log_enabled(&self) -> bool {
        ||| self.debug_log@.len() > 0
        ||| self.request_log@.len() > 0
        ||| self.task_log@.len() > 0
        ||| self.error_log@.len() > 0
    }

    /// Prepares the logger: on a manager there is none; elsewhere the
    /// loggers are configured from the run-time options and `defaults`, and
    /// there is a logger, in its first state, if at least one log is enabled.
    /// The caller starts a logger where it gets a state.
    pub fn setup_loggers(&mut self, defaults: &GooseDefaults) -> (r: Option<GooseLoggerState>)
        ensures
            old(self).manager ==> r is None && *final(self) == *old(self),
            !old(self).manager ==> {
                &&& final(self).debug_log@ == crate::logger::resolved_log_path(
                    old(self).debug_log@,
                    defaults.debug_log,
                )
                &&& final(self).error_log@ == crate::logger::resolved_log_path(
                    old(self).error_log@,
                    defaults.error_log,
                )
                &&& final(self).request_log@ == crate::logger::resolved_log_path(
                    old(self).request_log@,
                    defaults.request_log,
                )
                &&& final(self).task_log@ == crate::logger::resolved_log_path(
                    old(self).task_log@,
                    defaults.task_log,
                )
                &&& final(self).debug_format == crate::logger::resolved_log_format(
                    old(self).debug_format,
                    defaults.debug_format,
                    false,
                )
                &&& final(self).error_format == crate::logger::resolved_log_format(
                    old(self).error_format,
                    defaults.error_format,
                    false,
                )
                &&& final(self).request_format == crate::logger::resolved_log_format(
                    old(self).request_format,
                    defaults.request_format,
                    false,
                )
                &&& final(self).task_format == crate::logger::resolved_log_format(
                    old(self).task_format,
                    defaults.task_format,
                    false,
                )
                &&& final(self).request_body == crate::logger::resolved_request_body(
                    old(self).request_body,
                    defaults.request_body,
                    false,
                )
                &&& final(self).no_debug_body == old(self).no_debug_body
                &&& final(self).manager == old(self).manager
                &&& final(self).worker == old(self).worker
                &&& crate::config::same_attack_options(*final(self), *old(self))
                &&& formats_configured(*final(self))
                &&& r == if final(self).any_log_enabled() {
                    Some(GooseLoggerState::initial())
                } else {
                    None
                }
            },
    {
        // On a manager no logger is started.
        if self.manager {
            return None;
        }
        // Update the logger configuration, loading defaults if necessary.
        self.configure_loggers(defaults);

        // If no log is enabled, there is nothing to start.
        if self.debug_log.as_str().is_empty() && self.request_log.as_str().is_empty()
            && self.task_log.as_str().is_empty() && self.error_log.as_str().is_empty() {
            return None;
        }
        Some(GooseLoggerState::new())
    }

    /// The request to create a log file; none where the path is empty, which
    /// stands for a log that is disabled.
    pub fn open_log_file(
        &self,
        file: GooseLogFile,
        log_file_path: &str,
        log_file_type: &str,
        buffer_capacity: usize,
    ) -> (r: Option<GooseLoggerAction>)
        ensures
            log_file_path@.len() == 0 ==> r is None,
            log_file_path@.len() > 0 ==> r is Some && r.unwrap()@ == (GooseLoggerActionView::Open {
                file,
                path: log_file_path@,
                label: log_file_type@,
                buffer_capacity,
            }),
    {
        if log_file_path.is_empty() {
            None
        } else {
            Some(
                GooseLoggerAction::Open {
                    file,
                    path: copy_text(log_file_path),
                    label: copy_text(log_file_type),
                    buffer_capacity,
                },
            )
        }
    }

    /// The request to write one line to a log file: the message, then a line
    /// feed.
    pub fn write_to_log_file(&self, file: GooseLogFile, formatted_message: String) -> (r:
        GooseLoggerAction)
        ensures
            r@ == (GooseLoggerActionView::Write { file, text: formatted_message@ + seq!['\n'] }),
    {
        let ghost message = formatted_message@;
        let mut text = formatted_message;
        text.push('\n');
        assert(text@ =~= message + seq!['\n']);
        GooseLoggerAction::Write { file, text }
    }

    fn open_log(&self, file: GooseLogFile, actions: &mut Vec<GooseLoggerAction>)
        ensures
            action_views(final(actions)@) == action_views(old(actions)@) + open_actions(
                *self,
                file,
            ),
    {
        let request = match file {
            GooseLogFile::Debug => self.open_log_file(
                file,
                self.debug_log.as_str(),
                "debug file",
                if self.no_debug_body {
                    // A smaller buffer will do where no response body is logged.
                    SMALL_BUFFER
                } else {
                    LARGE_BUFFER
                },
            ),
            GooseLogFile::Error => self.open_log_file(
                file,
                self.error_log.as_str(),
                "error log",
                SMALL_BUFFER,
            ),
            GooseLogFile::Request => self.open_log_file(
                file,
                self.request_log.as_str(),
                "request log",
                if self.request_body {
                    // A larger buffer is needed where request bodies are logged.
                    LARGE_BUFFER
                } else {
                    SMALL_BUFFER
                },
            ),
            GooseLogFile::Task => self.open_log_file(
                file,
                self.task_log.as_str(),
                "task log",
                SMALL_BUFFER,
            ),
        };
        match request {
            Some(action) => {
                actions.push(action);
                assert(action_views(actions@) =~= action_views(old(actions)@) + open_actions(
                    *self,
                    file,
                ));
            },
            None => {
                assert(action_views(actions@) =~= action_views(old(actions)@) + open_actions(
                    *self,
                    file,
                ));
            },
        }
    }

    fn write_header(&self, file: GooseLogFile) -> (r: Vec<GooseLoggerAction>)
        ensures
            action_views(r@) == header_actions(*self, file),
    {
        let mut actions: Vec<GooseLoggerAction> = Vec::new();
        let (format, header) = match file {
            GooseLogFile::Debug => (self.debug_format, debug_csv_header()),
            GooseLogFile::Error => (self.error_format, error_csv_header()),
            GooseLogFile::Request => (self.request_format, requests_csv_header()),
            GooseLogFile::Task => (self.task_format, tasks_csv_header()),
        };
        // Only a CSV log starts with a header.
        let csv = match format {
            Some(GooseLogFormat::Csv) => true,
            _ => false,
        };
        if csv {
            actions.push(self.write_to_log_file(file, header));
        }
        assert(action_views(actions@) =~= header_actions(*self, file));
        actions
    }

    fn write_record(&self, state: &GooseLoggerState, log: GooseLog) -> (r: Vec<GooseLoggerAction>)
        requires
            log_format(*self, log_file_of(log)) is Some,
        ensures
            action_views(r@) == record_actions(*self, *state, log),
    {
        let mut actions: Vec<GooseLoggerAction> = Vec::new();
        match log {
            GooseLog::Debug(debug_message) => {
                if state.debug_open {
                    let formatted_message = self.format_message(debug_message);
                    actions.push(self.write_to_log_file(GooseLogFile::Debug, formatted_message));
                }
            },
            GooseLog::Error(error_message) => {
                if state.error_open {
                    let formatted_message = self.format_message(error_message);
                    actions.push(self.write_to_log_file(GooseLogFile::Error, formatted_message));
                }
            },
            GooseLog::Request(request_message) => {
                if state.request_open {
                    let formatted_message = self.format_message(request_message);
                    actions.push(self.write_to_log_file(GooseLogFile::Request, formatted_message));
                }
            },
            GooseLog::Task(task_message) => {
                if state.task_open {
                    let formatted_message = self.format_message(task_message);
                    actions.push(self.write_to_log_file(GooseLogFile::Task, formatted_message));
                }
            },
        }
        assert(action_views(actions@) =~= record_actions(*self, *state, log));
        actions
    }

    fn flush_logs(&self, state: &GooseLoggerState) -> (r: Vec<GooseLoggerAction>)
        ensures
            action_views(r@) == finish_actions(*state),
    {
        let mut actions: Vec<GooseLoggerAction> = Vec::new();
        // Flush the debug log if enabled.
        if state.debug_open {
            actions.push(GooseLoggerAction::Flush { file: GooseLogFile::Debug });
        }
        // Flush the request log if enabled.
        if state.request_open {
            actions.push(GooseLoggerAction::Flush { file: GooseLogFile::Request });
        }
        // Flush the task log if enabled.
        if state.task_open {
            actions.push(GooseLoggerAction::Flush { file: GooseLogFile::Task });
        }
        // Flush the error log if enabled.
        if state.error_open {
            actions.push(GooseLoggerAction::Flush { file: GooseLogFile::Error });
        }
        actions.push(GooseLoggerAction::Exit);
        assert(action_views(actions@) =~= finish_actions(*state));
        actions
    }

    /// Whether the logger can take `event`: a record can be rendered only
    /// where its log has a format.
    pub fn has_format_for(&self, event: &GooseLoggerEvent) -> (r: bool)
        ensures
            r == record_has_format(*self, *event),
    {
        match event {
            GooseLoggerEvent::Received(Some(log)) => match log {
                GooseLog::Debug(_) => self.debug_format.is_some(),
                GooseLog::Error(_) => self.error_format.is_some(),
                GooseLog::Request(_) => self.request_format.is_some(),
                GooseLog::Task(_) => self.task_format.is_some(),
            },
            _ => true,
        }
    }

    /// One step of the logger: what it asks for after `event`, and in `state`
    /// what it knows from then on. A record needs the format of its own log
    /// and of no other.
    pub fn logger_main(&self, state: &mut GooseLoggerState, event: GooseLoggerEvent) -> (r: Vec<
        GooseLoggerAction,
    >)
        requires
            record_has_format(*self, event),
        ensures
            *final(state) == next_state(*old(state), event),
            action_views(r@) == next_actions(*self, *old(state), event),
    {
        if state.finished {
            let actions: Vec<GooseLoggerAction> = Vec::new();
            assert(action_views(actions@) =~= Seq::empty());
            return actions;
        }
        match event {
            GooseLoggerEvent::Start => {
                let mut actions: Vec<GooseLoggerAction> = Vec::new();
                assert(action_views(actions@) =~= Seq::empty());
                self.open_log(GooseLogFile::Debug, &mut actions);
                self.open_log(GooseLogFile::Error, &mut actions);
                self.open_log(GooseLogFile::Request, &mut actions);
                self.open_log(GooseLogFile::Task, &mut actions);
                assert(action_views(actions@) =~= start_actions(*self));
                actions
            },
            GooseLoggerEvent::Opened { file, success } => {
                if success {
                    match file {
                        GooseLogFile::Debug => {
                            state.debug_open = true;
                        },
                        GooseLogFile::Error => {
                            state.error_open = true;
                        },
                        GooseLogFile::Request => {
                            state.request_open = true;
                        },
                        GooseLogFile::Task => {
                            state.task_open = true;
                        },
                    }
                    self.write_header(file)
                } else {
                    let actions: Vec<GooseLoggerAction> = Vec::new();
                    assert(action_views(actions@) =~= Seq::empty());
                    actions
                }
            },
            GooseLoggerEvent::Received(Some(message)) => self.write_record(state, message),
            GooseLoggerEvent::Received(None) | GooseLoggerEvent::Disconnected => {
                // An empty message, or a closed channel: it is time to exit.
                let actions = self.flush_logs(state);
                state.debug_open = false;
                state.error_open = false;
                state.request_open = false;
                state.task_open = false;
                state.finished = true;
                actions
            },
            GooseLoggerEvent::WriteFailed { file } => {
                let mut actions: Vec<GooseLoggerAction> = Vec::new();
                let warned = match file {
                    GooseLogFile::Debug => state.debug_warned,
                    GooseLogFile::Error => state.error_warned,
                    GooseLogFile::Request => state.request_warned,
                    GooseLogFile::Task => state.task_warned,
                };
                if !warned {
                    actions.push(GooseLoggerAction::Warn { file });
                    match file {
                        GooseLogFile::Debug => {
                            state.debug_warned = true;
                        },
                        GooseLogFile::Error => {
                            state.error_warned = true;
                        },
                        GooseLogFile::Request => {
                            state.request_warned = true;
                        },
                        GooseLogFile::Task => {
                            state.task_warned = true;
                        },
                    }
                }
                assert(action_views(actions@) =~= next_actions(*self, *old(state), event));
                actions
            },
        }
    }
}

} // verus!
