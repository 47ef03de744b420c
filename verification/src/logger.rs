//! The log streams of a load test: their formats and their configuration.

use vstd::prelude::*;

use crate::config::{GooseConfiguration, GooseDefaults, GooseValue};
use crate::csv::{render_row, row_text};
use crate::error::{GooseError, GooseErrorView};
use crate::goose::GooseDebug;
use crate::json::{json_text, json_to_string};
use crate::metrics::{GooseErrorMetric, GooseRequestMetric, GooseTaskMetric};
use crate::pattern::{
    debug_quoted, pattern_views, regex_set_compiles, regex_set_matched, regex_set_matches,
    regex_set_new, str_debug,
};
use crate::text::push_str;

verus! {

/// The formats in which a log can be written.
#[derive(Debug, Clone, Copy, PartialEq, Eq, Structural)]
pub enum GooseLogFormat {
    /// A header line, then one comma-separated row per record.
    Csv,
    /// One JSON object per line.
    Json,
    /// One line per record, in a compact rendering of its fields.
    Raw,
    /// Several lines per record, one field per line.
    Pretty,
}

/// What users send to the logger: one record for one of the four logs.
#[derive(Debug)]
pub enum GooseLog {
    /// A record for the debug log.
    Debug(GooseDebug),
    /// A record for the error log.
    Error(GooseErrorMetric),
    /// A record for the request log.
    Request(GooseRequestMetric),
    /// A record for the task log.
    Task(GooseTaskMetric),
}

/// The regular expressions by which a format is recognised, in the order
/// csv, json, raw, pretty. Each matches the whole text, in any case.
pub open spec fn log_format_patterns() -> Seq<Seq<char>> {
    seq!["(?i)^csv$"@, "(?i)^(json|jsn)$"@, "(?i)^raw$"@, "(?i)^pretty$"@]
}

/// The format that a text names, given for each expression of
/// `log_format_patterns` whether it matched the text: that of the first
/// expression that matched.
pub open spec fn format_of_matches(matched: Seq<bool>) -> Option<GooseLogFormat> {
    if matched.len() > 0 && matched[0] {
        Some(GooseLogFormat::Csv)
    } else if matched.len() > 1 && matched[1] {
        Some(GooseLogFormat::Json)
    } else if matched.len() > 2 && matched[2] {
        Some(GooseLogFormat::Raw)
    } else if matched.len() > 3 && matched[3] {
        Some(GooseLogFormat::Pretty)
    } else {
        None
    }
}

/// The error for a text that names no format.
pub open spec fn invalid_log_format(s: Seq<char>) -> GooseErrorView {
    GooseErrorView::InvalidOption {
        option: "GooseLogFormat::"@ + str_debug(s),
        value: s,
        detail: "Invalid log_format, expected: csv, json, or raw"@,
    }
}

/// The error for the case that the expressions could not be compiled.
pub open spec fn log_format_patterns_refused(s: Seq<char>) -> GooseErrorView {
    GooseErrorView::InvalidOption {
        option: "GooseLogFormat::"@ + str_debug(s),
        value: s,
        detail: "failed to compile log_format RegexSet"@,
    }
}

/// What a text names, given whether the expressions of
/// `log_format_patterns` compile and which of them match the text: the
/// format of the first expression that matches, and the error for a text
/// that names no format where none matches. Should the expressions not
/// compile, every text gets the error that says so.
pub open spec fn log_format_outcome(compiles: bool, matched: Seq<bool>, s: Seq<char>) -> Result<
    GooseLogFormat,
    GooseErrorView,
> {
    if !compiles {
        Err(log_format_patterns_refused(s))
    } else {
        match format_of_matches(matched) {
            Some(format) => Ok(format),
            None => Err(invalid_log_format(s)),
        }
    }
}

/// What a text names.
pub open spec fn named_log_format(s: Seq<char>) -> Result<GooseLogFormat, GooseErrorView> {
    log_format_outcome(
        regex_set_compiles(log_format_patterns()),
        regex_set_matches(log_format_patterns(), s),
        s,
    )
}

fn log_format_error(s: &str, detail: &str) -> (r: GooseError)
    ensures
        r@ == (GooseErrorView::InvalidOption {
            option: "GooseLogFormat::"@ + str_debug(s@),
            value: s@,
            detail: detail@,
        }),
{
    let mut option = String::new();
    push_str(&mut option, "GooseLogFormat::");
    push_str(&mut option, debug_quoted(s).as_str());
    assert(option@ =~= "GooseLogFormat::"@ + str_debug(s@));
    let mut value = String::new();
    push_str(&mut value, s);
    assert(value@ =~= s@);
    let mut text = String::new();
    push_str(&mut text, detail);
    assert(text@ =~= detail@);
    GooseError::InvalidOption { option, value, detail: text }
}

impl GooseLogFormat {
    /// The format named by `s`, given for each expression of
    /// `log_format_patterns` whether it matched `s`: the format of the first
    /// one that matched, and an error where none did.
    pub fn from_matches(matched: &Vec<bool>, s: &str) -> (r: Result<GooseLogFormat, GooseError>)
        ensures
            match r {
                Ok(format) => format_of_matches(matched@) == Some(format),
                Err(e) => format_of_matches(matched@) is None && e@ == invalid_log_format(s@),
            },
    {
        if matched.len() > 0 && matched[0] {
            Ok(GooseLogFormat::Csv)
        } else if matched.len() > 1 && matched[1] {
            Ok(GooseLogFormat::Json)
        } else if matched.len() > 2 && matched[2] {
            Ok(GooseLogFormat::Raw)
        } else if matched.len() > 3 && matched[3] {
            Ok(GooseLogFormat::Pretty)
        } else {
            Err(log_format_error(s, "Invalid log_format, expected: csv, json, or raw"))
        }
    }

    /// The format named by `s`: `csv`, `json` (or `jsn`), `raw` or `pretty`,
    /// in any case. Any other text is an invalid option. Whether a text names
    /// a format is decided by the expressions of `log_format_patterns`; should
    /// they fail to compile, every text is an invalid option.
    pub fn from_str(s: &str) -> (r: Result<GooseLogFormat, GooseError>)
        ensures
            match r {
                Ok(format) => named_log_format(s@) == Ok::<_, GooseErrorView>(format),
                Err(e) => named_log_format(s@) == Err::<GooseLogFormat, _>(e@),
            },
    {
        let patterns: Vec<&str> = vec![
            "(?i)^csv$",
            "(?i)^(json|jsn)$",
            "(?i)^raw$",
            "(?i)^pretty$",
        ];
        assert(pattern_views(patterns@) =~= log_format_patterns());
        match regex_set_new(&patterns) {
            Ok(log_format) => {
                let matched = regex_set_matched(&log_format, s);
                GooseLogFormat::from_matches(&matched, s)
            },
            Err(_) => Err(log_format_error(s, "failed to compile log_format RegexSet")),
        }
    }
}

impl std::str::FromStr for GooseLogFormat {
    type Err = GooseError;

    /// The format named by `s`, as the function of the same name on the type
    /// itself gives it.
    fn from_str(s: &str) -> (r: Result<Self, Self::Err>)
        ensures
            match r {
                Ok(format) => named_log_format(s@) == Ok::<_, GooseErrorView>(format),
                Err(e) => named_log_format(s@) == Err::<GooseLogFormat, _>(e@),
            },
    {
        GooseLogFormat::from_str(s)
    }
}

/// The path of a log once defaults are applied: the run-time option where it
/// was set, else the declared default, else no path.
pub open spec fn resolved_log_path(option: Seq<char>, default: Option<String>) -> Seq<char> {
    if option.len() > 0 {
        option
    } else if let Some(path) = default {
        path@
    } else {
        Seq::empty()
    }
}

/// The format of a log once defaults are applied: the run-time option where
/// it was set; else, on a manager, none; else the declared default; else
/// JSON.
pub open spec fn resolved_log_format(
    option: Option<GooseLogFormat>,
    default: Option<GooseLogFormat>,
    manager: bool,
) -> Option<GooseLogFormat> {
    if option is Some {
        option
    } else if manager {
        None
    } else if default is Some {
        default
    } else {
        Some(GooseLogFormat::Json)
    }
}

/// Whether request bodies are captured once defaults are applied: the
/// run-time option where it was switched on; else, off a manager, the declared
/// default; else not.
pub open spec fn resolved_request_body(option: bool, default: Option<bool>, manager: bool) -> bool {
    if option {
        true
    } else if manager {
        false
    } else if let Some(body) = default {
        body
    } else {
        false
    }
}

fn clone_path(path: &Option<String>) -> (r: Option<String>)
    ensures
        r == *path,
{
    match path {
        Some(p) => Some(p.clone()),
        None => None,
    }
}

impl GooseConfiguration {
    fn configure_log_path<'a>(&self, option: &String, default: &Option<String>) -> (r: String)
        ensures
            r@ == resolved_log_path(option@, *default),
    {
        let values = vec![
            // Use the run-time option if set.
            GooseValue { value: Some(option.clone()), filter: option.as_str().is_empty(), message: "" },
            // Otherwise use the declared default if set.
            GooseValue { value: clone_path(default), filter: default.is_none(), message: "" },
        ];
        proof {
            reveal_with_fuel(crate::config::first_accepted, 3);
            assert(values@.drop_first().drop_first().len() == 0);
        }
        match self.get_value(values) {
            Some(path) => path,
            None => String::new(),
        }
    }

    fn configure_log_format(
        &self,
        option: Option<GooseLogFormat>,
        default: Option<GooseLogFormat>,
    ) -> (r: Option<GooseLogFormat>)
        ensures
            r == resolved_log_format(option, default, self.manager),
    {
        let values = vec![
            // Use the run-time option if set.
            GooseValue { value: option, filter: option.is_none(), message: "" },
            // Otherwise use the declared default if set and not on a manager.
            GooseValue { value: default, filter: default.is_none() || self.manager, message: "" },
            // Otherwise default to JSON if not on a manager.
            GooseValue { value: Some(GooseLogFormat::Json), filter: self.manager, message: "" },
        ];
        proof {
            reveal_with_fuel(crate::config::first_accepted, 4);
            assert(values@.drop_first().drop_first().drop_first().len() == 0);
        }
        self.get_value(values)
    }

    /// Makes sure the configuration has every configured log file and format,
    /// taking from `defaults` what no run-time option set.
    pub fn configure_loggers(&mut self, defaults: &GooseDefaults)
        ensures
            final(self).debug_log@ == resolved_log_path(old(self).debug_log@, defaults.debug_log),
            final(self).debug_format == resolved_log_format(
                old(self).debug_format,
                defaults.debug_format,
                old(self).manager,
            ),
            final(self).error_log@ == resolved_log_path(old(self).error_log@, defaults.error_log),
            final(self).error_format == resolved_log_format(
                old(self).error_format,
                defaults.error_format,
                old(self).manager,
            ),
            final(self).request_log@ == resolved_log_path(
                old(self).request_log@,
                defaults.request_log,
            ),
            final(self).request_format == resolved_log_format(
                old(self).request_format,
                defaults.request_format,
                old(self).manager,
            ),
            final(self).request_body == resolved_request_body(
                old(self).request_body,
                defaults.request_body,
                old(self).manager,
            ),
            final(self).task_log@ == resolved_log_path(old(self).task_log@, defaults.task_log),
            final(self).task_format == resolved_log_format(
                old(self).task_format,
                defaults.task_format,
                old(self).manager,
            ),
            final(self).no_debug_body == old(self).no_debug_body,
            final(self).manager == old(self).manager,
            final(self).worker == old(self).worker,
            crate::config::same_attack_options(*final(self), *old(self)),
    {
        // Configure the debug log path and format.
        self.debug_log = self.configure_log_path(&self.debug_log, &defaults.debug_log);
        self.debug_format = self.configure_log_format(self.debug_format, defaults.debug_format);

        // Configure the error log path and format.
        self.error_log = self.configure_log_path(&self.error_log, &defaults.error_log);
        self.error_format = self.configure_log_format(self.error_format, defaults.error_format);

        // Configure the request log path and format.
        self.request_log = self.configure_log_path(&self.request_log, &defaults.request_log);
        self.request_format =
        self.configure_log_format(self.request_format, defaults.request_format);

        // Configure whether request bodies are captured.
        let body_values = vec![
            // Use the run-time option if set.
            GooseValue {
                value: Some(self.request_body),
                filter: !self.request_body,
                message: "request_body",
            },
            // Otherwise use the declared default if set and not on a manager.
            GooseValue {
                value: defaults.request_body,
                filter: defaults.request_body.is_none() || self.manager,
                message: "request_body",
            },
        ];
        proof {
            reveal_with_fuel(crate::config::first_accepted, 3);
            assert(body_values@.drop_first().drop_first().len() == 0);
        }
        self.request_body = match self.get_value(body_values) {
            Some(body) => body,
            None => false,
        };

        // Configure the task log path and format.
        self.task_log = self.configure_log_path(&self.task_log, &defaults.task_log);
        self.task_format = self.configure_log_format(self.task_format, defaults.task_format);
    }
}

/// The header of the debug log. No quotes are needed in a header.
pub fn debug_csv_header() -> (r: String)
    ensures
        r@ == "tag,request,header,body"@,
{
    String::from_str("tag,request,header,body")
}

/// The header of the error log.
pub fn error_csv_header() -> (r: String)
    ensures
        r@ == "elapsed,raw,name,final_url,redirected,response_time,status_code,user,error"@,
{
    String::from_str("elapsed,raw,name,final_url,redirected,response_time,status_code,user,error")
}

/// The header of the request log.
pub fn requests_csv_header() -> (r: String)
    ensures
        r@ == "elapsed,raw,name,final_url,redirected,response_time,status_code,success,update,user,error,coordinated_omission_elapsed,user_cadence"@,
{
    String::from_str(
        "elapsed,raw,name,final_url,redirected,response_time,status_code,success,update,user,error,coordinated_omission_elapsed,user_cadence",
    )
}

/// The header of the task log.
pub fn tasks_csv_header() -> (r: String)
    ensures
        r@ == "elapsed,taskset_index,task_index,name,run_time,success,user"@,
{
    String::from_str("elapsed,taskset_index,task_index,name,run_time,success,user")
}

/// A debug record in a format.
pub open spec fn debug_record_text(message: GooseDebug, format: GooseLogFormat) -> Seq<char> {
    match format {
        GooseLogFormat::Json => json_text(message.json()),
        GooseLogFormat::Raw => message.debug_text(false, Seq::empty()),
        GooseLogFormat::Pretty => message.debug_text(true, Seq::empty()),
        GooseLogFormat::Csv => row_text(message.csv_cells()),
    }
}

/// An error record in a format.
pub open spec fn error_record_text(message: GooseErrorMetric, format: GooseLogFormat) -> Seq<
    char,
> {
    match format {
        GooseLogFormat::Json => json_text(message.json()),
        GooseLogFormat::Raw => message.debug_text(false, Seq::empty()),
        GooseLogFormat::Pretty => message.debug_text(true, Seq::empty()),
        GooseLogFormat::Csv => row_text(message.csv_cells()),
    }
}

/// A request record in a format.
pub open spec fn request_record_text(message: GooseRequestMetric, format: GooseLogFormat) -> Seq<
    char,
> {
    match format {
        GooseLogFormat::Json => json_text(message.json()),
        GooseLogFormat::Raw => message.debug_text(false, Seq::empty()),
        GooseLogFormat::Pretty => message.debug_text(true, Seq::empty()),
        GooseLogFormat::Csv => row_text(message.csv_cells()),
    }
}

/// A task record in a format.
pub open spec fn task_record_text(message: GooseTaskMetric, format: GooseLogFormat) -> Seq<char> {
    match format {
        GooseLogFormat::Json => json_text(message.json()),
        GooseLogFormat::Raw => message.debug_text(false, Seq::empty()),
        GooseLogFormat::Pretty => message.debug_text(true, Seq::empty()),
        GooseLogFormat::Csv => row_text(message.csv_cells()),
    }
}

/// What a logger does with the records of one kind.
pub trait GooseLogger<T> {
    /// The format configured for the records of this kind.
    spec fn configured_format(&self) -> Option<GooseLogFormat>;

    /// A record in a format.
    spec fn record_text(&self, message: T, format: GooseLogFormat) -> Seq<char>;

    /// The record in the configured format. A format has to be configured.
    fn format_message(&self, message: T) -> (r: String)
        requires
            self.configured_format() is Some,
        ensures
            r@ == self.record_text(message, self.configured_format().unwrap()),
    ;

    /// The record as a row of comma-separated fields.
    fn prepare_csv(&self, message: &T) -> (r: String)
        ensures
            r@ == self.record_text(*message, GooseLogFormat::Csv),
    ;
}

impl GooseLogger<GooseDebug> for GooseConfiguration {
    open spec fn configured_format(&self) -> Option<GooseLogFormat> {
        self.debug_format
    }

    open spec fn record_text(&self, message: GooseDebug, format: GooseLogFormat) -> Seq<char> {
        debug_record_text(message, format)
    }

    fn format_message(&self, message: GooseDebug) -> (r: String) {
        assert(""@ =~= Seq::<char>::empty()) by {
            reveal_strlit("");
        }
        match self.debug_format {
            Some(GooseLogFormat::Json) => json_to_string(&message.json_value()),
            Some(GooseLogFormat::Raw) => message.debug_string(false, ""),
            Some(GooseLogFormat::Pretty) => message.debug_string(true, ""),
            Some(GooseLogFormat::Csv) => self.prepare_csv(&message),
            // A log format is required.
            None => String::new(),
        }
    }

    fn prepare_csv(&self, message: &GooseDebug) -> (r: String) {
        render_row(&message.csv_fields())
    }
}

impl GooseLogger<GooseErrorMetric> for GooseConfiguration {
    open spec fn configured_format(&self) -> Option<GooseLogFormat> {
        self.error_format
    }

    open spec fn record_text(&self, message: GooseErrorMetric, format: GooseLogFormat) -> Seq<
        char,
    > {
        error_record_text(message, format)
    }

    fn format_message(&self, message: GooseErrorMetric) -> (r: String) {
        assert(""@ =~= Seq::<char>::empty()) by {
            reveal_strlit("");
        }
        match self.error_format {
            Some(GooseLogFormat::Json) => json_to_string(&message.json_value()),
            Some(GooseLogFormat::Raw) => message.debug_string(false, ""),
            Some(GooseLogFormat::Pretty) => message.debug_string(true, ""),
            Some(GooseLogFormat::Csv) => self.prepare_csv(&message),
            // A log format is required.
            None => String::new(),
        }
    }

    fn prepare_csv(&self, message: &GooseErrorMetric) -> (r: String) {
        render_row(&message.csv_fields())
    }
}

impl GooseLogger<GooseRequestMetric> for GooseConfiguration {
    open spec fn configured_format(&self) -> Option<GooseLogFormat> {
        self.request_format
    }

    open spec fn record_text(&self, message: GooseRequestMetric, format: GooseLogFormat) -> Seq<
        char,
    > {
        request_record_text(message, format)
    }

    fn format_message(&self, message: GooseRequestMetric) -> (r: String) {
        assert(""@ =~= Seq::<char>::empty()) by {
            reveal_strlit("");
        }
        match self.request_format {
            Some(GooseLogFormat::Json) => json_to_string(&message.json_value()),
            Some(GooseLogFormat::Raw) => message.debug_string(false, ""),
            Some(GooseLogFormat::Pretty) => message.debug_string(true, ""),
            Some(GooseLogFormat::Csv) => self.prepare_csv(&message),
            // A log format is required.
            None => String::new(),
        }
    }

    fn prepare_csv(&self, message: &GooseRequestMetric) -> (r: String) {
        render_row(&message.csv_fields())
    }
}

impl GooseLogger<GooseTaskMetric> for GooseConfiguration {
    open spec fn configured_format(&self) -> Option<GooseLogFormat> {
        self.task_format
    }

    open spec fn record_text(&self, message: GooseTaskMetric, format: GooseLogFormat) -> Seq<
        char,
    > {
        task_record_text(message, format)
    }

    fn format_message(&self, message: GooseTaskMetric) -> (r: String) {
        assert(""@ =~= Seq::<char>::empty()) by {
            reveal_strlit("");
        }
        match self.task_format {
            Some(GooseLogFormat::Json) => json_to_string(&message.json_value()),
            Some(GooseLogFormat::Raw) => message.debug_string(false, ""),
            Some(GooseLogFormat::Pretty) => message.debug_string(true, ""),
            Some(GooseLogFormat::Csv) => self.prepare_csv(&message),
            // A log format is required.
            None => String::new(),
        }
    }

    fn prepare_csv(&self, message: &GooseTaskMetric) -> (r: String) {
        render_row(&message.csv_fields())
    }
}

} // verus!
