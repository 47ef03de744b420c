//! Run-time options, declared defaults, and the rule that merges them.

use vstd::prelude::*;

use crate::error::{GooseError, GooseErrorView};
use crate::logger::GooseLogFormat;

verus! {

/// The options of one load test, as given at run time. An empty path or a
/// `None` stands for an option that was not set.
#[derive(Debug, Clone)]
pub struct GooseConfiguration {
    /// The host under test; empty when it was not set.
    pub host: String,
    /// How many users to simulate.
    pub users: Option<usize>,
    /// How many users to start in a second.
    pub hatch_rate: Option<usize>,
    /// How many seconds to run for; zero when it was not set.
    pub run_time: usize,
    /// How many requests a second the whole process may make; zero when it
    /// was not set.
    pub throttle_requests: usize,
    /// Whether the metrics of the ramp-up are kept.
    pub no_reset_metrics: bool,
    /// Path of the request log; empty when requests are not logged.
    pub request_log: String,
    /// Format of the request log.
    pub request_format: Option<GooseLogFormat>,
    /// Whether request bodies are captured in the request log.
    pub request_body: bool,
    /// Path of the task log; empty when tasks are not logged.
    pub task_log: String,
    /// Format of the task log.
    pub task_format: Option<GooseLogFormat>,
    /// Path of the error log; empty when errors are not logged.
    pub error_log: String,
    /// Format of the error log.
    pub error_format: Option<GooseLogFormat>,
    /// Path of the debug log; empty when debug records are not logged.
    pub debug_log: String,
    /// Format of the debug log.
    pub debug_format: Option<GooseLogFormat>,
    /// Whether response bodies are left out of debug records.
    pub no_debug_body: bool,
    /// Whether this process is the manager of a distributed load test.
    pub manager: bool,
    /// Whether this process is a worker of a distributed load test.
    pub worker: bool,
}

/// Defaults declared by the author of a load test. They apply where the
/// matching run-time option was not set.
#[derive(Debug, Clone)]
pub struct GooseDefaults {
    /// Default host under test.
    pub host: Option<String>,
    /// Default number of users.
    pub users: Option<usize>,
    /// Default number of users to start in a second.
    pub hatch_rate: Option<usize>,
    /// Default number of seconds to run for.
    pub run_time: Option<usize>,
    /// Default number of requests a second.
    pub throttle_requests: Option<usize>,
    /// Default for keeping the metrics of the ramp-up.
    pub no_reset_metrics: Option<bool>,
    /// Default path of the request log.
    pub request_log: Option<String>,
    /// Default format of the request log.
    pub request_format: Option<GooseLogFormat>,
    /// Default for capturing request bodies.
    pub request_body: Option<bool>,
    /// Default path of the task log.
    pub task_log: Option<String>,
    /// Default format of the task log.
    pub task_format: Option<GooseLogFormat>,
    /// Default path of the error log.
    pub error_log: Option<String>,
    /// Default format of the error log.
    pub error_format: Option<GooseLogFormat>,
    /// Default path of the debug log.
    pub debug_log: Option<String>,
    /// Default format of the debug log.
    pub debug_format: Option<GooseLogFormat>,
}

/// One candidate for the value of an option.
pub struct GooseValue<'a, T> {
    /// The candidate, if it was set at all.
    pub value: Option<T>,
    /// Whether the candidate is to be passed over.
    pub filter: bool,
    /// A label for the option, for whoever reports the choice.
    pub message: &'a str,
}

/// The first candidate of `values` that is set and not filtered.
pub open spec fn first_accepted<T>(values: Seq<GooseValue<'_, T>>) -> Option<T>
    decreases values.len(),
{
    if values.len() == 0 {
        None
    } else if values[0].value is Some && !values[0].filter {
        values[0].value
    } else {
        first_accepted(values.drop_first())
    }
}

/// The options of the load test itself are the same in two configurations.
pub open spec fn same_attack_options(a: GooseConfiguration, b: GooseConfiguration) -> bool {
    &&& a.host == b.host
    &&& a.users == b.users
    &&& a.hatch_rate == b.hatch_rate
    &&& a.run_time == b.run_time
    &&& a.throttle_requests == b.throttle_requests
    &&& a.no_reset_metrics == b.no_reset_metrics
}

/// The options of the logs are the same in two configurations.
pub open spec fn same_log_options(a: GooseConfiguration, b: GooseConfiguration) -> bool {
    &&& a.request_log == b.request_log
    &&& a.request_format == b.request_format
    &&& a.request_body == b.request_body
    &&& a.task_log == b.task_log
    &&& a.task_format == b.task_format
    &&& a.error_log == b.error_log
    &&& a.error_format == b.error_format
    &&& a.debug_log == b.debug_log
    &&& a.debug_format == b.debug_format
    &&& a.no_debug_body == b.no_debug_body
    &&& a.manager == b.manager
    &&& a.worker == b.worker
}

/// A number once defaults are applied: the run-time option where it was set,
/// else the declared default, else the built-in default.
pub open spec fn resolved_number(option: Option<usize>, default: Option<usize>, built_in: usize) -> usize {
    if let Some(n) = option {
        n
    } else if let Some(n) = default {
        n
    } else {
        built_in
    }
}

/// A number for which zero stands for "not set", once defaults are applied.
pub open spec fn resolved_count(option: usize, default: Option<usize>) -> usize {
    if option > 0 {
        option
    } else if let Some(n) = default {
        n
    } else {
        0
    }
}

/// A switch once defaults are applied: on where the run-time option switched
/// it on, else the declared default, else off.
pub open spec fn resolved_switch(option: bool, default: Option<bool>) -> bool {
    if option {
        true
    } else if let Some(b) = default {
        b
    } else {
        false
    }
}

/// The host once defaults are applied; none where neither the run-time
/// option nor a default names one.
pub open spec fn resolved_host(option: Seq<char>, default: Option<String>) -> Option<Seq<char>> {
    if option.len() > 0 {
        Some(option)
    } else if default is Some && default.unwrap()@.len() > 0 {
        Some(default.unwrap()@)
    } else {
        None
    }
}

/// The error for an option that was set to zero and has to be at least one.
pub open spec fn zero_option(option: Seq<char>) -> GooseErrorView {
    GooseErrorView::InvalidOption { option, value: "0"@, detail: "must be at least 1"@ }
}

/// What becomes of the options of the load test when defaults are applied:
/// there has to be a host, and the users and the hatch rate have to be at
/// least one. The first of these that fails is the error.
pub open spec fn configured(config: GooseConfiguration, defaults: GooseDefaults) -> Result<
    (Seq<char>, usize, usize, usize, usize, bool),
    GooseErrorView,
> {
    let users = resolved_number(config.users, defaults.users, 1);
    let hatch_rate = resolved_number(config.hatch_rate, defaults.hatch_rate, 1);
    if resolved_host(config.host@, defaults.host) is None {
        Err(GooseErrorView::MissingHost)
    } else if users == 0 {
        Err(zero_option("users"@))
    } else if hatch_rate == 0 {
        Err(zero_option("hatch_rate"@))
    } else {
        Ok(
            (
                resolved_host(config.host@, defaults.host).unwrap(),
                users,
                hatch_rate,
                resolved_count(config.run_time, defaults.run_time),
                resolved_count(config.throttle_requests, defaults.throttle_requests),
                resolved_switch(config.no_reset_metrics, defaults.no_reset_metrics),
            ),
        )
    }
}

fn zero_option_error(option: &str) -> (r: GooseError)
    ensures
        r@ == zero_option(option@),
{
    GooseError::InvalidOption {
        option: String::from_str(option),
        value: String::from_str("0"),
        detail: String::from_str("must be at least 1"),
    }
}

impl GooseConfiguration {
    /// Makes the options of the load test final: what no run-time option
    /// set is taken from `defaults`, and what neither set from the built-in
    /// defaults, which are one user, one user hatched a second, no end, and
    /// no throttle. On an error nothing is changed.
    pub fn configure(&mut self, defaults: &GooseDefaults) -> (r: Result<(), GooseError>)
        ensures
            same_log_options(*final(self), *old(self)),
            match r {
                Ok(_) => configured(*old(self), *defaults) == Ok::<_, GooseErrorView>(
                    (
                        final(self).host@,
                        final(self).users.unwrap(),
                        final(self).hatch_rate.unwrap(),
                        final(self).run_time,
                        final(self).throttle_requests,
                        final(self).no_reset_metrics,
                    ),
                ) && final(self).users is Some && final(self).hatch_rate is Some,
                Err(e) => configured(*old(self), *defaults) == Err::<
                    (Seq<char>, usize, usize, usize, usize, bool),
                    _,
                >(e@) && same_attack_options(*final(self), *old(self)),
            },
    {
        let host = if !self.host.as_str().is_empty() {
            self.host.clone()
        } else {
            match &defaults.host {
                Some(h) => {
                    if h.as_str().is_empty() {
                        return Err(GooseError::MissingHost);
                    }
                    h.clone()
                },
                None => {
                    return Err(GooseError::MissingHost);
                },
            }
        };
        let users = match self.users {
            Some(n) => n,
            None => match defaults.users {
                Some(n) => n,
                None => 1,
            },
        };
        if users == 0 {
            return Err(zero_option_error("users"));
        }
        let hatch_rate = match self.hatch_rate {
            Some(n) => n,
            None => match defaults.hatch_rate {
                Some(n) => n,
                None => 1,
            },
        };
        if hatch_rate == 0 {
            return Err(zero_option_error("hatch_rate"));
        }
        if self.run_time == 0 {
            if let Some(n) = defaults.run_time {
                self.run_time = n;
            }
        }
        if self.throttle_requests == 0 {
            if let Some(n) = defaults.throttle_requests {
                self.throttle_requests = n;
            }
        }
        if !self.no_reset_metrics {
            if let Some(b) = defaults.no_reset_metrics {
                self.no_reset_metrics = b;
            }
        }
        self.host = host;
        self.users = Some(users);
        self.hatch_rate = Some(hatch_rate);
        Ok(())
    }
}

impl GooseConfiguration {
    /// A configuration in which no option is set.
    pub fn new() -> (r: GooseConfiguration)
        ensures
            r.host@.len() == 0,
            r.users is None,
            r.hatch_rate is None,
            r.run_time == 0,
            r.throttle_requests == 0,
            !r.no_reset_metrics,
            r.request_log@.len() == 0,
            r.request_format is None,
            !r.request_body,
            r.task_log@.len() == 0,
            r.task_format is None,
            r.error_log@.len() == 0,
            r.error_format is None,
            r.debug_log@.len() == 0,
            r.debug_format is None,
            !r.no_debug_body,
            !r.manager,
            !r.worker,
    {
        GooseConfiguration {
            host: String::new(),
            users: None,
            hatch_rate: None,
            run_time: 0,
            throttle_requests: 0,
            no_reset_metrics: false,
            request_log: String::new(),
            request_format: None,
            request_body: false,
            task_log: String::new(),
            task_format: None,
            error_log: String::new(),
            error_format: None,
            debug_log: String::new(),
            debug_format: None,
            no_debug_body: false,
            manager: false,
            worker: false,
        }
    }

    /// Picks the value of an option from its candidates, which are listed
    /// from the most to the least specific: the first one that is set and not
    /// filtered wins.
    pub fn get_value<T>(&self, values: Vec<GooseValue<'_, T>>) -> (r: Option<T>)
        ensures
            r == first_accepted(values@),
    {
        let ghost all = values@;
        assert(all.skip(0) =~= all);
        for value in it: values
            invariant
                it.seq() == all,
                first_accepted(all) == first_accepted(all.skip(it.index() as int)),
        {
            let ghost rest = all.skip(it.index() as int);
            assert(rest[0] == value);
            assert(rest.drop_first() =~= all.skip(it.index() + 1));
            if let Some(v) = value.value {
                if !value.filter {
                    return Some(v);
                }
            }
        }
        None
    }
}

impl GooseDefaults {
    /// Defaults in which nothing is declared.
    pub fn new() -> (r: GooseDefaults)
        ensures
            r.host is None,
            r.users is None,
            r.hatch_rate is None,
            r.run_time is None,
            r.throttle_requests is None,
            r.no_reset_metrics is None,
            r.request_log is None,
            r.request_format is None,
            r.request_body is None,
            r.task_log is None,
            r.task_format is None,
            r.error_log is None,
            r.error_format is None,
            r.debug_log is None,
            r.debug_format is None,
    {
        GooseDefaults {
            host: None,
            users: None,
            hatch_rate: None,
            run_time: None,
            throttle_requests: None,
            no_reset_metrics: None,
            request_log: None,
            request_format: None,
            request_body: None,
            task_log: None,
            task_format: None,
            error_log: None,
            error_format: None,
            debug_log: None,
            debug_format: None,
        }
    }
}

} // verus!
