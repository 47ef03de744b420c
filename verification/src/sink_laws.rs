//! What holds of the logger over a whole run: a log holds the records that
//! were received for it, each once and in the order in which they came, after
//! its header where it has one, and nothing else; and a logger that was told
//! to finish holds no file any more.

use vstd::prelude::*;

use crate::aggregate::{Counted, GooseMetrics};
use crate::config::GooseConfiguration;
use crate::logger::{GooseLog, GooseLogFormat};
use crate::metrics::GooseRequestMetric;
use crate::sink::{
    finish_actions, flush_actions, log_file_of, log_format, log_header, log_text, next_actions,
    next_state, record_actions, GooseLogFile, GooseLoggerActionView, GooseLoggerEvent,
    GooseLoggerState,
};
use crate::tally::{counted_along, lemma_counters_hold_the_tally, lemma_tally_splits, tally};
use crate::throttle::{grants, lemma_grants_in_a_run, ticks, GooseThrottle, GooseThrottleEvent};

verus! {

/// The state of the logger after a run of events.
pub open spec fn state_after(start: GooseLoggerState, events: Seq<GooseLoggerEvent>) -> GooseLoggerState
    decreases events.len(),
{
    if events.len() == 0 {
        start
    } else {
        next_state(state_after(start, events.drop_last()), events.last())
    }
}

/// What the logger asks for over a run of events, in order.
pub open spec fn actions_over(
    config: GooseConfiguration,
    start: GooseLoggerState,
    events: Seq<GooseLoggerEvent>,
) -> Seq<GooseLoggerActionView>
    decreases events.len(),
{
    if events.len() == 0 {
        Seq::empty()
    } else {
        actions_over(config, start, events.drop_last()) + next_actions(
            config,
            state_after(start, events.drop_last()),
            events.last(),
        )
    }
}

/// The texts that a list of actions writes to a file, in order.
pub open spec fn written(actions: Seq<GooseLoggerActionView>, file: GooseLogFile) -> Seq<Seq<char>>
    decreases actions.len(),
{
    if actions.len() == 0 {
        Seq::empty()
    } else {
        written(actions.drop_last(), file) + match actions.last() {
            GooseLoggerActionView::Write { file: to, text } => if to == file {
                seq![text]
            } else {
                Seq::empty()
            },
            _ => Seq::empty(),
        }
    }
}

/// How many records a list of actions writes to a file.
pub open spec fn records_written(actions: Seq<GooseLoggerActionView>, file: GooseLogFile) -> int {
    written(actions, file).len() as int
}

/// The events by which a list of records reaches the logger.
pub open spec fn record_events(logs: Seq<GooseLog>) -> Seq<GooseLoggerEvent> {
    Seq::new(logs.len(), |i: int| GooseLoggerEvent::Received(Some(logs[i])))
}

/// The lines that a list of records makes in a log: one for each record that
/// belongs to the log, in the order of the records.
pub open spec fn lines_of(config: GooseConfiguration, logs: Seq<GooseLog>, file: GooseLogFile) -> Seq<
    Seq<char>,
>
    decreases logs.len(),
{
    if logs.len() == 0 {
        Seq::empty()
    } else {
        lines_of(config, logs.drop_last(), file) + if log_file_of(logs.last()) == file {
            seq![log_text(config, logs.last()) + seq!['\n']]
        } else {
            Seq::empty()
        }
    }
}

/// How many records of a list belong to a log.
pub open spec fn records_of(logs: Seq<GooseLog>, file: GooseLogFile) -> int
    decreases logs.len(),
{
    if logs.len() == 0 {
        0
    } else {
        records_of(logs.drop_last(), file) + if log_file_of(logs.last()) == file {
            1int
        } else {
            0int
        }
    }
}

/// The requests among the records of a list, in order.
pub open spec fn requests_of(logs: Seq<GooseLog>) -> Seq<GooseRequestMetric>
    decreases logs.len(),
{
    if logs.len() == 0 {
        Seq::empty()
    } else {
        requests_of(logs.drop_last()) + match logs.last() {
            GooseLog::Request(metric) => seq![metric],
            _ => Seq::empty(),
        }
    }
}

/// What a log starts with: in the CSV format its header, else nothing.
pub open spec fn header_lines(config: GooseConfiguration, file: GooseLogFile) -> Seq<Seq<char>> {
    if log_format(config, file) == Some(GooseLogFormat::Csv) {
        seq![log_header(file) + seq!['\n']]
    } else {
        Seq::empty()
    }
}

/// The whole run of one log: its file was created, records of any kind
/// arrive, and the logger is told to finish.
pub open spec fn run_of(file: GooseLogFile, logs: Seq<GooseLog>) -> Seq<GooseLoggerEvent> {
    seq![GooseLoggerEvent::Opened { file, success: true }] + record_events(logs)
        + seq![GooseLoggerEvent::Received(None)]
}

/// What two lists of actions write to a file is what the first writes,
/// followed by what the second writes.
pub proof fn lemma_written_concat(
    a: Seq<GooseLoggerActionView>,
    b: Seq<GooseLoggerActionView>,
    file: GooseLogFile,
)
    ensures
        written(a + b, file) == written(a, file) + written(b, file),
    decreases b.len(),
{
    if b.len() == 0 {
        assert(a + b =~= a);
        assert(written(a, file) + written(b, file) =~= written(a, file));
    } else {
        assert((a + b).drop_last() =~= a + b.drop_last());
        lemma_written_concat(a, b.drop_last(), file);
        assert(written(a + b, file) =~= written(a, file) + written(b, file));
    }
}

/// A list of one action writes that action's text, if it is a write to the
/// file, and nothing else.
pub proof fn lemma_written_one(action: GooseLoggerActionView, file: GooseLogFile)
    ensures
        written(seq![action], file) == match action {
            GooseLoggerActionView::Write { file: to, text } => if to == file {
                seq![text]
            } else {
                Seq::<Seq<char>>::empty()
            },
            _ => Seq::<Seq<char>>::empty(),
        },
{
    let actions = seq![action];
    assert(actions.drop_last() =~= Seq::<GooseLoggerActionView>::empty());
    assert(written(actions.drop_last(), file) =~= Seq::<Seq<char>>::empty());
    assert(actions.last() == action);
    assert(written(actions, file) =~= match action {
        GooseLoggerActionView::Write { file: to, text } => if to == file {
            seq![text]
        } else {
            Seq::<Seq<char>>::empty()
        },
        _ => Seq::<Seq<char>>::empty(),
    });
}

/// A run of events in two parts: the second part starts in the state that
/// the first part left, and the actions of the run are those of the first
/// part followed by those of the second.
pub proof fn lemma_run_in_two_parts(
    config: GooseConfiguration,
    start: GooseLoggerState,
    a: Seq<GooseLoggerEvent>,
    b: Seq<GooseLoggerEvent>,
)
    ensures
        state_after(start, a + b) == state_after(state_after(start, a), b),
        actions_over(config, start, a + b) == actions_over(config, start, a) + actions_over(
            config,
            state_after(start, a),
            b,
        ),
    decreases b.len(),
{
    if b.len() == 0 {
        assert(a + b =~= a);
        assert(actions_over(config, start, a) + actions_over(config, state_after(start, a), b)
            =~= actions_over(config, start, a));
    } else {
        assert((a + b).drop_last() =~= a + b.drop_last());
        assert((a + b).last() == b.last());
        lemma_run_in_two_parts(config, start, a, b.drop_last());
        assert(actions_over(config, start, a + b) =~= actions_over(config, start, a)
            + actions_over(config, state_after(start, a), b));
    }
}

/// A run of one event is one step.
pub proof fn lemma_run_of_one(
    config: GooseConfiguration,
    start: GooseLoggerState,
    event: GooseLoggerEvent,
)
    ensures
        state_after(start, seq![event]) == next_state(start, event),
        actions_over(config, start, seq![event]) == next_actions(config, start, event),
{
    let run = seq![event];
    let none = run.drop_last();
    assert(none.len() == 0);
    assert(state_after(start, none) == start);
    assert(actions_over(config, start, none) =~= Seq::<GooseLoggerActionView>::empty());
    assert(run.last() == event);
    assert(actions_over(config, start, run) =~= next_actions(config, start, event));
}

/// A log has as many lines from a list of records as records of the list
/// belong to it, and the request log as many as the list holds requests.
pub proof fn lemma_lines_counted(config: GooseConfiguration, logs: Seq<GooseLog>, file: GooseLogFile)
    ensures
        lines_of(config, logs, file).len() == records_of(logs, file),
        requests_of(logs).len() == records_of(logs, GooseLogFile::Request),
    decreases logs.len(),
{
    if logs.len() > 0 {
        lemma_lines_counted(config, logs.drop_last(), file);
    }
}

/// A log holds what was received for it. While the logger runs, records of
/// any kind, in any order, leave its state as it was; a log that is open
/// gets one line for each record that belongs to it, in the order in which
/// the records came, and no line for any other record; a log that is not
/// open gets nothing.
pub proof fn lemma_log_holds_the_records(
    config: GooseConfiguration,
    start: GooseLoggerState,
    logs: Seq<GooseLog>,
    file: GooseLogFile,
)
    requires
        !start.finished,
    ensures
        state_after(start, record_events(logs)) == start,
        written(actions_over(config, start, record_events(logs)), file) == if start.is_open(
            file,
        ) {
            lines_of(config, logs, file)
        } else {
            Seq::<Seq<char>>::empty()
        },
        records_written(actions_over(config, start, record_events(logs)), file) == if start.is_open(
            file,
        ) {
            records_of(logs, file)
        } else {
            0
        },
    decreases logs.len(),
{
    let events = record_events(logs);
    lemma_lines_counted(config, logs, file);
    if logs.len() > 0 {
        assert(events.drop_last() =~= record_events(logs.drop_last()));
        lemma_log_holds_the_records(config, start, logs.drop_last(), file);
        let before = actions_over(config, start, events.drop_last());
        let step = next_actions(config, start, events.last());
        assert(events.last() == GooseLoggerEvent::Received(Some(logs.last())));
        assert(step == record_actions(config, start, logs.last()));
        lemma_written_concat(before, step, file);
        if start.is_open(log_file_of(logs.last())) {
            let action = GooseLoggerActionView::Write {
                file: log_file_of(logs.last()),
                text: log_text(config, logs.last()) + seq!['\n'],
            };
            assert(step =~= seq![action]);
            lemma_written_one(action, file);
        } else {
            assert(written(step, file) =~= Seq::<Seq<char>>::empty());
        }
        assert(written(before, file) + Seq::<Seq<char>>::empty() =~= written(before, file));
    }
}

/// Flushing the files and stopping writes nothing.
pub proof fn lemma_finish_writes_nothing(state: GooseLoggerState, file: GooseLogFile)
    ensures
        written(finish_actions(state), file) == Seq::<Seq<char>>::empty(),
{
    let exit = seq![GooseLoggerActionView::Exit];
    let a = flush_actions(state, GooseLogFile::Debug);
    let b = flush_actions(state, GooseLogFile::Request);
    let c = flush_actions(state, GooseLogFile::Task);
    let d = flush_actions(state, GooseLogFile::Error);
    lemma_flush_writes_nothing(state, GooseLogFile::Debug, file);
    lemma_flush_writes_nothing(state, GooseLogFile::Request, file);
    lemma_flush_writes_nothing(state, GooseLogFile::Task, file);
    lemma_flush_writes_nothing(state, GooseLogFile::Error, file);
    lemma_written_one(GooseLoggerActionView::Exit, file);
    lemma_written_concat(a, b, file);
    lemma_written_concat(a + b, c, file);
    lemma_written_concat(a + b + c, d, file);
    lemma_written_concat(a + b + c + d, exit, file);
    assert(written(finish_actions(state), file) =~= Seq::<Seq<char>>::empty());
}

/// Flushing one file writes nothing.
pub proof fn lemma_flush_writes_nothing(
    state: GooseLoggerState,
    flushed: GooseLogFile,
    file: GooseLogFile,
)
    ensures
        written(flush_actions(state, flushed), file) == Seq::<Seq<char>>::empty(),
{
    if state.is_open(flushed) {
        lemma_written_one(GooseLoggerActionView::Flush { file: flushed }, file);
    }
}

/// The log of a whole run. Where the file of a log was created, records of
/// any kind arrived and the logger was told to finish, the log holds its
/// header, if its format is CSV, and after it one line for each record that
/// was received for it, in the order in which they came: as many lines as
/// records, and in the CSV format one more, the first. The logger has then
/// stopped.
pub proof fn lemma_log_of_a_run(
    config: GooseConfiguration,
    start: GooseLoggerState,
    file: GooseLogFile,
    logs: Seq<GooseLog>,
)
    requires
        !start.finished,
    ensures
        written(actions_over(config, start, run_of(file, logs)), file) == header_lines(
            config,
            file,
        ) + lines_of(config, logs, file),
        records_written(actions_over(config, start, run_of(file, logs)), file) == records_of(
            logs,
            file,
        ) + if log_format(config, file) == Some(GooseLogFormat::Csv) {
            1int
        } else {
            0int
        },
        log_format(config, file) == Some(GooseLogFormat::Csv) ==> written(
            actions_over(config, start, run_of(file, logs)),
            file,
        )[0] == log_header(file) + seq!['\n'],
        state_after(start, run_of(file, logs)).finished,
{
    let opened = GooseLoggerEvent::Opened { file, success: true };
    let first = seq![opened];
    let last = seq![GooseLoggerEvent::Received(None)];
    let open = start.with_open(file);
    // The file was created: its header is written, and it is open.
    lemma_run_of_one(config, start, opened);
    if log_format(config, file) == Some(GooseLogFormat::Csv) {
        lemma_written_one(
            GooseLoggerActionView::Write { file, text: log_header(file) + seq!['\n'] },
            file,
        );
    }
    assert(written(actions_over(config, start, first), file) =~= header_lines(config, file));
    // The records arrive.
    lemma_log_holds_the_records(config, open, logs, file);
    lemma_run_in_two_parts(config, start, first, record_events(logs));
    let middle = first + record_events(logs);
    assert(state_after(start, middle) == open);
    lemma_written_concat(
        actions_over(config, start, first),
        actions_over(config, open, record_events(logs)),
        file,
    );
    // The logger is told to finish.
    lemma_run_of_one(config, open, GooseLoggerEvent::Received(None));
    lemma_finish_writes_nothing(open, file);
    lemma_run_in_two_parts(config, start, middle, last);
    lemma_written_concat(actions_over(config, start, middle), actions_over(config, open, last), file);
    assert(written(actions_over(config, start, run_of(file, logs)), file) =~= header_lines(
        config,
        file,
    ) + lines_of(config, logs, file));
    lemma_lines_counted(config, logs, file);
}

/// The lines that a list of requests makes in the request log.
pub open spec fn request_lines(config: GooseConfiguration, metrics: Seq<GooseRequestMetric>) -> Seq<
    Seq<char>,
> {
    Seq::new(
        metrics.len(),
        |i: int| log_text(config, GooseLog::Request(metrics[i])) + seq!['\n'],
    )
}

/// The lines of the request log are the lines of the requests among the
/// records, one for one and in their order.
pub proof fn lemma_request_lines(config: GooseConfiguration, logs: Seq<GooseLog>)
    ensures
        lines_of(config, logs, GooseLogFile::Request) == request_lines(config, requests_of(logs)),
    decreases logs.len(),
{
    if logs.len() > 0 {
        lemma_request_lines(config, logs.drop_last());
    }
    assert(lines_of(config, logs, GooseLogFile::Request) =~= request_lines(
        config,
        requests_of(logs),
    ));
}

/// The request log and the counters agree, endpoint by endpoint. Records of
/// any kind reached a logger after its request log was created, and then the
/// logger was told to finish; counters that held nothing counted the
/// requests among the records one by one. Then the request log holds, after
/// its header where it has one, the line of each of those requests and
/// nothing else: as many records as the counters hold over all endpoints.
/// And for every endpoint the counters hold what the requests of the log
/// come to for it: its requests, of which each is a success or a failure.
pub proof fn lemma_request_log_matches_counters(
    config: GooseConfiguration,
    start: GooseLoggerState,
    logs: Seq<GooseLog>,
    counters: Seq<GooseMetrics>,
)
    requires
        !start.finished,
        counted_along(counters, requests_of(logs)),
        counters[0].total() == 0,
        forall|key: Seq<char>, what: Counted| counters[0].count(key, what) == 0,
    ensures
        written(
            actions_over(config, start, run_of(GooseLogFile::Request, logs)),
            GooseLogFile::Request,
        ) == header_lines(config, GooseLogFile::Request) + request_lines(
            config,
            requests_of(logs),
        ),
        records_written(
            actions_over(config, start, run_of(GooseLogFile::Request, logs)),
            GooseLogFile::Request,
        ) == counters.last().total() + header_lines(config, GooseLogFile::Request).len(),
        forall|key: Seq<char>, what: Counted| #[trigger]
            counters.last().count(key, what) == tally(requests_of(logs), key, what),
        forall|key: Seq<char>| #[trigger]
            counters.last().count(key, Counted::All) == counters.last().count(
                key,
                Counted::Successes,
            ) + counters.last().count(key, Counted::Failures),
{
    let requests = requests_of(logs);
    lemma_log_of_a_run(config, start, GooseLogFile::Request, logs);
    lemma_request_lines(config, logs);
    lemma_counters_hold_the_tally(counters, requests, Seq::empty(), Counted::All);
    assert forall|key: Seq<char>, what: Counted| #[trigger]
        counters.last().count(key, what) == tally(requests, key, what) by {
        lemma_counters_hold_the_tally(counters, requests, key, what);
    }
    assert forall|key: Seq<char>| #[trigger]
        counters.last().count(key, Counted::All) == counters.last().count(
            key,
            Counted::Successes,
        ) + counters.last().count(key, Counted::Failures) by {
        lemma_tally_splits(requests, key, Counted::All);
    }
}

/// The request log of a throttled run is bounded. Where no request was made
/// without a grant of the throttle, and the clock of the throttle ticked no
/// more often than its capacity says in each of the seconds of the run, the
/// request log holds, besides its header, no more records than the capacity
/// allows in that time and one second more.
pub proof fn lemma_throttled_log_length(
    config: GooseConfiguration,
    start: GooseLoggerState,
    logs: Seq<GooseLog>,
    throttle: GooseThrottle,
    events: Seq<GooseThrottleEvent>,
    seconds: nat,
)
    requires
        !start.finished,
        throttle.well_formed(),
        throttle.enabled(),
        ticks(events) <= seconds * throttle.capacity,
        requests_of(logs).len() <= grants(throttle, events),
    ensures
        records_written(
            actions_over(config, start, run_of(GooseLogFile::Request, logs)),
            GooseLogFile::Request,
        ) <= (seconds + 1) * throttle.capacity + header_lines(config, GooseLogFile::Request).len(),
{
    lemma_log_of_a_run(config, start, GooseLogFile::Request, logs);
    lemma_lines_counted(config, logs, GooseLogFile::Request);
    lemma_grants_in_a_run(throttle, events, seconds);
}

/// A logger that is told to finish flushes each file that is open, the debug
/// log first, then the request log, the task log and the error log, then
/// stops; after that no file is open, and nothing that happens makes it ask
/// for anything again.
pub proof fn lemma_finish_releases_files(
    config: GooseConfiguration,
    start: GooseLoggerState,
    later: GooseLoggerEvent,
)
    requires
        !start.finished,
    ensures
        next_actions(config, start, GooseLoggerEvent::Received(None)) == finish_actions(start),
        finish_actions(start).last() == GooseLoggerActionView::Exit,
        forall|file: GooseLogFile|
            !next_state(start, GooseLoggerEvent::Received(None)).is_open(file),
        next_state(start, GooseLoggerEvent::Received(None)).finished,
        next_actions(config, next_state(start, GooseLoggerEvent::Received(None)), later)
            == Seq::<GooseLoggerActionView>::empty(),
        next_state(next_state(start, GooseLoggerEvent::Received(None)), later) == next_state(
            start,
            GooseLoggerEvent::Received(None),
        ),
{
}

} // verus!
