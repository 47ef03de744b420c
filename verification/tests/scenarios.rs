use goose::aggregate::GooseMetrics;
use goose::attack::{GooseAttack, GooseAttackAction, GooseAttackEvent, GooseAttackPhase};
use goose::cadence::GooseCoordinatedOmissionMitigation;
use goose::config::{GooseConfiguration, GooseDefaults};
use goose::csv::parse_row;
use goose::gaggle::{
    check_handshake, users_of_worker, GaggleHandshake, GaggleManager, GaggleManagerAction,
};
use goose::goose::{GooseTask, GooseTaskSet, GooseTaskSets};
use goose::logger::{GooseLog, GooseLogFormat};
use goose::metrics::{GooseMethod, GooseRequestMetric, GooseTaskMetric};
use goose::sink::{GooseLogFile, GooseLoggerAction, GooseLoggerEvent, GooseLoggerState};
use goose::throttle::{GooseThrottle, GooseThrottleAnswer};
use goose::user::{GooseUser, GooseUserAction};

// Paths used in load tests performed during these tests.
const INDEX_PATH: &str = "/";
const ABOUT_PATH: &str = "/about.html";

// Indexes to the above paths.
const INDEX_KEY: usize = 0;
const ABOUT_KEY: usize = 1;

// Load test configuration.
const USERS: usize = 3;
const RUN_TIME: usize = 3;
const HATCH_RATE: usize = 10;
const REQUEST_LOG: &str = "request-test.log";
const DEBUG_LOG: &str = "debug-test.log";
const LOG_FORMAT: GooseLogFormat = GooseLogFormat::Raw;
const THROTTLE_REQUESTS: usize = 10;
const EXPECT_WORKERS: usize = 2;

/// A server that lives in memory: it counts the hits of each path and
/// answers with the status that the path is set up with.
struct MockServer {
    statuses: [u16; 2],
    hits: [usize; 2],
    /// Every so many requests the server takes two seconds to answer.
    stall_every: usize,
}

impl MockServer {
    fn start() -> MockServer {
        MockServer { statuses: [200, 200], hits: [0, 0], stall_every: 0 }
    }

    /// Answers a request for a path: the status, and how long it took.
    fn get(&mut self, path: &str) -> (u16, u64) {
        let key = if path == INDEX_PATH { INDEX_KEY } else { ABOUT_KEY };
        self.hits[key] += 1;
        let total = self.hits[0] + self.hits[1];
        let delay = if self.stall_every > 0 && total % self.stall_every == 0 { 2000 } else { 5 };
        (self.statuses[key], delay)
    }
}

/// What a process leaves behind.
struct Outcome {
    metrics: GooseMetrics,
    users: usize,
    duration: usize,
    files: Vec<(GooseLogFile, String, Vec<String>)>,
    flushed: Vec<GooseLogFile>,
    logger_finished: bool,
}

impl Outcome {
    fn file(&self, path: &str) -> Option<&Vec<String>> {
        self.files.iter().find(|f| f.1 == path).map(|f| &f.2)
    }

    fn lines(&self, path: &str) -> usize {
        self.file(path).expect("the log file exists").iter().map(|w| w.matches('\n').count()).sum()
    }

    fn requests(&self, key: &str) -> &goose::aggregate::GooseRequestAggregate {
        &self.metrics.requests[self.metrics.find(key).expect("the endpoint was counted")]
    }
}

/// The logger with its files in memory.
struct Logger {
    config: GooseConfiguration,
    state: Option<GooseLoggerState>,
    files: Vec<(GooseLogFile, String, Vec<String>)>,
    flushed: Vec<GooseLogFile>,
}

impl Logger {
    fn handle(&mut self, first: GooseLoggerEvent) {
        let mut events = vec![first];
        while !events.is_empty() {
            let event = events.remove(0);
            let state = match self.state.as_mut() {
                Some(state) => state,
                None => return,
            };
            for action in self.config.logger_main(state, event) {
                match action {
                    GooseLoggerAction::Open { file, path, .. } => {
                        self.files.push((file, path, Vec::new()));
                        events.push(GooseLoggerEvent::Opened { file, success: true });
                    }
                    GooseLoggerAction::Write { file, text } => {
                        self.files.iter_mut().find(|f| f.0 == file).unwrap().2.push(text);
                    }
                    GooseLoggerAction::Flush { file } => self.flushed.push(file),
                    GooseLoggerAction::Warn { .. } => {}
                    GooseLoggerAction::Exit => {}
                }
            }
        }
    }
}

struct Simulated {
    user: GooseUser,
    pending: Option<usize>,
    busy_until: u64,
}

fn task_sets(first: &str) -> GooseTaskSets<&'static str> {
    let mut task_sets: GooseTaskSets<&'static str> = GooseTaskSets::new();
    let mut index = GooseTaskSet::new(first);
    index.register_task(GooseTask::new("get_index").set_function(INDEX_PATH));
    task_sets.register_taskset(index);
    let mut about = GooseTaskSet::new("About");
    about.register_task(GooseTask::new("get_about").set_function(ABOUT_PATH));
    task_sets.register_taskset(about);
    task_sets
}

/// Runs one process of a load test against the server, on a clock that is
/// counted in milliseconds, for the users at `first`, `first + step`, ...
fn execute(
    mut config: GooseConfiguration,
    defaults: &GooseDefaults,
    task_sets: &GooseTaskSets<&'static str>,
    co_mitigation: GooseCoordinatedOmissionMitigation,
    server: &mut MockServer,
    first: usize,
    step: usize,
    count: usize,
) -> Outcome {
    config.configure(defaults).expect("the configuration is valid");
    task_sets.validate().expect("the task sets are valid");
    let state = config.setup_loggers(defaults);
    let mut logger = Logger { config, state, files: Vec::new(), flushed: Vec::new() };
    let weights: Vec<usize> = task_sets.task_sets.iter().map(|t| t.weight).collect();
    let mut attack = GooseAttack::new(
        count,
        logger.config.hatch_rate.unwrap(),
        logger.config.run_time as u64 * 1000,
        logger.config.no_reset_metrics,
        &weights,
    )
    .expect("the load test is valid");
    let mut throttle = GooseThrottle::new(logger.config.throttle_requests);
    let tick = throttle.tick_interval().map(|nanos| nanos / 1_000_000);
    let mut metrics = GooseMetrics::new();
    let mut users: Vec<Simulated> = Vec::new();
    let mut stop = false;
    let mut stopped_at = 0;
    let mut now: u64 = 0;
    let mut wake: u64 = 0;
    let mut pending = attack.step(GooseAttackEvent::Begin);
    loop {
        for action in pending.drain(..) {
            match action {
                GooseAttackAction::SpawnLogger => logger.handle(GooseLoggerEvent::Start),
                GooseAttackAction::HatchUser { user, task_set } => {
                    let id = first + user * step;
                    // Users are dealt to the task sets by their number in the whole test.
                    let task_set = if step > 1 { id % task_sets.task_sets.len() } else { task_set };
                    users.push(Simulated {
                        user: GooseUser::new(
                            id,
                            task_set,
                            &task_sets.task_sets[task_set],
                            co_mitigation,
                            0,
                        )
                        .unwrap(),
                        pending: None,
                        busy_until: now,
                    });
                }
                GooseAttackAction::WaitUntil { time } => wake = time,
                GooseAttackAction::ResetMetrics => metrics.reset(),
                GooseAttackAction::CancelUsers { .. } => {
                    stop = true;
                    stopped_at = now;
                    throttle.cancel();
                }
                GooseAttackAction::FinishLogger => logger.handle(GooseLoggerEvent::Received(None)),
                GooseAttackAction::Report => {}
            }
        }
        if attack.phase == GooseAttackPhase::Stopped {
            break;
        }
        if attack.phase == GooseAttackPhase::Starting {
            pending = attack.step(GooseAttackEvent::LoggerSpawned { now });
            continue;
        }
        // The users that are free make their next request.
        let mut exited = 0;
        // Whoever waited longest for a token is served first.
        users.sort_by_key(|simulated| simulated.busy_until);
        for simulated in users.iter_mut() {
            if simulated.busy_until > now && !stop {
                continue;
            }
            if simulated.pending.is_none() {
                match simulated.user.next_action(stop, 0) {
                    GooseUserAction::RunTask { task } => simulated.pending = Some(task),
                    GooseUserAction::Exit => {
                        if simulated.busy_until != u64::MAX {
                            simulated.busy_until = u64::MAX;
                            exited += 1;
                        }
                        continue;
                    }
                }
            }
            let task = simulated.pending.unwrap();
            match throttle.acquire() {
                GooseThrottleAnswer::Wait => continue,
                GooseThrottleAnswer::Cancelled => {
                    simulated.pending = None;
                    continue;
                }
                GooseThrottleAnswer::Granted => {}
            }
            simulated.pending = None;
            let task_set = &task_sets.task_sets[simulated.user.task_set];
            let path = task_set.tasks[task].function.unwrap();
            let url = format!("{}{}", logger.config.host, path);
            let mut metric = GooseRequestMetric::new(
                GooseMethod::Get,
                &url,
                path,
                None,
                "",
                now,
                simulated.user.id,
            );
            let (status, delay) = server.get(path);
            metric.set_response(&url, status, delay);
            let finished = now + delay;
            let omission = simulated.user.cadence.observe(finished);
            metric.user_cadence = omission.cadence;
            let mut records = vec![metric.duplicate()];
            records.extend(metric.backfilled(omission));
            if !metric.success {
                let error = metric.error_record().unwrap();
                let body = format!("<html>{}</html>", status);
                let debug = metric.set_failure(
                    &error.error,
                    Some("content-type: text/html"),
                    Some(&body),
                    logger.config.no_debug_body,
                );
                logger.handle(GooseLoggerEvent::Received(Some(GooseLog::Error(error))));
                logger.handle(GooseLoggerEvent::Received(Some(GooseLog::Debug(debug))));
            }
            for record in records {
                if record.coordinated_omission_elapsed.is_none() {
                    assert!(metrics.record(&record));
                }
                logger.handle(GooseLoggerEvent::Received(Some(GooseLog::Request(record))));
            }
            logger.handle(GooseLoggerEvent::Received(Some(GooseLog::Task(GooseTaskMetric {
                elapsed: now,
                taskset_index: simulated.user.task_set,
                task_index: task,
                name: task_set.tasks[task].name.clone(),
                run_time: delay,
                success: status == 200,
                user: simulated.user.id,
            }))));
            simulated.busy_until = finished;
        }
        for _ in 0..exited {
            pending.extend(attack.step(GooseAttackEvent::UserExited));
        }
        // The clock moves on by a millisecond.
        now += 1;
        if let Some(tick) = tick {
            if now % tick == 0 {
                throttle.refill();
            }
        }
        if now >= wake && !stop {
            pending.extend(attack.step(GooseAttackEvent::Clock { now }));
        }
        assert!(now < 120_000, "the load test does not come to an end");
    }
    Outcome {
        metrics,
        users: attack.hatched,
        duration: ((stopped_at - attack.started) / 1000) as usize,
        files: logger.files,
        flushed: logger.flushed,
        logger_finished: logger.state.map(|s| s.finished).unwrap_or(true),
    }
}

fn common_defaults(request_log: &str, debug_log: &str) -> GooseDefaults {
    let mut defaults = GooseDefaults::new();
    defaults.host = Some("http://127.0.0.1:5000".to_string());
    defaults.users = Some(USERS);
    defaults.run_time = Some(RUN_TIME);
    defaults.hatch_rate = Some(HATCH_RATE);
    defaults.request_log = Some(request_log.to_string());
    defaults.request_format = Some(LOG_FORMAT);
    defaults.debug_log = Some(debug_log.to_string());
    defaults.debug_format = Some(LOG_FORMAT);
    defaults.throttle_requests = Some(THROTTLE_REQUESTS);
    defaults.no_reset_metrics = Some(true);
    defaults
}

// Helper to confirm all variations generate appropriate results.
fn validate_test(outcomes: &[Outcome], server: &MockServer, requests_files: &[String], debug_files: &[String]) {
    // Confirm that we loaded the mock endpoints. This confirms that we started
    // both users, which also verifies that hatch_rate was properly set.
    assert!(server.hits[INDEX_KEY] > 0);
    assert!(server.hits[ABOUT_KEY] > 0);

    let mut index = (0u64, 0u64, 0u64);
    let mut about = (0u64, 0u64, 0u64);
    let mut users = 0;
    for outcome in outcomes {
        // The manager of a gaggle adds up what its workers counted.
        if let Some(found) = outcome.metrics.find(&format!("GET {}", INDEX_PATH)) {
            let index_metrics = &outcome.metrics.requests[found];
            index.0 += index_metrics.counter;
            index.1 += index_metrics.success_count;
            index.2 += index_metrics.fail_count;
            // Confirm that we tracked status codes.
            assert!(!index_metrics.status_code_counts.is_empty());
        }
        if let Some(found) = outcome.metrics.find(&format!("GET {}", ABOUT_PATH)) {
            let about_metrics = &outcome.metrics.requests[found];
            about.0 += about_metrics.counter;
            about.1 += about_metrics.success_count;
            about.2 += about_metrics.fail_count;
            assert!(!about_metrics.status_code_counts.is_empty());
        }
        users += outcome.users;
        // Requests are made while users are hatched, and then for run_time seconds.
        assert!(outcome.duration == RUN_TIME);
        assert!(outcome.logger_finished);
    }

    // Confirm that the library and the server saw the same number of page loads.
    assert_eq!(server.hits[INDEX_KEY] as u64, index.0);
    assert_eq!(server.hits[INDEX_KEY] as u64, index.1);
    assert_eq!(server.hits[ABOUT_KEY] as u64, about.0);
    assert_eq!(server.hits[ABOUT_KEY] as u64, about.1);
    assert!(index.2 == 0);
    assert!(about.2 == 0);

    // Verify that the correct number of users was started.
    assert!(users == USERS);

    // Verify that the metrics file was created and has the correct number of lines.
    let mut metrics_lines = 0;
    for (outcome, requests_file) in outcomes.iter().zip(requests_files) {
        assert!(outcome.file(requests_file).is_some());
        metrics_lines += outcome.lines(requests_file);
    }
    assert!(metrics_lines == server.hits[INDEX_KEY] + server.hits[ABOUT_KEY]);

    // Verify that the debug file was created and is empty.
    for (outcome, debug_file) in outcomes.iter().zip(debug_files) {
        assert!(outcome.file(debug_file).is_some());
        assert!(outcome.lines(debug_file) == 0);
    }

    // Be sure there were no more requests made than the throttle should allow.
    // In the case of a gaggle, there's multiple processes running with the same
    // throttle.
    let number_of_processes = requests_files.len();
    assert!(metrics_lines <= (RUN_TIME + 1) * THROTTLE_REQUESTS * number_of_processes);
}

#[test]
// Configure load test with defaults.
fn test_defaults() {
    // Multiple tests run together, so set a unique name.
    let request_log = "defaults-".to_string() + REQUEST_LOG;
    let debug_log = "defaults-".to_string() + DEBUG_LOG;

    let mut server = MockServer::start();
    let mut config = GooseConfiguration::new();
    config.no_debug_body = true;
    let defaults = common_defaults(&request_log, &debug_log);

    let outcome = execute(
        config,
        &defaults,
        &task_sets("Index"),
        GooseCoordinatedOmissionMitigation::Disabled,
        &mut server,
        0,
        1,
        USERS,
    );
    validate_test(&[outcome], &server, &[request_log], &[debug_log]);
}

#[test]
// Configure load test with run time options (not with defaults).
fn test_no_defaults() {
    let requests_file = "nodefaults-".to_string() + REQUEST_LOG;
    let debug_file = "nodefaults-".to_string() + DEBUG_LOG;

    let mut server = MockServer::start();
    let mut config = GooseConfiguration::new();
    config.host = "http://127.0.0.1:5000".to_string();
    config.users = Some(USERS);
    config.hatch_rate = Some(HATCH_RATE);
    config.run_time = RUN_TIME;
    config.request_log = requests_file.clone();
    config.request_format =
        Some(GooseLogFormat::from_str(&format!("{:?}", LOG_FORMAT)).unwrap());
    config.debug_log = debug_file.clone();
    config.debug_format = Some(GooseLogFormat::from_str(&format!("{:?}", LOG_FORMAT)).unwrap());
    config.no_debug_body = true;
    config.throttle_requests = THROTTLE_REQUESTS;
    config.no_reset_metrics = true;

    let outcome = execute(
        config,
        &GooseDefaults::new(),
        &task_sets("Index"),
        GooseCoordinatedOmissionMitigation::Disabled,
        &mut server,
        0,
        1,
        USERS,
    );
    validate_test(&[outcome], &server, &[requests_file], &[debug_file]);
}

#[test]
// Configure load test with defaults, run as a gaggle.
fn test_defaults_gaggle() {
    let request_log = "gaggle-defaults".to_string() + REQUEST_LOG;
    let debug_log = "gaggle-defaults".to_string() + DEBUG_LOG;

    let mut server = MockServer::start();
    let worker_sets = task_sets("Index");
    // Alter the name of the task set so that the hash check has to be off.
    let manager_sets = task_sets("FooIndex");
    let own = GaggleHandshake { fingerprint: manager_sets.fingerprint(), version: 1 };
    let hello = GaggleHandshake { fingerprint: worker_sets.fingerprint(), version: 1 };
    assert!(check_handshake(own, hello, false).is_err());

    let mut manager = GaggleManager::new(own, true, EXPECT_WORKERS, USERS).unwrap();
    let mut starts = Vec::new();
    for _ in 0..EXPECT_WORKERS {
        starts.extend(manager.hello(hello));
    }
    assert_eq!(starts.len(), EXPECT_WORKERS);

    let mut outcomes = Vec::new();
    let mut request_logs: Vec<String> = vec![];
    let mut debug_logs: Vec<String> = vec![];
    for start in starts {
        let (worker, share) = match start {
            GaggleManagerAction::Start { worker, share } => (worker, share),
            other => panic!("unexpected: {:?}", other),
        };
        assert_eq!(share, users_of_worker(USERS, EXPECT_WORKERS, worker));
        let worker_request_log = request_log.clone() + &worker.to_string();
        let worker_debug_log = debug_log.clone() + &worker.to_string();
        let mut config = GooseConfiguration::new();
        config.worker = true;
        config.no_debug_body = true;
        let defaults = common_defaults(&worker_request_log, &worker_debug_log);
        outcomes.push(execute(
            config,
            &defaults,
            &worker_sets,
            GooseCoordinatedOmissionMitigation::Disabled,
            &mut server,
            share.first,
            share.step,
            share.count,
        ));
        request_logs.push(worker_request_log);
        debug_logs.push(worker_debug_log);
    }
    assert_eq!(manager.deadline(), vec![GaggleManagerAction::Stop]);
    assert!(manager.bye(0).is_empty());
    assert_eq!(manager.bye(1), vec![GaggleManagerAction::Report]);
    validate_test(&outcomes, &server, &request_logs, &debug_logs);
}

#[test]
fn throttled_requests_stay_within_the_bound() {
    let mut server = MockServer::start();
    let mut config = GooseConfiguration::new();
    config.no_debug_body = true;
    let defaults = common_defaults("r.log", "d.log");
    let outcome = execute(
        config,
        &defaults,
        &task_sets("Index"),
        GooseCoordinatedOmissionMitigation::Disabled,
        &mut server,
        0,
        1,
        USERS,
    );
    let total = server.hits[0] + server.hits[1];
    assert!(total <= (3 + 1) * 10);
    assert_eq!(outcome.lines("r.log"), total);
}

#[test]
fn failures_are_counted_and_logged() {
    for no_debug_body in [false, true] {
        let mut server = MockServer::start();
        server.statuses[ABOUT_KEY] = 500;
        let mut config = GooseConfiguration::new();
        config.no_debug_body = no_debug_body;
        config.error_log = "e.log".to_string();
        config.error_format = Some(GooseLogFormat::Csv);
        let mut defaults = common_defaults("r.log", "d.log");
        defaults.debug_format = Some(GooseLogFormat::Json);
        let outcome = execute(
            config,
            &defaults,
            &task_sets("Index"),
            GooseCoordinatedOmissionMitigation::Disabled,
            &mut server,
            0,
            1,
            USERS,
        );
        let about = outcome.requests("GET /about.html");
        assert!(about.counter > 0);
        assert_eq!(about.fail_count, about.counter);
        assert_eq!(about.success_count, 0);
        let index = outcome.requests("GET /");
        assert_eq!(index.fail_count, 0);
        // An error record is written for each failed request, after the header.
        let errors = outcome.file("e.log").unwrap();
        assert_eq!(
            errors[0],
            "elapsed,raw,name,final_url,redirected,response_time,status_code,user,error\n"
        );
        assert_eq!(errors.len() as u64 - 1, about.fail_count);
        for row in &errors[1..] {
            let fields = parse_row(row.trim_end_matches('\n')).expect("the row is well formed");
            assert_eq!(fields.len(), 9);
            assert_eq!(format!("{:?}", fields[6]), "Number(500)");
            assert_eq!(format!("{:?}", fields[8]), "Text(\"BadStatus(500)\")");
        }
        // The debug log holds one entry for each failure.
        let debug = outcome.file("d.log").unwrap();
        assert_eq!(debug.len() as u64, about.fail_count);
        for entry in debug {
            let value: serde_json::Value = serde_json::from_str(entry).unwrap();
            assert_eq!(value["tag"], serde_json::Value::from("BadStatus(500)"));
            if no_debug_body {
                assert!(value["body"].is_null());
            } else {
                assert_eq!(value["body"], serde_json::Value::from("<html>500</html>"));
            }
            assert_eq!(value["request"]["success"], serde_json::Value::from(false));
        }
    }
}

#[test]
fn stalls_are_backfilled() {
    let mut server = MockServer::start();
    server.stall_every = 10;
    let mut config = GooseConfiguration::new();
    config.no_debug_body = true;
    let mut defaults = common_defaults("r.log", "d.log");
    defaults.run_time = Some(10);
    defaults.throttle_requests = None;
    defaults.request_format = Some(GooseLogFormat::Csv);
    let outcome = execute(
        config,
        &defaults,
        &task_sets("Index"),
        GooseCoordinatedOmissionMitigation::Average,
        &mut server,
        0,
        1,
        USERS,
    );
    let rows = outcome.file("r.log").unwrap();
    let mut synthetic = 0;
    let mut real = 0;
    for row in &rows[1..] {
        let fields = parse_row(row.trim_end_matches('\n')).expect("the row is well formed");
        assert_eq!(fields.len(), 13);
        let error = format!("{:?}", fields[10]);
        let omission = format!("{:?}", fields[11]);
        if error == "Text(\"CO\")" {
            assert!(omission.starts_with("Number("));
            assert_ne!(omission, "Number(0)");
            assert_eq!(format!("{:?}", fields[7]), "Flag(false)");
            synthetic += 1;
        } else {
            assert_eq!(omission, "Empty");
            real += 1;
        }
    }
    assert!(synthetic > 0);
    assert_eq!(real, server.hits[0] + server.hits[1]);

    // Without the mitigation no record is made up.
    let mut server = MockServer::start();
    server.stall_every = 10;
    let mut config = GooseConfiguration::new();
    config.no_debug_body = true;
    let outcome = execute(
        config,
        &defaults,
        &task_sets("Index"),
        GooseCoordinatedOmissionMitigation::Disabled,
        &mut server,
        0,
        1,
        USERS,
    );
    assert_eq!(outcome.lines("r.log") - 1, server.hits[0] + server.hits[1]);
}

#[test]
fn every_log_is_valid_in_every_format() {
    for format in
        [GooseLogFormat::Csv, GooseLogFormat::Json, GooseLogFormat::Raw, GooseLogFormat::Pretty]
    {
        let mut server = MockServer::start();
        server.statuses[ABOUT_KEY] = 500;
        let mut config = GooseConfiguration::new();
        config.request_log = "request.log".to_string();
        config.task_log = "task.log".to_string();
        config.debug_log = "debug.log".to_string();
        config.error_log = "error.log".to_string();
        config.request_format = Some(format);
        config.task_format = Some(format);
        config.debug_format = Some(format);
        config.error_format = Some(format);
        let mut defaults = common_defaults("unused", "unused");
        defaults.run_time = Some(1);
        let outcome = execute(
            config,
            &defaults,
            &task_sets("Index"),
            GooseCoordinatedOmissionMitigation::Disabled,
            &mut server,
            0,
            1,
            USERS,
        );
        let headers = [
            ("request.log", "elapsed,raw,name,final_url,redirected,response_time,status_code,success,update,user,error,coordinated_omission_elapsed,user_cadence", "GooseRequestMetric {"),
            ("task.log", "elapsed,taskset_index,task_index,name,run_time,success,user", "GooseTaskMetric {"),
            ("debug.log", "tag,request,header,body", "GooseDebug {"),
            ("error.log", "elapsed,raw,name,final_url,redirected,response_time,status_code,user,error", "GooseErrorMetric {"),
        ];
        for (path, header, name) in headers {
            let writes = outcome.file(path).expect("the log file exists");
            assert!(writes.len() > 1);
            for write in writes {
                assert!(write.ends_with('\n'));
            }
            let first = writes[0].trim_end_matches('\n');
            match format {
                GooseLogFormat::Csv => {
                    assert_eq!(first, header);
                    let columns = header.split(',').count();
                    for row in &writes[1..] {
                        let fields = parse_row(row.trim_end_matches('\n')).unwrap();
                        assert_eq!(fields.len(), columns);
                    }
                }
                GooseLogFormat::Json => {
                    for write in writes {
                        assert_eq!(write.matches('\n').count(), 1);
                        let value: serde_json::Value = serde_json::from_str(write).unwrap();
                        assert!(value.is_object());
                    }
                }
                GooseLogFormat::Raw => {
                    for write in writes {
                        assert_eq!(write.matches('\n').count(), 1);
                        assert!(write.starts_with(name));
                        assert!(write.ends_with(" }\n"));
                    }
                }
                GooseLogFormat::Pretty => {
                    for write in writes {
                        assert!(write.matches('\n').count() > 1);
                        assert!(write.starts_with(&format!("{}\n", name)));
                        assert!(write.ends_with("\n}\n"));
                    }
                }
            }
        }
        // All four logs were flushed, in the fixed order.
        assert_eq!(
            outcome.flushed,
            vec![GooseLogFile::Debug, GooseLogFile::Request, GooseLogFile::Task, GooseLogFile::Error]
        );
        assert!(outcome.logger_finished);
    }
}
