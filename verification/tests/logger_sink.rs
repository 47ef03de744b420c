use goose::config::{GooseConfiguration, GooseDefaults};
use goose::goose::GooseDebug;
use goose::logger::{GooseLog, GooseLogFormat};
use goose::metrics::{GooseMethod, GooseRawRequest, GooseRequestMetric, GooseTaskMetric};
use goose::sink::{
    GooseLogFile, GooseLoggerAction, GooseLoggerEvent, GooseLoggerState, LARGE_BUFFER,
    SMALL_BUFFER,
};

fn request_metric(user: usize) -> GooseRequestMetric {
    GooseRequestMetric {
        elapsed: 1,
        raw: GooseRawRequest {
            method: GooseMethod::Get,
            url: "http://localhost/".to_string(),
            body: String::new(),
        },
        name: "/".to_string(),
        final_url: "http://localhost/".to_string(),
        redirected: false,
        response_time: 2,
        status_code: 200,
        success: true,
        update: false,
        user,
        error: String::new(),
        coordinated_omission_elapsed: None,
        user_cadence: 0,
    }
}

fn task_metric() -> GooseTaskMetric {
    GooseTaskMetric {
        elapsed: 1,
        taskset_index: 0,
        task_index: 0,
        name: "index".to_string(),
        run_time: 2,
        success: true,
        user: 0,
    }
}

fn configured(request_log: &str, debug_log: &str, format: GooseLogFormat) -> GooseConfiguration {
    let mut config = GooseConfiguration::new();
    let mut defaults = GooseDefaults::new();
    defaults.request_log = Some(request_log.to_string());
    defaults.request_format = Some(format);
    defaults.debug_log = Some(debug_log.to_string());
    defaults.debug_format = Some(format);
    config.no_debug_body = true;
    let state = config.setup_loggers(&defaults);
    assert!(state.is_some());
    config
}

fn describe(actions: &[GooseLoggerAction]) -> Vec<String> {
    actions.iter().map(|a| format!("{:?}", a)).collect()
}

#[test]
fn no_logger_on_a_manager_or_without_logs() {
    let mut config = GooseConfiguration::new();
    config.manager = true;
    config.request_log = "requests.log".to_string();
    assert!(config.setup_loggers(&GooseDefaults::new()).is_none());
    // On a manager the loggers are not even configured.
    assert_eq!(config.request_format, None);

    let mut config = GooseConfiguration::new();
    assert!(config.setup_loggers(&GooseDefaults::new()).is_none());
    assert_eq!(config.request_format, Some(GooseLogFormat::Json));

    let mut config = GooseConfiguration::new();
    config.error_log = "errors.log".to_string();
    let state = config.setup_loggers(&GooseDefaults::new()).unwrap();
    assert_eq!(state, GooseLoggerState::new());
    assert!(!state.file_is_open(GooseLogFile::Error));
}

#[test]
fn the_logger_opens_the_enabled_logs_in_order() {
    let config = configured("requests.log", "debug.log", GooseLogFormat::Raw);
    let mut state = GooseLoggerState::new();
    let actions = config.logger_main(&mut state, GooseLoggerEvent::Start);
    assert_eq!(
        describe(&actions),
        vec![
            format!(
                "Open {{ file: Debug, path: \"debug.log\", label: \"debug file\", buffer_capacity: {} }}",
                SMALL_BUFFER
            ),
            format!(
                "Open {{ file: Request, path: \"requests.log\", label: \"request log\", buffer_capacity: {} }}",
                SMALL_BUFFER
            ),
        ]
    );
    assert_eq!(state, GooseLoggerState::new());
}

#[test]
fn buffers_are_large_where_bodies_are_logged() {
    assert_eq!(SMALL_BUFFER, 64 * 1024);
    assert_eq!(LARGE_BUFFER, 8 * 1024 * 1024);
    let mut config = GooseConfiguration::new();
    config.debug_log = "d".to_string();
    config.request_log = "r".to_string();
    config.task_log = "t".to_string();
    config.error_log = "e".to_string();
    config.request_body = true;
    config.configure_loggers(&GooseDefaults::new());
    let mut state = GooseLoggerState::new();
    let actions = config.logger_main(&mut state, GooseLoggerEvent::Start);
    let capacities: Vec<(GooseLogFile, usize)> = actions
        .iter()
        .map(|a| match a {
            GooseLoggerAction::Open { file, buffer_capacity, .. } => (*file, *buffer_capacity),
            other => panic!("unexpected: {:?}", other),
        })
        .collect();
    assert_eq!(
        capacities,
        vec![
            (GooseLogFile::Debug, LARGE_BUFFER),
            (GooseLogFile::Error, SMALL_BUFFER),
            (GooseLogFile::Request, LARGE_BUFFER),
            (GooseLogFile::Task, SMALL_BUFFER),
        ]
    );
}

#[test]
fn a_csv_log_starts_with_its_header() {
    let config = configured("requests.log", "debug.log", GooseLogFormat::Csv);
    let mut state = GooseLoggerState::new();
    let actions = config.logger_main(
        &mut state,
        GooseLoggerEvent::Opened { file: GooseLogFile::Request, success: true },
    );
    assert_eq!(
        describe(&actions),
        vec![
            "Write { file: Request, text: \"elapsed,raw,name,final_url,redirected,response_time,status_code,success,update,user,error,coordinated_omission_elapsed,user_cadence\\n\" }"
        ]
    );
    assert!(state.request_open);
    let actions = config.logger_main(
        &mut state,
        GooseLoggerEvent::Opened { file: GooseLogFile::Debug, success: true },
    );
    assert_eq!(
        describe(&actions),
        vec!["Write { file: Debug, text: \"tag,request,header,body\\n\" }"]
    );
    assert!(state.debug_open);
}

#[test]
fn other_formats_start_without_a_header() {
    let config = configured("requests.log", "debug.log", GooseLogFormat::Json);
    let mut state = GooseLoggerState::new();
    let actions = config.logger_main(
        &mut state,
        GooseLoggerEvent::Opened { file: GooseLogFile::Request, success: true },
    );
    assert!(actions.is_empty());
    assert!(state.request_open);
}

#[test]
fn a_file_that_fails_to_open_is_disabled() {
    let config = configured("requests.log", "debug.log", GooseLogFormat::Csv);
    let mut state = GooseLoggerState::new();
    let actions = config.logger_main(
        &mut state,
        GooseLoggerEvent::Opened { file: GooseLogFile::Request, success: false },
    );
    assert!(actions.is_empty());
    assert!(!state.request_open);
    // Records for the disabled log are dropped; other logs go on.
    config.logger_main(
        &mut state,
        GooseLoggerEvent::Opened { file: GooseLogFile::Debug, success: true },
    );
    let actions = config.logger_main(
        &mut state,
        GooseLoggerEvent::Received(Some(GooseLog::Request(request_metric(0)))),
    );
    assert!(actions.is_empty());
    let debug = GooseDebug { tag: "t".to_string(), request: None, header: None, body: None };
    let actions =
        config.logger_main(&mut state, GooseLoggerEvent::Received(Some(GooseLog::Debug(debug))));
    assert_eq!(
        describe(&actions),
        vec!["Write { file: Debug, text: \"\\\"t\\\",\\\"None\\\",\\\"None\\\",\\\"None\\\"\\n\" }"]
    );
}

#[test]
fn each_record_is_one_line_in_its_log() {
    let config = configured("requests.log", "debug.log", GooseLogFormat::Raw);
    let mut state = GooseLoggerState::new();
    config.logger_main(
        &mut state,
        GooseLoggerEvent::Opened { file: GooseLogFile::Request, success: true },
    );
    let mut lines = 0;
    for user in 0..25 {
        let actions = config.logger_main(
            &mut state,
            GooseLoggerEvent::Received(Some(GooseLog::Request(request_metric(user)))),
        );
        assert_eq!(actions.len(), 1);
        match &actions[0] {
            GooseLoggerAction::Write { file, text } => {
                assert_eq!(*file, GooseLogFile::Request);
                assert!(text.ends_with('\n'));
                assert_eq!(text.matches('\n').count(), 1);
                lines += 1;
            }
            other => panic!("unexpected: {:?}", other),
        }
    }
    assert_eq!(lines, 25);
    // The task log is not enabled: task records are dropped.
    let actions = config
        .logger_main(&mut state, GooseLoggerEvent::Received(Some(GooseLog::Task(task_metric()))));
    assert!(actions.is_empty());
}

#[test]
fn finishing_flushes_in_a_fixed_order_and_releases_the_files() {
    let mut config = GooseConfiguration::new();
    config.debug_log = "d".to_string();
    config.request_log = "r".to_string();
    config.task_log = "t".to_string();
    config.error_log = "e".to_string();
    config.configure_loggers(&GooseDefaults::new());
    let mut state = GooseLoggerState::new();
    for file in
        [GooseLogFile::Error, GooseLogFile::Task, GooseLogFile::Request, GooseLogFile::Debug]
    {
        config.logger_main(&mut state, GooseLoggerEvent::Opened { file, success: true });
    }
    let actions = config.logger_main(&mut state, GooseLoggerEvent::Received(None));
    assert_eq!(
        describe(&actions),
        vec![
            "Flush { file: Debug }",
            "Flush { file: Request }",
            "Flush { file: Task }",
            "Flush { file: Error }",
            "Exit",
        ]
    );
    assert!(state.finished);
    assert!(!state.debug_open && !state.request_open && !state.task_open && !state.error_open);
    // Nothing is asked for after the end.
    let actions = config.logger_main(
        &mut state,
        GooseLoggerEvent::Received(Some(GooseLog::Request(request_metric(0)))),
    );
    assert!(actions.is_empty());
    let actions = config.logger_main(&mut state, GooseLoggerEvent::Start);
    assert!(actions.is_empty());
}

#[test]
fn a_closed_channel_finishes_the_logger_too() {
    let config = configured("requests.log", "debug.log", GooseLogFormat::Raw);
    let mut state = GooseLoggerState::new();
    config.logger_main(
        &mut state,
        GooseLoggerEvent::Opened { file: GooseLogFile::Request, success: true },
    );
    let actions = config.logger_main(&mut state, GooseLoggerEvent::Disconnected);
    assert_eq!(describe(&actions), vec!["Flush { file: Request }", "Exit"]);
    assert!(state.finished);
}

#[test]
fn a_failed_write_is_reported_once_for_each_file() {
    let config = configured("requests.log", "debug.log", GooseLogFormat::Raw);
    let mut state = GooseLoggerState::new();
    let first =
        config.logger_main(&mut state, GooseLoggerEvent::WriteFailed { file: GooseLogFile::Request });
    assert_eq!(describe(&first), vec!["Warn { file: Request }"]);
    let second =
        config.logger_main(&mut state, GooseLoggerEvent::WriteFailed { file: GooseLogFile::Request });
    assert!(second.is_empty());
    let other =
        config.logger_main(&mut state, GooseLoggerEvent::WriteFailed { file: GooseLogFile::Debug });
    assert_eq!(describe(&other), vec!["Warn { file: Debug }"]);
    assert!(!state.finished);
}

#[test]
fn log_file_requests_and_lines() {
    let config = GooseConfiguration::new();
    assert!(config.open_log_file(GooseLogFile::Task, "", "task log", 64).is_none());
    match config.open_log_file(GooseLogFile::Task, "tasks.log", "task log", 64) {
        Some(GooseLoggerAction::Open { file, path, label, buffer_capacity }) => {
            assert_eq!(file, GooseLogFile::Task);
            assert_eq!(path, "tasks.log");
            assert_eq!(label, "task log");
            assert_eq!(buffer_capacity, 64);
        }
        other => panic!("unexpected: {:?}", other),
    }
    match config.write_to_log_file(GooseLogFile::Error, "message".to_string()) {
        GooseLoggerAction::Write { file, text } => {
            assert_eq!(file, GooseLogFile::Error);
            assert_eq!(text, "message\n");
        }
        other => panic!("unexpected: {:?}", other),
    }
}

#[test]
fn a_record_needs_the_format_of_its_own_log_only() {
    let mut config = GooseConfiguration::new();
    config.request_log = "requests.log".to_string();
    config.request_format = Some(GooseLogFormat::Raw);
    assert!(config.debug_format.is_none());
    assert!(config.task_format.is_none());
    let request = GooseLoggerEvent::Received(Some(GooseLog::Request(request_metric(1))));
    let task = GooseLoggerEvent::Received(Some(GooseLog::Task(task_metric())));
    assert!(config.has_format_for(&GooseLoggerEvent::Start));
    assert!(config.has_format_for(&GooseLoggerEvent::Received(None)));
    assert!(config.has_format_for(&GooseLoggerEvent::Disconnected));
    assert!(config.has_format_for(&request));
    assert!(!config.has_format_for(&task));
    let mut state = GooseLoggerState::new();
    let actions = config.logger_main(&mut state, GooseLoggerEvent::Start);
    assert_eq!(actions.len(), 1);
    let actions = config.logger_main(
        &mut state,
        GooseLoggerEvent::Opened { file: GooseLogFile::Request, success: true },
    );
    assert!(actions.is_empty());
    let actions = config.logger_main(&mut state, request);
    assert_eq!(actions.len(), 1);
    match &actions[0] {
        GooseLoggerAction::Write { file, text } => {
            assert_eq!(*file, GooseLogFile::Request);
            assert!(text.ends_with('\n'));
        }
        other => panic!("unexpected: {:?}", other),
    }
}

#[test]
fn a_whole_run_holds_the_header_and_one_line_for_each_request() {
    let config = configured("requests.log", "", GooseLogFormat::Csv);
    let mut state = GooseLoggerState::new();
    let mut run = vec![GooseLoggerEvent::Opened { file: GooseLogFile::Request, success: true }];
    for user in 0..7 {
        run.push(GooseLoggerEvent::Received(Some(GooseLog::Request(request_metric(user)))));
        // Records of another kind come in between; their log is not open.
        run.push(GooseLoggerEvent::Received(Some(GooseLog::Task(task_metric()))));
    }
    run.push(GooseLoggerEvent::Received(None));
    let mut lines: Vec<String> = Vec::new();
    for event in run {
        assert!(config.has_format_for(&event));
        for action in config.logger_main(&mut state, event) {
            if let GooseLoggerAction::Write { file, text } = action {
                assert_eq!(file, GooseLogFile::Request);
                lines.push(text);
            }
        }
    }
    assert_eq!(lines.len(), 7 + 1);
    assert!(lines[0].starts_with("elapsed,"));
    for (user, line) in lines[1..].iter().enumerate() {
        assert_eq!(line.matches('\n').count(), 1);
        assert!(line.contains(&format!(",{},", user)));
    }
    assert!(state.finished);
    assert!(!state.file_is_open(GooseLogFile::Request));
}
