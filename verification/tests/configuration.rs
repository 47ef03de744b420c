use goose::config::{GooseConfiguration, GooseDefaults, GooseValue};
use goose::error::GooseError;
use goose::logger::GooseLogFormat;

#[test]
fn run_time_options_win_over_defaults() {
    let mut config = GooseConfiguration::new();
    config.request_log = "cli.log".to_string();
    config.request_format = Some(GooseLogFormat::Csv);
    let mut defaults = GooseDefaults::new();
    defaults.request_log = Some("default.log".to_string());
    defaults.request_format = Some(GooseLogFormat::Raw);
    defaults.debug_log = Some("debug.log".to_string());
    defaults.debug_format = Some(GooseLogFormat::Pretty);
    config.configure_loggers(&defaults);
    assert_eq!(config.request_log, "cli.log");
    assert_eq!(config.request_format, Some(GooseLogFormat::Csv));
    assert_eq!(config.debug_log, "debug.log");
    assert_eq!(config.debug_format, Some(GooseLogFormat::Pretty));
}

#[test]
fn formats_default_to_json_and_paths_to_none() {
    let mut config = GooseConfiguration::new();
    config.configure_loggers(&GooseDefaults::new());
    assert_eq!(config.request_log, "");
    assert_eq!(config.task_log, "");
    assert_eq!(config.error_log, "");
    assert_eq!(config.debug_log, "");
    assert_eq!(config.request_format, Some(GooseLogFormat::Json));
    assert_eq!(config.task_format, Some(GooseLogFormat::Json));
    assert_eq!(config.error_format, Some(GooseLogFormat::Json));
    assert_eq!(config.debug_format, Some(GooseLogFormat::Json));
    assert!(!config.request_body);
}

#[test]
fn a_manager_takes_no_format_from_defaults() {
    let mut config = GooseConfiguration::new();
    config.manager = true;
    config.task_format = Some(GooseLogFormat::Csv);
    let mut defaults = GooseDefaults::new();
    defaults.request_format = Some(GooseLogFormat::Raw);
    defaults.request_log = Some("requests.log".to_string());
    defaults.request_body = Some(true);
    config.configure_loggers(&defaults);
    assert_eq!(config.request_format, None);
    assert_eq!(config.debug_format, None);
    assert_eq!(config.error_format, None);
    assert_eq!(config.task_format, Some(GooseLogFormat::Csv));
    // Paths are taken from the defaults even on a manager.
    assert_eq!(config.request_log, "requests.log");
    assert!(!config.request_body);
}

#[test]
fn request_body_follows_option_then_default() {
    let mut defaults = GooseDefaults::new();
    defaults.request_body = Some(true);
    let mut config = GooseConfiguration::new();
    config.configure_loggers(&defaults);
    assert!(config.request_body);

    defaults.request_body = Some(false);
    let mut config = GooseConfiguration::new();
    config.request_body = true;
    config.configure_loggers(&defaults);
    assert!(config.request_body);

    let mut config = GooseConfiguration::new();
    config.configure_loggers(&defaults);
    assert!(!config.request_body);
}

#[test]
fn configuring_the_loggers_leaves_the_other_options() {
    let mut config = GooseConfiguration::new();
    config.host = "http://localhost".to_string();
    config.users = Some(3);
    config.no_debug_body = true;
    config.worker = true;
    config.throttle_requests = 10;
    config.configure_loggers(&GooseDefaults::new());
    assert_eq!(config.host, "http://localhost");
    assert_eq!(config.users, Some(3));
    assert!(config.no_debug_body);
    assert!(config.worker);
    assert!(!config.manager);
    assert_eq!(config.throttle_requests, 10);
}

#[test]
fn get_value_takes_the_first_candidate_that_is_set_and_not_filtered() {
    let config = GooseConfiguration::new();
    let picked = config.get_value(vec![
        GooseValue { value: Some(1usize), filter: true, message: "" },
        GooseValue { value: None, filter: false, message: "" },
        GooseValue { value: Some(3usize), filter: false, message: "three" },
        GooseValue { value: Some(4usize), filter: false, message: "" },
    ]);
    assert_eq!(picked, Some(3));
    let none: Option<usize> = config.get_value(vec![
        GooseValue { value: Some(1usize), filter: true, message: "" },
        GooseValue { value: None, filter: false, message: "" },
    ]);
    assert_eq!(none, None);
    let empty: Option<bool> = config.get_value(vec![]);
    assert_eq!(empty, None);
}

#[test]
fn attack_options_come_from_option_then_default_then_built_in() {
    let mut config = GooseConfiguration::new();
    config.users = Some(5);
    let mut defaults = GooseDefaults::new();
    defaults.host = Some("http://localhost".to_string());
    defaults.users = Some(3);
    defaults.run_time = Some(3);
    defaults.throttle_requests = Some(10);
    defaults.no_reset_metrics = Some(true);
    config.configure(&defaults).unwrap();
    assert_eq!(config.host, "http://localhost");
    assert_eq!(config.users, Some(5));
    assert_eq!(config.hatch_rate, Some(1));
    assert_eq!(config.run_time, 3);
    assert_eq!(config.throttle_requests, 10);
    assert!(config.no_reset_metrics);
}

#[test]
fn a_load_test_needs_a_host() {
    let mut config = GooseConfiguration::new();
    config.users = Some(5);
    match config.configure(&GooseDefaults::new()) {
        Err(GooseError::MissingHost) => {}
        other => panic!("unexpected: {:?}", other),
    }
    assert_eq!(config.users, Some(5));
    let mut defaults = GooseDefaults::new();
    defaults.host = Some(String::new());
    assert!(matches!(config.configure(&defaults), Err(GooseError::MissingHost)));
}

#[test]
fn users_and_hatch_rate_have_to_be_at_least_one() {
    let mut defaults = GooseDefaults::new();
    defaults.host = Some("http://localhost".to_string());
    let mut config = GooseConfiguration::new();
    config.users = Some(0);
    match config.configure(&defaults) {
        Err(GooseError::InvalidOption { option, value, detail }) => {
            assert_eq!(option, "users");
            assert_eq!(value, "0");
            assert_eq!(detail, "must be at least 1");
        }
        other => panic!("unexpected: {:?}", other),
    }
    let mut config = GooseConfiguration::new();
    defaults.hatch_rate = Some(0);
    match config.configure(&defaults) {
        Err(GooseError::InvalidOption { option, .. }) => assert_eq!(option, "hatch_rate"),
        other => panic!("unexpected: {:?}", other),
    }
}
