use goose::error::GooseError;
use goose::logger::GooseLogFormat;

#[test]
fn format_names_are_recognised_in_any_case() {
    assert_eq!(GooseLogFormat::from_str("csv").unwrap(), GooseLogFormat::Csv);
    assert_eq!(GooseLogFormat::from_str("CSV").unwrap(), GooseLogFormat::Csv);
    assert_eq!(GooseLogFormat::from_str("json").unwrap(), GooseLogFormat::Json);
    assert_eq!(GooseLogFormat::from_str("jsn").unwrap(), GooseLogFormat::Json);
    assert_eq!(GooseLogFormat::from_str("Raw").unwrap(), GooseLogFormat::Raw);
    assert_eq!(GooseLogFormat::from_str("pReTtY").unwrap(), GooseLogFormat::Pretty);
}

#[test]
fn format_names_match_the_whole_text() {
    assert!(GooseLogFormat::from_str("csvx").is_err());
    assert!(GooseLogFormat::from_str(" csv").is_err());
    assert!(GooseLogFormat::from_str("").is_err());
    assert!(GooseLogFormat::from_str("jso").is_err());
}

#[test]
fn format_parses_through_the_standard_trait() {
    let format: GooseLogFormat = "raw".parse().unwrap();
    assert_eq!(format, GooseLogFormat::Raw);
}

#[test]
fn format_round_trips_through_its_debug_name() {
    for format in [
        GooseLogFormat::Csv,
        GooseLogFormat::Json,
        GooseLogFormat::Raw,
        GooseLogFormat::Pretty,
    ] {
        let name = format!("{:?}", format);
        assert_eq!(GooseLogFormat::from_str(&name).unwrap(), format);
    }
}

#[test]
fn unknown_format_is_an_invalid_option() {
    match GooseLogFormat::from_str("xml") {
        Err(GooseError::InvalidOption { option, value, detail }) => {
            assert_eq!(option, "GooseLogFormat::\"xml\"");
            assert_eq!(value, "xml");
            assert_eq!(detail, "Invalid log_format, expected: csv, json, or raw");
        }
        other => panic!("unexpected: {:?}", other),
    }
}

#[test]
fn format_from_matches_takes_the_first_match() {
    let matched = vec![false, true, true, false];
    assert_eq!(GooseLogFormat::from_matches(&matched, "x").unwrap(), GooseLogFormat::Json);
    let matched = vec![false, false, false, true];
    assert_eq!(GooseLogFormat::from_matches(&matched, "x").unwrap(), GooseLogFormat::Pretty);
    let matched = vec![false, false, false, false];
    assert!(GooseLogFormat::from_matches(&matched, "x").is_err());
    let matched: Vec<bool> = vec![];
    assert!(GooseLogFormat::from_matches(&matched, "x").is_err());
}
