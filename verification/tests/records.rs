use goose::config::GooseConfiguration;
use goose::csv::{parse_row, render_row, CsvField};
use goose::goose::GooseDebug;
use goose::logger::{
    debug_csv_header, error_csv_header, requests_csv_header, tasks_csv_header, GooseLogFormat,
    GooseLogger,
};
use goose::metrics::{
    GooseErrorMetric, GooseMethod, GooseRawRequest, GooseRequestMetric, GooseTaskMetric,
};

fn raw_request() -> GooseRawRequest {
    GooseRawRequest {
        method: GooseMethod::Get,
        url: "http://localhost/about.html".to_string(),
        body: String::new(),
    }
}

fn request_metric() -> GooseRequestMetric {
    GooseRequestMetric {
        elapsed: 12,
        raw: raw_request(),
        name: "/about.html".to_string(),
        final_url: "http://localhost/about.html".to_string(),
        redirected: false,
        response_time: 7,
        status_code: 200,
        success: true,
        update: false,
        user: 2,
        error: String::new(),
        coordinated_omission_elapsed: None,
        user_cadence: 0,
    }
}

fn error_metric() -> GooseErrorMetric {
    GooseErrorMetric {
        elapsed: 15,
        raw: raw_request(),
        name: "/about.html".to_string(),
        final_url: "http://localhost/about.html".to_string(),
        redirected: false,
        response_time: 3,
        status_code: 500,
        user: 1,
        error: "500 Internal Server Error: \"about\"".to_string(),
    }
}

fn task_metric() -> GooseTaskMetric {
    GooseTaskMetric {
        elapsed: 1,
        taskset_index: 0,
        task_index: 3,
        name: "say \"hi\"".to_string(),
        run_time: 25,
        success: true,
        user: 4,
    }
}

fn config_with(format: GooseLogFormat) -> GooseConfiguration {
    let mut config = GooseConfiguration::new();
    config.request_format = Some(format);
    config.task_format = Some(format);
    config.error_format = Some(format);
    config.debug_format = Some(format);
    config
}

#[test]
fn csv_headers_are_fixed() {
    assert_eq!(debug_csv_header(), "tag,request,header,body");
    assert_eq!(
        error_csv_header(),
        "elapsed,raw,name,final_url,redirected,response_time,status_code,user,error"
    );
    assert_eq!(
        requests_csv_header(),
        "elapsed,raw,name,final_url,redirected,response_time,status_code,success,update,user,error,coordinated_omission_elapsed,user_cadence"
    );
    assert_eq!(
        tasks_csv_header(),
        "elapsed,taskset_index,task_index,name,run_time,success,user"
    );
}

#[test]
fn csv_headers_name_as_many_columns_as_rows_hold() {
    assert_eq!(requests_csv_header().split(',').count(), request_metric().csv_fields().len());
    assert_eq!(error_csv_header().split(',').count(), error_metric().csv_fields().len());
    assert_eq!(tasks_csv_header().split(',').count(), task_metric().csv_fields().len());
    let debug = GooseDebug { tag: "t".to_string(), request: None, header: None, body: None };
    assert_eq!(debug_csv_header().split(',').count(), debug.csv_fields().len());
}

#[test]
fn task_row_quotes_the_name_and_doubles_inner_quotes() {
    let config = config_with(GooseLogFormat::Csv);
    let row = config.prepare_csv(&task_metric());
    assert_eq!(row, "1,0,3,\"say \"\"hi\"\"\",25,true,4");
    assert_eq!(config.format_message(task_metric()), row);
}

#[test]
fn request_row_holds_every_field_in_header_order() {
    let config = config_with(GooseLogFormat::Csv);
    let row = config.prepare_csv(&request_metric());
    assert_eq!(
        row,
        "12,\"GooseRawRequest { method: Get, url: \"\"http://localhost/about.html\"\", body: \"\"\"\" }\",\"/about.html\",\"http://localhost/about.html\",false,7,200,true,false,2,\"\",,0"
    );
}

#[test]
fn request_row_holds_the_omission_where_there_is_one() {
    let config = config_with(GooseLogFormat::Csv);
    let mut metric = request_metric();
    metric.success = false;
    metric.error = "CO".to_string();
    metric.coordinated_omission_elapsed = Some(2000);
    metric.user_cadence = 100;
    let row = config.prepare_csv(&metric);
    assert!(row.ends_with(",false,false,2,\"CO\",2000,100"));
}

#[test]
fn error_row_holds_every_field_in_header_order() {
    let config = config_with(GooseLogFormat::Csv);
    let row = config.prepare_csv(&error_metric());
    assert!(row.starts_with("15,\"GooseRawRequest { method: Get"));
    assert!(row.ends_with(
        ",\"/about.html\",\"http://localhost/about.html\",false,3,500,1,\"500 Internal Server Error: \"\"about\"\"\""
    ));
}

#[test]
fn debug_row_renders_what_was_kept() {
    let config = config_with(GooseLogFormat::Csv);
    let debug = GooseDebug {
        tag: "failed".to_string(),
        request: None,
        header: Some("content-type: text/html".to_string()),
        body: None,
    };
    assert_eq!(
        config.prepare_csv(&debug),
        "\"failed\",\"None\",\"Some(\"\"content-type: text/html\"\")\",\"None\""
    );
}

#[test]
fn task_record_in_raw_format_is_one_line() {
    let config = config_with(GooseLogFormat::Raw);
    let mut metric = task_metric();
    metric.name = "two\nlines\tand a tab".to_string();
    let text = config.format_message(metric);
    assert_eq!(
        text,
        "GooseTaskMetric { elapsed: 1, taskset_index: 0, task_index: 3, name: \"two\\nlines\\tand a tab\", run_time: 25, success: true, user: 4 }"
    );
    assert!(!text.contains('\n'));
}

#[test]
fn raw_format_matches_the_derived_debug_on_plain_text() {
    let config = config_with(GooseLogFormat::Raw);
    assert_eq!(config.format_message(task_metric()), format!("{:?}", task_metric()));
    assert_eq!(config.format_message(request_metric()), format!("{:?}", request_metric()));
    assert_eq!(config.format_message(error_metric()), format!("{:?}", error_metric()));
    let debug = GooseDebug {
        tag: "tag".to_string(),
        request: Some(request_metric()),
        header: None,
        body: Some("<html>".to_string()),
    };
    let expected = format!("{:?}", debug);
    assert_eq!(config.format_message(debug), expected);
}

#[test]
fn pretty_format_matches_the_derived_debug_on_plain_text() {
    let config = config_with(GooseLogFormat::Pretty);
    assert_eq!(config.format_message(task_metric()), format!("{:#?}", task_metric()));
    assert_eq!(config.format_message(request_metric()), format!("{:#?}", request_metric()));
    assert_eq!(config.format_message(error_metric()), format!("{:#?}", error_metric()));
    let mut omitted = request_metric();
    omitted.coordinated_omission_elapsed = Some(31);
    let debug = GooseDebug {
        tag: "tag".to_string(),
        request: Some(omitted),
        header: Some("h".to_string()),
        body: None,
    };
    let expected = format!("{:#?}", debug);
    assert_eq!(config.format_message(debug), expected);
}

#[test]
fn pretty_format_puts_each_field_on_its_own_line() {
    let config = config_with(GooseLogFormat::Pretty);
    let text = config.format_message(task_metric());
    assert_eq!(
        text,
        "GooseTaskMetric {\n    elapsed: 1,\n    taskset_index: 0,\n    task_index: 3,\n    name: \"say \\\"hi\\\"\",\n    run_time: 25,\n    success: true,\n    user: 4,\n}"
    );
}

#[test]
fn task_record_in_json_format() {
    let config = config_with(GooseLogFormat::Json);
    assert_eq!(
        config.format_message(task_metric()),
        "{\"elapsed\":1,\"name\":\"say \\\"hi\\\"\",\"run_time\":25,\"success\":true,\"task_index\":3,\"taskset_index\":0,\"user\":4}"
    );
}

#[test]
fn request_record_in_json_format() {
    let config = config_with(GooseLogFormat::Json);
    assert_eq!(
        config.format_message(request_metric()),
        "{\"coordinated_omission_elapsed\":null,\"elapsed\":12,\"error\":\"\",\"final_url\":\"http://localhost/about.html\",\"name\":\"/about.html\",\"raw\":{\"body\":\"\",\"method\":\"Get\",\"url\":\"http://localhost/about.html\"},\"redirected\":false,\"response_time\":7,\"status_code\":200,\"success\":true,\"update\":false,\"user\":2,\"user_cadence\":0}"
    );
}

#[test]
fn error_record_in_json_format() {
    let config = config_with(GooseLogFormat::Json);
    let text = config.format_message(error_metric());
    let value: serde_json::Value = serde_json::from_str(&text).unwrap();
    assert_eq!(value["status_code"], serde_json::Value::from(500u64));
    assert_eq!(
        value["error"],
        serde_json::Value::from("500 Internal Server Error: \"about\"")
    );
    assert_eq!(value["raw"]["method"], serde_json::Value::from("Get"));
    assert_eq!(value.as_object().unwrap().len(), 9);
}

#[test]
fn debug_record_in_json_format() {
    let config = config_with(GooseLogFormat::Json);
    let debug = GooseDebug {
        tag: "POSTing on /path/to/form".to_string(),
        request: None,
        header: None,
        body: None,
    };
    assert_eq!(
        config.format_message(debug),
        "{\"body\":null,\"header\":null,\"request\":null,\"tag\":\"POSTing on /path/to/form\"}"
    );
    let debug = GooseDebug {
        tag: "t".to_string(),
        request: Some(request_metric()),
        header: Some("h".to_string()),
        body: Some("line\nbreak".to_string()),
    };
    let text = config.format_message(debug);
    assert!(!text.contains('\n'));
    let value: serde_json::Value = serde_json::from_str(&text).unwrap();
    assert_eq!(value["body"], serde_json::Value::from("line\nbreak"));
    assert_eq!(value["request"]["user"], serde_json::Value::from(2u64));
}

#[test]
fn rows_read_back_as_they_were_written() {
    let fields = vec![
        CsvField::Number(0),
        CsvField::Number(18446744073709551615),
        CsvField::Text("plain".to_string()),
        CsvField::Text("with, comma and \"quotes\"".to_string()),
        CsvField::Text(String::new()),
        CsvField::Flag(true),
        CsvField::Flag(false),
        CsvField::Empty,
        CsvField::Text("line\nbreak".to_string()),
        CsvField::Empty,
    ];
    let row = render_row(&fields);
    assert_eq!(
        row,
        "0,18446744073709551615,\"plain\",\"with, comma and \"\"quotes\"\"\",\"\",true,false,,\"line\nbreak\","
    );
    let parsed = parse_row(&row).unwrap();
    assert_eq!(format!("{:?}", parsed), format!("{:?}", fields));
}

#[test]
fn record_rows_read_back_as_their_fields() {
    let fields = request_metric().csv_fields();
    let parsed = parse_row(&render_row(&fields)).unwrap();
    assert_eq!(format!("{:?}", parsed), format!("{:?}", fields));
    let fields = error_metric().csv_fields();
    let parsed = parse_row(&render_row(&fields)).unwrap();
    assert_eq!(format!("{:?}", parsed), format!("{:?}", fields));
    let fields = task_metric().csv_fields();
    let parsed = parse_row(&render_row(&fields)).unwrap();
    assert_eq!(format!("{:?}", parsed), format!("{:?}", fields));
}

#[test]
fn texts_that_are_no_rows_are_refused() {
    assert!(parse_row("\"open").is_none());
    assert!(parse_row("\"closed\"x").is_none());
    assert!(parse_row("007").is_none());
    assert!(parse_row("18446744073709551616").is_none());
    assert!(parse_row("maybe").is_none());
    assert!(parse_row("1,2,x\"y").is_none());
    assert!(parse_row("-1").is_none());
}

#[test]
fn the_empty_text_is_a_row_of_one_missing_value() {
    let parsed = parse_row("").unwrap();
    assert_eq!(format!("{:?}", parsed), "[Empty]");
    let parsed = parse_row(",").unwrap();
    assert_eq!(format!("{:?}", parsed), "[Empty, Empty]");
}
