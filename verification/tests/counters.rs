use goose::aggregate::{same_text, GooseMetrics};
use goose::metrics::{GooseMethod, GooseRawRequest, GooseRequestMetric};
use goose::queue::{GooseMetricQueue, DEFAULT_QUEUE_CAPACITY};

fn metric(method: GooseMethod, name: &str, status_code: u16, success: bool) -> GooseRequestMetric {
    GooseRequestMetric {
        elapsed: 0,
        raw: GooseRawRequest { method, url: name.to_string(), body: String::new() },
        name: name.to_string(),
        final_url: name.to_string(),
        redirected: false,
        response_time: 1,
        status_code,
        success,
        update: false,
        user: 0,
        error: if success { String::new() } else { "failed".to_string() },
        coordinated_omission_elapsed: None,
        user_cadence: 0,
    }
}

#[test]
fn the_key_of_an_endpoint_is_its_method_and_name() {
    assert_eq!(metric(GooseMethod::Get, "/", 200, true).key(), "GET /");
    assert_eq!(metric(GooseMethod::Post, "/login", 200, true).key(), "POST /login");
    assert_eq!(GooseMethod::Delete.verb(), "DELETE");
    assert_eq!(GooseMethod::Head.verb(), "HEAD");
    assert_eq!(GooseMethod::Patch.verb(), "PATCH");
    assert_eq!(GooseMethod::Put.verb(), "PUT");
}

#[test]
fn every_request_is_a_success_or_a_failure() {
    let mut metrics = GooseMetrics::new();
    let requests = vec![
        metric(GooseMethod::Get, "/", 200, true),
        metric(GooseMethod::Get, "/about.html", 500, false),
        metric(GooseMethod::Get, "/", 200, true),
        metric(GooseMethod::Get, "/about.html", 500, false),
        metric(GooseMethod::Get, "/", 404, false),
        metric(GooseMethod::Post, "/", 200, true),
    ];
    for request in &requests {
        assert!(metrics.record(request));
    }
    assert_eq!(metrics.requests.len(), 3);
    let mut total = 0;
    for entry in &metrics.requests {
        assert_eq!(entry.counter, entry.success_count + entry.fail_count);
        let by_status: u64 = entry.status_code_counts.iter().map(|s| s.count).sum();
        assert_eq!(entry.counter, by_status);
        total += entry.counter;
    }
    assert_eq!(total, requests.len() as u64);

    let index = &metrics.requests[metrics.find("GET /").unwrap()];
    assert_eq!((index.counter, index.success_count, index.fail_count), (3, 2, 1));
    let codes: Vec<(u16, u64)> =
        index.status_code_counts.iter().map(|s| (s.status_code, s.count)).collect();
    assert_eq!(codes, vec![(200, 2), (404, 1)]);

    let about = &metrics.requests[metrics.find("GET /about.html").unwrap()];
    assert_eq!((about.counter, about.success_count, about.fail_count), (2, 0, 2));
    assert_eq!(about.fail_count, about.counter);
    assert!(metrics.find("GET /missing").is_none());
}

#[test]
fn a_full_counter_drops_the_record() {
    let mut metrics = GooseMetrics::new();
    assert!(metrics.record(&metric(GooseMethod::Get, "/", 200, true)));
    metrics.requests[0].counter = u64::MAX;
    assert!(!metrics.record(&metric(GooseMethod::Get, "/", 200, true)));
    assert_eq!(metrics.dropped_metrics, 1);
    assert_eq!(metrics.requests[0].counter, u64::MAX);
}

#[test]
fn resetting_forgets_the_ramp_up() {
    let mut metrics = GooseMetrics::new();
    metrics.record(&metric(GooseMethod::Get, "/", 200, true));
    metrics.reset();
    assert!(metrics.requests.is_empty());
    assert_eq!(metrics.dropped_metrics, 0);
}

#[test]
fn texts_are_compared_character_by_character() {
    assert!(same_text("GET /", "GET /"));
    assert!(!same_text("GET /", "GET /a"));
    assert!(!same_text("GET /", "PUT /"));
    assert!(same_text("", ""));
}

#[test]
fn a_full_queue_drops_records_and_counts_them() {
    assert_eq!(DEFAULT_QUEUE_CAPACITY, 1024);
    let mut queue = GooseMetricQueue::new(2);
    assert!(queue.offer(metric(GooseMethod::Get, "/a", 200, true)));
    assert!(queue.offer(metric(GooseMethod::Get, "/b", 200, true)));
    assert!(!queue.offer(metric(GooseMethod::Get, "/c", 200, true)));
    assert!(!queue.offer(metric(GooseMethod::Get, "/d", 200, true)));
    assert_eq!(queue.dropped_metrics, 2);
    let names: Vec<String> = queue.drain().into_iter().map(|m| m.name).collect();
    assert_eq!(names, vec!["/a".to_string(), "/b".to_string()]);
    assert!(queue.records.is_empty());
    assert!(queue.offer(metric(GooseMethod::Get, "/e", 200, true)));
    let mut metrics = GooseMetrics::new();
    metrics.merge_dropped(queue.dropped_metrics);
    assert_eq!(metrics.dropped_metrics, 2);
    metrics.merge_dropped(u64::MAX);
    assert_eq!(metrics.dropped_metrics, u64::MAX);
}
