use goose::aggregate::GooseMetrics;
use goose::histogram::GooseResponseTimes;
use goose::metrics::{GooseMethod, GooseRawRequest, GooseRequestMetric};

fn metric(name: &str, response_time: u64, success: bool) -> GooseRequestMetric {
    GooseRequestMetric {
        elapsed: 0,
        raw: GooseRawRequest { method: GooseMethod::Get, url: name.to_string(), body: String::new() },
        name: name.to_string(),
        final_url: name.to_string(),
        redirected: false,
        response_time,
        status_code: if success { 200 } else { 500 },
        success,
        update: false,
        user: 0,
        error: if success { String::new() } else { "BadStatus(500)".to_string() },
        coordinated_omission_elapsed: None,
        user_cadence: 0,
    }
}

#[test]
fn longer_times_are_counted_more_coarsely() {
    assert_eq!(GooseResponseTimes::rounded(0), 0);
    assert_eq!(GooseResponseTimes::rounded(99), 99);
    assert_eq!(GooseResponseTimes::rounded(100), 100);
    assert_eq!(GooseResponseTimes::rounded(123), 120);
    assert_eq!(GooseResponseTimes::rounded(499), 490);
    assert_eq!(GooseResponseTimes::rounded(500), 500);
    assert_eq!(GooseResponseTimes::rounded(999), 900);
    assert_eq!(GooseResponseTimes::rounded(1000), 1000);
    assert_eq!(GooseResponseTimes::rounded(2999), 2000);
    assert_eq!(GooseResponseTimes::rounded(u64::MAX), u64::MAX - u64::MAX % 1000);
}

#[test]
fn the_sketch_keeps_its_times_in_order() {
    let mut times = GooseResponseTimes::new();
    assert_eq!(times.percentile(50), None);
    for time in [7, 3, 250, 3, 1500, 7, 7, 255] {
        times.add(time);
    }
    let buckets: Vec<(u64, u64)> = times.buckets.iter().map(|b| (b.time, b.count)).collect();
    assert_eq!(buckets, vec![(3, 2), (7, 3), (250, 2), (1000, 1)]);
}

#[test]
fn percentiles_are_read_from_the_sketch() {
    let mut times = GooseResponseTimes::new();
    for time in 1..=100 {
        times.add(time);
    }
    assert_eq!(times.percentile(0), Some(1));
    assert_eq!(times.percentile(1), Some(1));
    assert_eq!(times.percentile(50), Some(50));
    assert_eq!(times.percentile(95), Some(95));
    assert_eq!(times.percentile(100), Some(100));
    assert_eq!(times.percentile(200), Some(100));
    let mut one = GooseResponseTimes::new();
    one.add(42);
    assert_eq!(one.percentile(0), Some(42));
    assert_eq!(one.percentile(50), Some(42));
    assert_eq!(one.percentile(100), Some(42));
}

#[test]
fn a_snapshot_shows_the_counters_of_an_endpoint() {
    let mut metrics = GooseMetrics::new();
    assert_eq!(metrics.snapshot("GET /"), None);
    for time in [10, 20, 30, 40] {
        metrics.record(&metric("/", time, true));
    }
    metrics.record(&metric("/", 2500, false));
    metrics.record(&metric("/about.html", 5, true));
    let index = metrics.snapshot("GET /").unwrap();
    assert_eq!(index.counter, 5);
    assert_eq!(index.success_count, 4);
    assert_eq!(index.fail_count, 1);
    assert_eq!(index.median, Some(30));
    assert_eq!(index.percentile_95, Some(2000));
    let about = metrics.snapshot("GET /about.html").unwrap();
    assert_eq!((about.counter, about.median), (1, Some(5)));
    assert_eq!(metrics.snapshot("GET /missing"), None);
    let entry = &metrics.requests[metrics.find("GET /").unwrap()];
    let counted: u64 = entry.response_times.buckets.iter().map(|b| b.count).sum();
    assert_eq!(counted, entry.counter);
}
