use rustdash::queries::{
    demo_logs, fallback_uri_query, loki_fallback_queries, requests_total_queries,
    uri_count_query, uri_metrics_query,
};
use rustdash::time_range::TimeRange;

#[test]
fn range_labels_and_minutes() {
    assert_eq!(TimeRange::OneMin.as_str(), "1m");
    assert_eq!(TimeRange::FiveMin.as_str(), "5m");
    assert_eq!(TimeRange::ThirtyMin.as_str(), "30m");
    assert_eq!(TimeRange::OneHour.as_str(), "1h");
    assert_eq!(TimeRange::OneDay.as_str(), "24h");
    assert_eq!(TimeRange::All.as_str(), "All");
    assert_eq!(TimeRange::OneMin.as_minutes(), Some(1));
    assert_eq!(TimeRange::FiveMin.as_minutes(), Some(5));
    assert_eq!(TimeRange::ThirtyMin.as_minutes(), Some(30));
    assert_eq!(TimeRange::OneHour.as_minutes(), Some(60));
    assert_eq!(TimeRange::OneDay.as_minutes(), Some(1440));
    assert_eq!(TimeRange::All.as_minutes(), None);
    assert_eq!(TimeRange::All.to_prometheus_range(), "all");
    assert_eq!(TimeRange::OneHour.to_prometheus_range(), "1h");
}

#[test]
fn range_cycle_wraps_both_ways() {
    let mut r = TimeRange::OneMin;
    let forward = [
        TimeRange::FiveMin,
        TimeRange::ThirtyMin,
        TimeRange::OneHour,
        TimeRange::OneDay,
        TimeRange::All,
        TimeRange::OneMin,
    ];
    for expected in forward {
        r = r.next();
        assert_eq!(r, expected);
    }
    for expected in [TimeRange::All, TimeRange::OneDay] {
        r = r.prev();
        assert_eq!(r, expected);
    }
    for r in [
        TimeRange::OneMin,
        TimeRange::FiveMin,
        TimeRange::ThirtyMin,
        TimeRange::OneHour,
        TimeRange::OneDay,
        TimeRange::All,
    ] {
        assert_eq!(r.next().prev(), r);
        assert_eq!(r.prev().next(), r);
    }
}

#[test]
fn total_queries_window_by_range() {
    let qs = requests_total_queries(TimeRange::FiveMin);
    assert_eq!(qs.len(), 3);
    assert_eq!(qs[0], "sum(rate(http_requests_total[5m]))");
    assert_eq!(qs[1], "sum(rate(prometheus_http_requests_total[5m]))");
    assert_eq!(qs[2], "sum(rate(up[5m]))");
    let qs = requests_total_queries(TimeRange::All);
    assert_eq!(qs[0], "sum(http_requests_total)");
    assert_eq!(qs[1], "sum(prometheus_http_requests_total)");
    assert_eq!(qs[2], "count(up)");
}

#[test]
fn uri_queries_filter_and_window() {
    assert_eq!(
        uri_metrics_query(None, TimeRange::FiveMin),
        "sum by(uri)(rate(http_server_requests_seconds_sum[5m])) / sum by(uri)(rate(http_server_requests_seconds_count[5m]))"
    );
    assert_eq!(
        uri_metrics_query(Some("shop"), TimeRange::OneHour),
        "sum by(uri)(rate(http_server_requests_seconds_sum{application=\"shop\"}[1h])) / sum by(uri)(rate(http_server_requests_seconds_count{application=\"shop\"}[1h]))"
    );
    assert_eq!(
        uri_metrics_query(None, TimeRange::All),
        "sum by(uri)(http_server_requests_seconds_sum) / sum by(uri)(http_server_requests_seconds_count)"
    );
    assert_eq!(
        uri_metrics_query(Some("shop"), TimeRange::All),
        "sum by(uri)(http_server_requests_seconds_sum{application=\"shop\"}) / sum by(uri)(http_server_requests_seconds_count{application=\"shop\"})"
    );
}

#[test]
fn uri_count_queries_name_the_endpoint() {
    assert_eq!(
        uri_count_query(None, "/api/cart", TimeRange::FiveMin),
        "sum(rate(http_server_requests_seconds_count{uri=\"/api/cart\"}[5m]))"
    );
    assert_eq!(
        uri_count_query(Some("shop"), "/api/cart", TimeRange::FiveMin),
        "sum(rate(http_server_requests_seconds_count{application=\"shop\", uri=\"/api/cart\"}[5m]))"
    );
    assert_eq!(
        uri_count_query(None, "/x", TimeRange::All),
        "sum(http_server_requests_seconds_count{uri=\"/x\"})"
    );
    assert_eq!(
        uri_count_query(Some("shop"), "/x", TimeRange::All),
        "sum(http_server_requests_seconds_count{application=\"shop\", uri=\"/x\"})"
    );
    assert_eq!(
        fallback_uri_query(),
        "sum by(uri)(rate(http_requests_total[5m]))"
    );
}

#[test]
fn log_selectors_are_tried_broadest_last() {
    let qs = loki_fallback_queries();
    assert_eq!(qs.len(), 6);
    assert_eq!(qs[0], "{service_name=\"fontory\"}");
    assert_eq!(qs[1], "{service_name=~\".+\"}");
    assert_eq!(qs[2], "{app=~\".+\"}");
    assert_eq!(qs[3], "{host=~\".+\"}");
    assert_eq!(qs[4], "{level=~\".+\"}");
    assert_eq!(qs[5], "{}");
}

#[test]
fn demo_entries_explain_themselves() {
    let logs = demo_logs();
    assert_eq!(logs.len(), 2);
    assert_eq!(
        logs[0].message,
        "No logs found in Loki. Check your Loki configuration."
    );
    assert_eq!(logs[0].level, "WARN");
    assert!(!logs[0].is_new);
    assert_eq!(logs[1].message, "RustDash is running in demo mode");
    assert_eq!(logs[1].level, "INFO");
    assert!(!logs[1].is_new);
}
