//! The query strings the dashboard sends to its two backends, built
//! from the selected time range, and the fallback material used when
//! a backend returns nothing.

use vstd::prelude::*;

use crate::clock::now_string;
use crate::logs::LogEntry;
use crate::time_range::TimeRange;

verus! {

/// The three queries tried in turn for the total request rate: the
/// service's own counter, the backend's self-monitoring counter, and
/// the up-count as a last resort; windowed forms except for the
/// unwindowed `All` range.
pub open spec fn spec_total_queries(range: TimeRange) -> Seq<Seq<char>> {
    if range == TimeRange::All {
        seq![
            "sum(http_requests_total)"@,
            "sum(prometheus_http_requests_total)"@,
            "count(up)"@,
        ]
    } else {
        seq![
            "sum(rate(http_requests_total["@ + range.spec_prometheus_range() + "]))"@,
            "sum(rate(prometheus_http_requests_total["@ + range.spec_prometheus_range() + "]))"@,
            "sum(rate(up["@ + range.spec_prometheus_range() + "]))"@,
        ]
    }
}

/// Builds the total-request-rate queries for a time range.
pub fn requests_total_queries(range: TimeRange) -> (r: Vec<String>)
    ensures
        r@.len() == 3,
        forall|i: int| 0 <= i < 3 ==> (#[trigger] r@[i])@ == spec_total_queries(range)[i],
{
    let mut out: Vec<String> = Vec::new();
    if matches!(range, TimeRange::All) {
        out.push(String::from_str("sum(http_requests_total)"));
        out.push(String::from_str("sum(prometheus_http_requests_total)"));
        out.push(String::from_str("count(up)"));
    } else {
        let rs = range.to_prometheus_range();
        let mut q0 = String::from_str("sum(rate(http_requests_total[");
        q0.append(rs.as_str());
        q0.append("]))");
        out.push(q0);
        let mut q1 = String::from_str("sum(rate(prometheus_http_requests_total[");
        q1.append(rs.as_str());
        q1.append("]))");
        out.push(q1);
        let mut q2 = String::from_str("sum(rate(up[");
        q2.append(rs.as_str());
        q2.append("]))");
        out.push(q2);
    }
    out
}

/// The average-duration-per-endpoint query: summed duration over
/// summed count, grouped by endpoint path, optionally filtered to one
/// application, windowed except for `All`.
pub open spec fn spec_uri_query(app: Option<Seq<char>>, range: TimeRange) -> Seq<char> {
    if range == TimeRange::All {
        match app {
            Option::Some(a) => "sum by(uri)(http_server_requests_seconds_sum{application=\""@
                + a + "\"}) / sum by(uri)(http_server_requests_seconds_count{application=\""@ + a
                + "\"})"@,
            Option::None => "sum by(uri)(http_server_requests_seconds_sum) / sum by(uri)(http_server_requests_seconds_count)"@,
        }
    } else {
        let rs = range.spec_prometheus_range();
        match app {
            Option::Some(a) => "sum by(uri)(rate(http_server_requests_seconds_sum{application=\""@
                + a + "\"}["@ + rs
                + "])) / sum by(uri)(rate(http_server_requests_seconds_count{application=\""@ + a
                + "\"}["@ + rs + "]))"@,
            Option::None => "sum by(uri)(rate(http_server_requests_seconds_sum["@ + rs
                + "])) / sum by(uri)(rate(http_server_requests_seconds_count["@ + rs + "]))"@,
        }
    }
}

/// Builds the average-duration-per-endpoint query.
pub fn uri_metrics_query(application: Option<&str>, range: TimeRange) -> (r: String)
    ensures
        r@ == spec_uri_query(
            match application {
                Option::Some(a) => Option::Some(a@),
                Option::None => Option::None,
            },
            range,
        ),
{
    if matches!(range, TimeRange::All) {
        match application {
            Some(a) => {
                let mut q = String::from_str(
                    "sum by(uri)(http_server_requests_seconds_sum{application=\"",
                );
                q.append(a);
                q.append("\"}) / sum by(uri)(http_server_requests_seconds_count{application=\"");
                q.append(a);
                q.append("\"})");
                q
            },
            None => String::from_str(
                "sum by(uri)(http_server_requests_seconds_sum) / sum by(uri)(http_server_requests_seconds_count)",
            ),
        }
    } else {
        let rs = range.to_prometheus_range();
        match application {
            Some(a) => {
                let mut q = String::from_str(
                    "sum by(uri)(rate(http_server_requests_seconds_sum{application=\"",
                );
                q.append(a);
                q.append("\"}[");
                q.append(rs.as_str());
                q.append(
                    "])) / sum by(uri)(rate(http_server_requests_seconds_count{application=\"",
                );
                q.append(a);
                q.append("\"}[");
                q.append(rs.as_str());
                q.append("]))");
                q
            },
            None => {
                let mut q = String::from_str("sum by(uri)(rate(http_server_requests_seconds_sum[");
                q.append(rs.as_str());
                q.append("])) / sum by(uri)(rate(http_server_requests_seconds_count[");
                q.append(rs.as_str());
                q.append("]))");
                q
            },
        }
    }
}

/// The request-count query for one endpoint path: the total over
/// `All`, the rate otherwise, optionally filtered to one application.
pub open spec fn spec_uri_count_query(
    app: Option<Seq<char>>,
    uri: Seq<char>,
    range: TimeRange,
) -> Seq<char> {
    if range == TimeRange::All {
        match app {
            Option::Some(a) => "sum(http_server_requests_seconds_count{application=\""@ + a
                + "\", uri=\""@ + uri + "\"})"@,
            Option::None => "sum(http_server_requests_seconds_count{uri=\""@ + uri + "\"})"@,
        }
    } else {
        let rs = range.spec_prometheus_range();
        match app {
            Option::Some(a) => "sum(rate(http_server_requests_seconds_count{application=\""@ + a
                + "\", uri=\""@ + uri + "\"}["@ + rs + "]))"@,
            Option::None => "sum(rate(http_server_requests_seconds_count{uri=\""@ + uri + "\"}["@
                + rs + "]))"@,
        }
    }
}

/// Builds the request-count query for one endpoint path.
pub fn uri_count_query(application: Option<&str>, uri: &str, range: TimeRange) -> (r: String)
    ensures
        r@ == spec_uri_count_query(
            match application {
                Option::Some(a) => Option::Some(a@),
                Option::None => Option::None,
            },
            uri@,
            range,
        ),
{
    if matches!(range, TimeRange::All) {
        match application {
            Some(a) => {
                let mut q = String::from_str("sum(http_server_requests_seconds_count{application=\"");
                q.append(a);
                q.append("\", uri=\"");
                q.append(uri);
                q.append("\"})");
                q
            },
            None => {
                let mut q = String::from_str("sum(http_server_requests_seconds_count{uri=\"");
                q.append(uri);
                q.append("\"})");
                q
            },
        }
    } else {
        let rs = range.to_prometheus_range();
        match application {
            Some(a) => {
                let mut q = String::from_str(
                    "sum(rate(http_server_requests_seconds_count{application=\"",
                );
                q.append(a);
                q.append("\", uri=\"");
                q.append(uri);
                q.append("\"}[");
                q.append(rs.as_str());
                q.append("]))");
                q
            },
            None => {
                let mut q = String::from_str("sum(rate(http_server_requests_seconds_count{uri=\"");
                q.append(uri);
                q.append("\"}[");
                q.append(rs.as_str());
                q.append("]))");
                q
            },
        }
    }
}

/// The endpoint-rate query tried when the duration query yields no
/// rows at all.
pub fn fallback_uri_query() -> (r: String)
    ensures
        r@ == "sum by(uri)(rate(http_requests_total[5m]))"@,
{
    String::from_str("sum by(uri)(rate(http_requests_total[5m]))")
}

/// The log selectors tried in order until one returns entries: the
/// service's own label first, then ever-broader label matches.
pub open spec fn spec_loki_fallback_queries() -> Seq<Seq<char>> {
    seq![
        "{service_name=\"fontory\"}"@,
        "{service_name=~\".+\"}"@,
        "{app=~\".+\"}"@,
        "{host=~\".+\"}"@,
        "{level=~\".+\"}"@,
        "{}"@,
    ]
}

/// Builds the ordered list of log selectors to try.
pub fn loki_fallback_queries() -> (r: Vec<String>)
    ensures
        r@.len() == 6,
        forall|i: int| 0 <= i < 6 ==> (#[trigger] r@[i])@ == spec_loki_fallback_queries()[i],
{
    let mut out: Vec<String> = Vec::new();
    out.push(String::from_str("{service_name=\"fontory\"}"));
    out.push(String::from_str("{service_name=~\".+\"}"));
    out.push(String::from_str("{app=~\".+\"}"));
    out.push(String::from_str("{host=~\".+\"}"));
    out.push(String::from_str("{level=~\".+\"}"));
    out.push(String::from_str("{}"));
    out
}

/// The placeholder entries shown when no selector found any logs at
/// all, stamped with the current local time.
pub fn demo_logs() -> (r: Vec<LogEntry>)
    ensures
        r@.len() == 2,
        r@[0].message@ == "No logs found in Loki. Check your Loki configuration."@,
        r@[0].level@ == "WARN"@,
        !r@[0].is_new,
        r@[1].message@ == "RustDash is running in demo mode"@,
        r@[1].level@ == "INFO"@,
        !r@[1].is_new,
{
    let mut out: Vec<LogEntry> = Vec::new();
    out.push(
        LogEntry {
            timestamp: now_string(),
            message: String::from_str("No logs found in Loki. Check your Loki configuration."),
            level: String::from_str("WARN"),
            is_new: false,
        },
    );
    out.push(
        LogEntry {
            timestamp: now_string(),
            message: String::from_str("RustDash is running in demo mode"),
            level: String::from_str("INFO"),
            is_new: false,
        },
    );
    out
}

} // verus!
