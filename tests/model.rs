use podlog_alerts::model::{AlertSite, Log};
use podlog_alerts::timefmt::{format_and_skew, rewrite_timestamp, shifted, SkewError, LINK_TIME_FORMAT};

fn record(timestamp: Option<&str>, trace_id: Option<&str>) -> Log {
    Log {
        level: "ERROR".to_string(),
        timestamp: timestamp.map(|s| s.to_string()),
        logger_name: Some("no.nav.Worker".to_string()),
        message: "boom".to_string(),
        trace_id: trace_id.map(|s| s.to_string()),
        span_id: None,
        hostname: None,
    }
}

fn grafana(datasource: &str, trace_id: &str) -> String {
    let host = "https://grafana.nav.cloud.nais.io";
    format!("{host}/explore?schemaVersion=1&panes=%7B%22trace%22%3A%7B%22datasource%22%3A%{datasource}%22%2C%22queries%22%3A%5B%7B%22queryType%22%3A%22traceql%22%2C%22query%22%3A%22{trace_id}%22%7D%5D%7D%7D")
}

fn loki(container: &str, from: &str, to: &str, var_ds: &str) -> String {
    let host = "https://grafana.nav.cloud.nais.io";
    format!("{host}/a/grafana-lokiexplore-app/explore/service/{container}/logs?from={from}&to={to}&var-ds={var_ds}&var-filters=service_name|%3D|{container}&patterns=[]&var-lineFormat=&var-fields=&var-levels=detected_level|%3D|Error&var-levels=detected_level|%3D|error&var-metadata=&var-jsonFields=&var-patterns=&var-lineFilterV2=&var-lineFilters=&displayedFields=[]&urlColumns=[%22Time%22,%22service_name%22,%22logger_name%22,%22detected_level%22,%22message%22,%22trace_id%22,%22stack_trace%22]&visualizationType=%22logs%22&sortOrder=%22Descending%22&timezone=browser&prettifyLogMessage=true&var-all-fields=&wrapLogMessage=true")
}

fn console(container: &str, namespace: &str, cursor_timestamp: &str, project: &str) -> String {
    let host = "https://console.cloud.google.com";
    let severity = "ERROR";
    let query = format!("resource.type%3D%22k8s_container%22%0Aresource.labels.container_name%3D%22{container}%22%0Aresource.labels.namespace_name%3D%22{namespace}%22%0Aseverity%3E%3D{severity}");
    let duration = "PT1H";
    format!("{host}/logs/query;query={query};cursorTimestamp={cursor_timestamp};duration={duration}?project={project}")
}

#[test]
fn error_level_is_exact() {
    assert!(record(None, None).is_error());
    let mut l = record(None, None);
    l.level = "error".to_string();
    assert!(!l.is_error());
    l.level = "WARN".to_string();
    assert!(!l.is_error());
}

#[test]
fn grafana_trace_link_by_cluster() {
    let l = record(None, None);
    assert_eq!(l.resolve_grafana_url("prod-gcp", "abc"), grafana("22P8A28344D07741F8D", "abc"));
    assert_eq!(l.resolve_grafana_url("dev-gcp", "abc"), grafana("22P95CC91DC09CABFC8", "abc"));
    assert_eq!(l.resolve_grafana_url("dev-gcp", ""), grafana("22P95CC91DC09CABFC8", ""));
}

#[test]
fn loki_link_without_timestamp_covers_six_hours() {
    let l = record(None, None);
    assert_eq!(l.resolve_grafana_loki("app", "dev-gcp"), loki("app", "now-6h", "now", "P7BE696147D279490"));
    assert_eq!(l.resolve_grafana_loki("app", "prod-gcp"), loki("app", "now-6h", "now", "PD969E40991D5C4A8"));
}

#[test]
fn loki_link_with_timestamp_covers_two_minutes() {
    let l = record(Some("2025-01-01T12:00:00.123+02:00"), None);
    assert_eq!(
        l.resolve_grafana_loki("app", "prod-gcp"),
        loki("app", "2025-01-01T09%3A59%3A00.123Z", "2025-01-01T10%3A01%3A00.123Z", "PD969E40991D5C4A8")
    );
}

#[test]
fn loki_link_with_bad_timestamp_falls_back() {
    let l = record(Some("yesterday"), None);
    assert_eq!(l.resolve_grafana_loki("app", "dev-gcp"), loki("app", "now-6h", "now", "P7BE696147D279490"));
}

#[test]
fn skewed_window_is_encoded() {
    let (from, to) = match format_and_skew("2025-01-01T00:00:30Z", LINK_TIME_FORMAT, 1) {
        Ok(w) => w,
        Err(_) => panic!("expected a window"),
    };
    assert_eq!(from, "2024-12-31T23%3A59%3A30.000Z");
    assert_eq!(to, "2025-01-01T00%3A01%3A30.000Z");
    let (from, to) = match format_and_skew("2025-01-01T00:00:30Z", LINK_TIME_FORMAT, 0) {
        Ok(w) => w,
        Err(_) => panic!("expected a window"),
    };
    assert_eq!(from, to);
}

#[test]
fn skewed_window_needs_a_timestamp() {
    assert!(matches!(format_and_skew("2025-13-01T00:00:00Z", LINK_TIME_FORMAT, 1), Err(SkewError::Unparseable)));
    assert!(matches!(format_and_skew("", LINK_TIME_FORMAT, 1), Err(SkewError::Unparseable)));
    assert!(matches!(
        format_and_skew("2025-01-01T00:00:00Z", LINK_TIME_FORMAT, i64::MAX),
        Err(SkewError::OutOfRange)
    ));
}

#[test]
fn timestamps_rewrite_in_utc() {
    assert_eq!(
        rewrite_timestamp("2025-06-30T23:30:00-01:00", LINK_TIME_FORMAT),
        Some("2025-07-01T00:30:00.000Z".to_string())
    );
    assert_eq!(rewrite_timestamp("not a time", LINK_TIME_FORMAT), None);
}

#[test]
fn shifted_instants() {
    // 2025-01-01T00:00:00Z
    let ms = 1_735_689_600_000;
    assert_eq!(shifted(ms, -2, LINK_TIME_FORMAT), "2024-12-31T23:58:00.000Z");
    assert_eq!(shifted(ms, 1, LINK_TIME_FORMAT), "2025-01-01T00:01:00.000Z");
    assert_eq!(shifted(i64::MAX, 1, LINK_TIME_FORMAT), "");
}

#[test]
fn console_link_uses_record_time() {
    let l = record(Some("2025-01-01T10:00:00Z"), None);
    assert_eq!(
        l.resolve_team_logs_url("prod-gcp", "app", "helved", 0),
        console("app", "helved", "2025-01-01T10:00:00.000Z", "helved-prod-119e")
    );
}

#[test]
fn console_link_without_time_opens_two_minutes_back() {
    let l = record(None, None);
    let now = 1_735_689_600_000;
    assert_eq!(
        l.resolve_team_logs_url("dev-gcp", "app", "helved", now),
        console("app", "helved", "2024-12-31T23:58:00.000Z", "helved-dev-9e3f")
    );
}

#[test]
fn peisen_link_with_and_without_trace() {
    let l = record(Some("2025-01-01T10:00:00Z"), None);
    assert_eq!(
        l.resolve_peisen_url("prod-gcp", "", 0),
        "https://peisen.intern.nav.no/kafka?fom=2025-01-01T09%3A59%3A00.000Z&tom=2025-01-01T10%3A01%3A00.000Z"
    );
    assert_eq!(
        l.resolve_peisen_url("dev-gcp", "t1", 0),
        "https://peisen.intern.dev.nav.no/kafka?fom=2025-01-01T09%3A59%3A00.000Z&tom=2025-01-01T10%3A01%3A00.000Z&trace_id=t1"
    );
}

#[test]
fn peisen_link_without_time_is_around_now() {
    let l = record(None, None);
    let now = 1_735_689_600_000;
    assert_eq!(
        l.resolve_peisen_url("dev-gcp", "", now),
        "https://peisen.intern.dev.nav.no/kafka?fom=2024-12-31T23:59:00.000Z&tom=2025-01-01T00:01:00.000Z"
    );
}

#[test]
fn alert_contents() {
    let l = record(Some("2025-01-01T10:00:00Z"), Some("t1"));
    let site = AlertSite { cluster: "prod-gcp".to_string(), namespace: "helved".to_string() };
    let a = l.alert_at("app".to_string(), "p1".to_string(), &site, 0);
    assert_eq!(a.channel, "team-hel-ved-alerts");
    assert_eq!(a.title, ":code-on-fire: app");
    assert_eq!(a.pod, "p1");
    assert_eq!(a.cluster_label, ":alert: PROD :alert:");
    assert_eq!(a.logger, "logger: no.nav.Worker");
    assert_eq!(a.message, "boom");
    assert_eq!(a.trace, "trace_id: t1");
    assert_eq!(a.trace_url, grafana("22P8A28344D07741F8D", "t1"));
    assert_eq!(
        a.logs_url,
        loki("app", "2025-01-01T09%3A59%3A00.000Z", "2025-01-01T10%3A01%3A00.000Z", "PD969E40991D5C4A8")
    );
    assert_eq!(a.team_logs_url, console("app", "helved", "2025-01-01T10:00:00.000Z", "helved-prod-119e"));
    assert_eq!(
        a.peisen_url,
        "https://peisen.intern.nav.no/kafka?fom=2025-01-01T09%3A59%3A00.000Z&tom=2025-01-01T10%3A01%3A00.000Z&trace_id=t1"
    );
}

#[test]
fn alert_defaults_outside_prod() {
    let mut l = record(None, None);
    l.logger_name = None;
    let site = AlertSite { cluster: "dev-gcp".to_string(), namespace: "helved".to_string() };
    let a = l.to_slack_alert("app".to_string(), "p1".to_string(), &site);
    assert_eq!(a.cluster_label, "DEV");
    assert_eq!(a.logger, "logger: log");
    assert_eq!(a.trace, "trace_id: ");
    assert_eq!(a.logs_url, loki("app", "now-6h", "now", "P7BE696147D279490"));
    assert!(a.peisen_url.starts_with("https://peisen.intern.dev.nav.no/kafka?fom="));
    assert!(!a.peisen_url.contains("trace_id"));
}
