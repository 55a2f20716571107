//! The structured log record and what an alert built from it says.

use vstd::prelude::*;
use vstd::string::{StrSliceExecFns, StringExecFns};
use crate::text::same_text;
use crate::timefmt::{
    format_and_skew, rewrite_timestamp, rewritten, shifted, shifted_text, skew_window, utc_now_millis,
    LINK_TIME_FORMAT,
};

verus! {

/// A structured log record, as read from the JSON payload of a log line.
pub struct Log {
    pub level: String,
    pub timestamp: Option<String>,
    pub logger_name: Option<String>,
    pub message: String,
    pub trace_id: Option<String>,
    pub span_id: Option<String>,
    pub hostname: Option<String>,
}

/// A record is an error when its level is exactly `ERROR` (case counts).
pub open spec fn is_error_level(level: Seq<char>) -> bool {
    level == "ERROR"@
}

pub open spec fn is_prod(cluster: Seq<char>) -> bool {
    cluster == "prod-gcp"@
}

pub open spec fn trace_datasource(cluster: Seq<char>) -> Seq<char> {
    if is_prod(cluster) {
        "22P8A28344D07741F8D"@
    } else {
        "22P95CC91DC09CABFC8"@
    }
}

/// The Grafana link that opens a trace.
pub open spec fn grafana_trace_url(cluster: Seq<char>, trace_id: Seq<char>) -> Seq<char> {
    "https://grafana.nav.cloud.nais.io/explore?schemaVersion=1&panes=%7B%22trace%22%3A%7B%22datasource%22%3A%"@
        + trace_datasource(cluster)
        + "%22%2C%22queries%22%3A%5B%7B%22queryType%22%3A%22traceql%22%2C%22query%22%3A%22"@ + trace_id
        + "%22%7D%5D%7D%7D"@
}

pub open spec fn loki_datasource(cluster: Seq<char>) -> Seq<char> {
    if is_prod(cluster) {
        "PD969E40991D5C4A8"@
    } else {
        "P7BE696147D279490"@
    }
}

/// The time window of the Loki link: a minute either side of the record's
/// timestamp, or the last six hours when it has none that can be read.
pub open spec fn loki_window(ts: Option<String>) -> (Seq<char>, Seq<char>) {
    match ts {
        Some(t) => match skew_window(t@, LINK_TIME_FORMAT@, 1) {
            Some(w) => w,
            None => ("now-6h"@, "now"@),
        },
        None => ("now-6h"@, "now"@),
    }
}

/// The Grafana Loki link to a container's error logs in a time window.
pub open spec fn loki_url(container: Seq<char>, cluster: Seq<char>, window: (Seq<char>, Seq<char>)) -> Seq<char> {
    "https://grafana.nav.cloud.nais.io/a/grafana-lokiexplore-app/explore/service/"@ + container
        + "/logs?from="@ + window.0 + "&to="@ + window.1 + "&var-ds="@ + loki_datasource(cluster)
        + "&var-filters=service_name|%3D|"@ + container
        + "&patterns=[]&var-lineFormat=&var-fields=&var-levels=detected_level|%3D|Error&var-levels=detected_level|%3D|error&var-metadata=&var-jsonFields=&var-patterns=&var-lineFilterV2=&var-lineFilters=&displayedFields=[]&urlColumns=[%22Time%22,%22service_name%22,%22logger_name%22,%22detected_level%22,%22message%22,%22trace_id%22,%22stack_trace%22]&visualizationType=%22logs%22&sortOrder=%22Descending%22&timezone=browser&prettifyLogMessage=true&var-all-fields=&wrapLogMessage=true"@
}

pub open spec fn console_project(cluster: Seq<char>) -> Seq<char> {
    if is_prod(cluster) {
        "helved-prod-119e"@
    } else {
        "helved-dev-9e3f"@
    }
}

/// Where the cloud console's log view opens: the record's timestamp in UTC,
/// or two minutes before `now` when it has none that can be read.
pub open spec fn console_cursor(ts: Option<String>, now: int) -> Seq<char> {
    match ts {
        Some(t) => match rewritten(t@, LINK_TIME_FORMAT@) {
            Some(c) => c,
            None => shifted_text(now, -2, LINK_TIME_FORMAT@),
        },
        None => shifted_text(now, -2, LINK_TIME_FORMAT@),
    }
}

/// The cloud console link to a container's error logs.
pub open spec fn console_url(
    cluster: Seq<char>,
    container: Seq<char>,
    namespace: Seq<char>,
    cursor: Seq<char>,
) -> Seq<char> {
    "https://console.cloud.google.com/logs/query;query=resource.type%3D%22k8s_container%22%0Aresource.labels.container_name%3D%22"@
        + container + "%22%0Aresource.labels.namespace_name%3D%22"@ + namespace
        + "%22%0Aseverity%3E%3DERROR;cursorTimestamp="@ + cursor + ";duration=PT1H?project="@
        + console_project(cluster)
}

pub open spec fn peisen_host(cluster: Seq<char>) -> Seq<char> {
    if is_prod(cluster) {
        "https://peisen.intern.nav.no"@
    } else {
        "https://peisen.intern.dev.nav.no"@
    }
}

/// The time window of the Peisen link: a minute either side of the record's
/// timestamp, or of `now` when it has none that can be read.
pub open spec fn peisen_window(ts: Option<String>, now: int) -> (Seq<char>, Seq<char>) {
    let around_now = (
        shifted_text(now, -1, LINK_TIME_FORMAT@),
        shifted_text(now, 1, LINK_TIME_FORMAT@),
    );
    match ts {
        Some(t) => match skew_window(t@, LINK_TIME_FORMAT@, 1) {
            Some(w) => w,
            None => around_now,
        },
        None => around_now,
    }
}

/// The Peisen link to the Kafka messages of a time window, narrowed to a
/// trace when there is one.
pub open spec fn peisen_url(cluster: Seq<char>, trace_id: Seq<char>, window: (Seq<char>, Seq<char>)) -> Seq<char> {
    let base = peisen_host(cluster) + "/kafka?fom="@ + window.0 + "&tom="@ + window.1;
    if trace_id.len() == 0 {
        base
    } else {
        base + "&trace_id="@ + trace_id
    }
}

/// Where and in what setting an alert is raised.
pub struct AlertSite {
    pub cluster: String,
    pub namespace: String,
}

/// The contents of an alert message.
pub struct SlackAlert {
    pub channel: String,
    pub title: String,
    pub pod: String,
    pub cluster_label: String,
    pub logger: String,
    pub message: String,
    pub trace: String,
    pub trace_url: String,
    pub logs_url: String,
    pub team_logs_url: String,
    pub peisen_url: String,
}

pub open spec fn text_or(o: Option<String>, default: Seq<char>) -> Seq<char> {
    match o {
        Some(s) => s@,
        None => default,
    }
}

/// `r` is the alert for `log` from `container` in `pod`, raised at `now`.
pub open spec fn alert_for(
    r: SlackAlert,
    log: Log,
    container: Seq<char>,
    pod: Seq<char>,
    site: AlertSite,
    now: int,
) -> bool {
    let trace = text_or(log.trace_id, Seq::empty());
    &&& r.channel@ == "team-hel-ved-alerts"@
    &&& r.title@ == ":code-on-fire: "@ + container
    &&& r.pod@ == pod
    &&& r.cluster_label@ == if is_prod(site.cluster@) {
        ":alert: PROD :alert:"@
    } else {
        "DEV"@
    }
    &&& r.logger@ == "logger: "@ + text_or(log.logger_name, "log"@)
    &&& r.message@ == log.message@
    &&& r.trace@ == "trace_id: "@ + trace
    &&& r.trace_url@ == grafana_trace_url(site.cluster@, trace)
    &&& r.logs_url@ == loki_url(container, site.cluster@, loki_window(log.timestamp))
    &&& r.team_logs_url@ == console_url(
        site.cluster@,
        container,
        site.namespace@,
        console_cursor(log.timestamp, now),
    )
    &&& r.peisen_url@ == peisen_url(site.cluster@, trace, peisen_window(log.timestamp, now))
}

fn text_of(o: &Option<String>, default: &str) -> (r: String)
    ensures
        r@ == text_or(*o, default@),
{
    match o {
        Some(s) => s.clone(),
        None => default.to_owned(),
    }
}

impl Log {
    pub fn is_error(&self) -> (r: bool)
        ensures
            r == is_error_level(self.level@),
    {
        same_text(self.level.as_str(), "ERROR")
    }

    /// The alert for this record, raised now.
    pub fn to_slack_alert(&self, container: String, pod: String, site: &AlertSite) -> (r: SlackAlert)
        ensures
            exists|now: i64| alert_for(r, *self, container@, pod@, *site, now as int),
    {
        let now = utc_now_millis();
        self.alert_at(container, pod, site, now)
    }

    /// The alert for this record, raised at `now_ms`.
    pub fn alert_at(&self, container: String, pod: String, site: &AlertSite, now_ms: i64) -> (r: SlackAlert)
        ensures
            alert_for(r, *self, container@, pod@, *site, now_ms as int),
    {
        let cluster = site.cluster.as_str();
        let trace_id = match &self.trace_id {
            Some(t) => t.clone(),
            None => String::new(),
        };
        let trace_url = self.resolve_grafana_url(cluster, trace_id.as_str());
        let logs_url = self.resolve_grafana_loki(container.as_str(), cluster);
        let peisen_url = self.resolve_peisen_url(cluster, trace_id.as_str(), now_ms);
        let team_logs_url = self.resolve_team_logs_url(
            cluster,
            container.as_str(),
            site.namespace.as_str(),
            now_ms,
        );
        let cluster_label = if same_text(cluster, "prod-gcp") {
            ":alert: PROD :alert:"
        } else {
            "DEV"
        };
        let mut title = ":code-on-fire: ".to_owned();
        title.append(container.as_str());
        let mut logger = "logger: ".to_owned();
        logger.append(text_of(&self.logger_name, "log").as_str());
        let mut trace = "trace_id: ".to_owned();
        trace.append(trace_id.as_str());
        SlackAlert {
            channel: "team-hel-ved-alerts".to_owned(),
            title,
            pod,
            cluster_label: cluster_label.to_owned(),
            logger,
            message: self.message.clone(),
            trace,
            trace_url,
            logs_url,
            team_logs_url,
            peisen_url,
        }
    }

    /// The cloud console link to the container's error logs, opened at the
    /// record's timestamp, or two minutes before `now_ms`.
    pub fn resolve_team_logs_url(&self, cluster: &str, container: &str, namespace: &str, now_ms: i64) -> (r: String)
        ensures
            r@ == console_url(cluster@, container@, namespace@, console_cursor(self.timestamp, now_ms as int)),
    {
        let cursor = match &self.timestamp {
            Some(ts) => match rewrite_timestamp(ts.as_str(), LINK_TIME_FORMAT) {
                Some(c) => c,
                None => shifted(now_ms, -2, LINK_TIME_FORMAT),
            },
            None => shifted(now_ms, -2, LINK_TIME_FORMAT),
        };
        let project = if same_text(cluster, "prod-gcp") {
            "helved-prod-119e"
        } else {
            "helved-dev-9e3f"
        };
        let mut r = "https://console.cloud.google.com/logs/query;query=resource.type%3D%22k8s_container%22%0Aresource.labels.container_name%3D%22".to_owned();
        r.append(container);
        r.append("%22%0Aresource.labels.namespace_name%3D%22");
        r.append(namespace);
        r.append("%22%0Aseverity%3E%3DERROR;cursorTimestamp=");
        r.append(cursor.as_str());
        r.append(";duration=PT1H?project=");
        r.append(project);
        r
    }

    /// The Grafana link that opens the trace.
    pub fn resolve_grafana_url(&self, cluster: &str, trace_id: &str) -> (r: String)
        ensures
            r@ == grafana_trace_url(cluster@, trace_id@),
    {
        let datasource = if same_text(cluster, "prod-gcp") {
            "22P8A28344D07741F8D"
        } else {
            "22P95CC91DC09CABFC8"
        };
        let mut r = "https://grafana.nav.cloud.nais.io/explore?schemaVersion=1&panes=%7B%22trace%22%3A%7B%22datasource%22%3A%".to_owned();
        r.append(datasource);
        r.append("%22%2C%22queries%22%3A%5B%7B%22queryType%22%3A%22traceql%22%2C%22query%22%3A%22");
        r.append(trace_id);
        r.append("%22%7D%5D%7D%7D");
        r
    }

    /// The Peisen link to the Kafka messages around the record's timestamp,
    /// or around `now_ms`, narrowed to the trace when there is one.
    pub fn resolve_peisen_url(&self, cluster: &str, trace_id: &str, now_ms: i64) -> (r: String)
        ensures
            r@ == peisen_url(cluster@, trace_id@, peisen_window(self.timestamp, now_ms as int)),
    {
        let host = if same_text(cluster, "prod-gcp") {
            "https://peisen.intern.nav.no"
        } else {
            "https://peisen.intern.dev.nav.no"
        };
        let skewed = match &self.timestamp {
            Some(ts) => match format_and_skew(ts.as_str(), LINK_TIME_FORMAT, 1) {
                Ok(w) => Some(w),
                Err(_) => None,
            },
            None => None,
        };
        let (fom, tom) = match skewed {
            Some(w) => w,
            None => (shifted(now_ms, -1, LINK_TIME_FORMAT), shifted(now_ms, 1, LINK_TIME_FORMAT)),
        };
        let mut r = host.to_owned();
        r.append("/kafka?fom=");
        r.append(fom.as_str());
        r.append("&tom=");
        r.append(tom.as_str());
        if trace_id.unicode_len() != 0 {
            r.append("&trace_id=");
            r.append(trace_id);
        }
        r
    }

    /// The Grafana Loki link to the container's error logs in the minute
    /// either side of the record's timestamp, or in the last six hours.
    pub fn resolve_grafana_loki(&self, container: &str, cluster: &str) -> (r: String)
        ensures
            r@ == loki_url(container@, cluster@, loki_window(self.timestamp)),
    {
        let var_ds = if same_text(cluster, "prod-gcp") {
            "PD969E40991D5C4A8"
        } else {
            "P7BE696147D279490"
        };
        let skewed = match &self.timestamp {
            Some(ts) => match format_and_skew(ts.as_str(), LINK_TIME_FORMAT, 1) {
                Ok(w) => Some(w),
                Err(_) => None,
            },
            None => None,
        };
        let (from, to) = match skewed {
            Some(w) => w,
            None => ("now-6h".to_owned(), "now".to_owned()),
        };
        let mut r = "https://grafana.nav.cloud.nais.io/a/grafana-lokiexplore-app/explore/service/".to_owned();
        r.append(container);
        r.append("/logs?from=");
        r.append(from.as_str());
        r.append("&to=");
        r.append(to.as_str());
        r.append("&var-ds=");
        r.append(var_ds);
        r.append("&var-filters=service_name|%3D|");
        r.append(container);
        r.append("&patterns=[]&var-lineFormat=&var-fields=&var-levels=detected_level|%3D|Error&var-levels=detected_level|%3D|error&var-metadata=&var-jsonFields=&var-patterns=&var-lineFilterV2=&var-lineFilters=&displayedFields=[]&urlColumns=[%22Time%22,%22service_name%22,%22logger_name%22,%22detected_level%22,%22message%22,%22trace_id%22,%22stack_trace%22]&visualizationType=%22logs%22&sortOrder=%22Descending%22&timezone=browser&prettifyLogMessage=true&var-all-fields=&wrapLogMessage=true");
        r
    }
}

} // verus!
