//! Pod log alerting: decides which container logs to follow, how each log
//! follower reacts to what the cluster and the stream report, which records
//! become alerts, and what an alert says.

pub mod text;
pub mod registry;
pub mod model;
pub mod tailer;
pub mod timefmt;
pub mod slack;
