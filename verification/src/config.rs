//! What an operator can tune, and the values used when nothing is given.

use std::time::Duration;
use vstd::prelude::*;

verus! {

/// The span of time that lasts the given number of whole seconds.
pub uninterp spec fn whole_seconds(secs: u64) -> Duration;

/// `Duration::from_secs` builds the span of that many whole seconds; the same
/// number always gives the same span.
pub assume_specification[ Duration::from_secs ](secs: u64) -> (span: Duration)
    ensures
        span == whole_seconds(secs),
;

/// A `Duration` is a plain value: its clone is the same span.
pub assume_specification[ <Duration as Clone>::clone ](span: &Duration) -> (copy: Duration)
    ensures
        copy == *span,
;

/// The metrics export.
#[derive(Debug, Clone)]
pub struct PrometheusConfig {
    /// Whether the metrics are served at all.
    pub enable: bool,
    /// The route under which they are served.
    pub route: String,
}

/// The relay itself. None of these changes what the protocol does, only how
/// patient it is and how much it accepts.
#[derive(Debug, Clone)]
pub struct RelayerConfig {
    /// The largest frame, in bytes, that is accepted from a peer.
    pub max_frame_size: usize,
    /// The time between two keep-alive pings on one connection.
    pub keep_alive_interval: Duration,
    /// The time a single send may take before the connection is given up.
    pub session_message_timeout: Duration,
    /// The time a host may wait for its peer before the channel expires.
    pub channel_creation_timeout: Duration,
    /// The address, as `IP:port`, on which connections are accepted.
    pub bind_address: String,
}

pub fn default_prometheus_route() -> (route: String)
    ensures
        route@ == "/metrics"@,
{
    "/metrics".to_owned()
}

pub fn default_filename_log() -> (name: String)
    ensures
        name@ == "xswd-relayer.log"@,
{
    "xswd-relayer.log".to_owned()
}

pub fn default_logs_path() -> (path: String)
    ensures
        path@ == "logs/"@,
{
    "logs/".to_owned()
}

pub fn default_max_frame_size() -> (size: usize)
    ensures
        size == 65536,
{
    64 * 1024
}

pub fn default_keep_alive_interval() -> (span: Duration)
    ensures
        span == whole_seconds(60),
{
    Duration::from_secs(60)
}

pub fn default_session_message_timeout() -> (span: Duration)
    ensures
        span == whole_seconds(1),
{
    Duration::from_secs(1)
}

pub fn default_channel_creation_timeout() -> (span: Duration)
    ensures
        span == whole_seconds(120),
{
    Duration::from_secs(120)
}

pub fn default_bind_address() -> (address: String)
    ensures
        address@ == "0.0.0.0:8080"@,
{
    "0.0.0.0:8080".to_owned()
}

impl Default for PrometheusConfig {
    /// Metrics are off, and would be served under the default route.
    fn default() -> (config: PrometheusConfig)
        ensures
            !config.enable,
            config.route@ == "/metrics"@,
    {
        PrometheusConfig { enable: false, route: default_prometheus_route() }
    }
}

impl Default for RelayerConfig {
    /// Every value is the one its `default_` function gives.
    fn default() -> (config: RelayerConfig)
        ensures
            config.max_frame_size == 65536,
            config.keep_alive_interval == whole_seconds(60),
            config.session_message_timeout == whole_seconds(1),
            config.channel_creation_timeout == whole_seconds(120),
            config.bind_address@ == "0.0.0.0:8080"@,
    {
        RelayerConfig {
            max_frame_size: default_max_frame_size(),
            keep_alive_interval: default_keep_alive_interval(),
            session_message_timeout: default_session_message_timeout(),
            channel_creation_timeout: default_channel_creation_timeout(),
            bind_address: default_bind_address(),
        }
    }
}

} // verus!
