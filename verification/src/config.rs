//! The dashboard's settings: where the two backends live, how often
//! to refresh, and how many log lines to ask for. Loading them from a
//! file or the environment is the host shell's business; the defaults
//! and their shape live here.

use vstd::prelude::*;

verus! {

/// The metrics backend's address and request timeout.
#[derive(Debug, Clone)]
pub struct PrometheusConfig {
    pub base_url: String,
    pub timeout_seconds: u64,
}

/// The log backend's address, request timeout and fetch window size.
#[derive(Debug, Clone)]
pub struct LokiConfig {
    pub base_url: String,
    pub timeout_seconds: u64,
    pub log_limit: u32,
}

/// How the view behaves: the refresh period and how many log lines
/// the display asks for.
#[derive(Debug, Clone)]
pub struct UiConfig {
    pub refresh_interval_seconds: u64,
    pub log_display_count: usize,
}

/// All settings together.
#[derive(Debug, Clone)]
pub struct Settings {
    pub prometheus: PrometheusConfig,
    pub loki: LokiConfig,
    pub ui: UiConfig,
}

impl Default for Settings {
    /// The built-in defaults: both backends on their conventional
    /// local ports, ten-second timeouts, a hundred log lines fetched,
    /// twenty shown, refreshed every five seconds.
    fn default() -> (s: Self)
        ensures
            s.prometheus.base_url@ == "http://localhost:9090"@,
            s.prometheus.timeout_seconds == 10,
            s.loki.base_url@ == "http://localhost:3100"@,
            s.loki.timeout_seconds == 10,
            s.loki.log_limit == 100,
            s.ui.refresh_interval_seconds == 5,
            s.ui.log_display_count == 20,
    {
        Settings {
            prometheus: PrometheusConfig {
                base_url: String::from_str("http://localhost:9090"),
                timeout_seconds: 10,
            },
            loki: LokiConfig {
                base_url: String::from_str("http://localhost:3100"),
                timeout_seconds: 10,
                log_limit: 100,
            },
            ui: UiConfig { refresh_interval_seconds: 5, log_display_count: 20 },
        }
    }
}

} // verus!
