//! Process-wide settings: the defaults every derived configuration starts
//! from, and an optional static list of namespaces to watch.
use vstd::prelude::*;

verus! {

/// The proxy image used when no settings are supplied.
pub const DEFAULT_IMAGE: &'static str = "ghcr.io/fluktuid/sero.rs:latest";

#[derive(Clone, Debug)]
pub struct Settings {
    pub namespaces: Vec<String>,
    pub default_config: DefaultSeroConfig,
}

#[derive(Clone, Debug)]
pub struct DefaultSeroConfig {
    pub image: String,
    pub inject: bool,
    pub protocol: String,
    pub port: i64,
    pub timeout: Timeout,
}

#[derive(Clone, Copy, Debug, PartialEq, Eq, Structural)]
pub struct Timeout {
    pub forward_ms: i64,
    pub scale_up_ms: i64,
    pub scale_down_ms: i64,
}

impl Default for Settings {
    /// No static namespaces; the published proxy image, injection on, TCP on
    /// port 80, and timeouts of 2000, 7000 and 7000 milliseconds.
    fn default() -> (r: Settings)
        ensures
            r.namespaces@.len() == 0,
            r.default_config.image@ == DEFAULT_IMAGE@,
            r.default_config.inject,
            r.default_config.protocol@ == "TCP"@,
            r.default_config.port == 80,
            r.default_config.timeout == (Timeout {
                forward_ms: 2000,
                scale_up_ms: 7000,
                scale_down_ms: 7000,
            }),
    {
        Settings {
            namespaces: Vec::new(),
            default_config: DefaultSeroConfig {
                image: String::from_str(DEFAULT_IMAGE),
                inject: true,
                protocol: String::from_str("TCP"),
                port: 80,
                timeout: Timeout { forward_ms: 2000, scale_up_ms: 7000, scale_down_ms: 7000 },
            },
        }
    }
}

} // verus!
