//! Configuration: turning raw environment settings into validated values.
//!
//! The unverified rim reads the process environment once at startup and hands
//! the raw strings here; everything after that point is checked.

use vstd::prelude::*;

use crate::strutil::{all_digits, digits_val, parse_u64};

verus! {

/// A configuration failure.
#[derive(Debug)]
pub enum ConfigError {
    MissingVar(String),
}

impl ConfigError {
    /// The human-readable description of the failure.
    pub fn message(&self) -> (r: String)
        ensures
            match self {
                ConfigError::MissingVar(v) => r@ == "Missing required environment variable: "@
                    + v@,
            },
    {
        match self {
            ConfigError::MissingVar(v) => {
                let mut s = String::new();
                s.append("Missing required environment variable: ");
                s.append(v.as_str());
                s
            },
        }
    }
}

/// The port a raw setting denotes, or the default where the setting is
/// absent, not a number, or out of port range.
pub open spec fn port_spec(raw: Option<Seq<char>>, default: u16) -> int {
    match raw {
        Some(s) => if s.len() > 0 && all_digits(s) && digits_val(s) <= u16::MAX {
            digits_val(s)
        } else {
            default as int
        },
        None => default as int,
    }
}

/// Parses one port setting against its default.
fn resolve_port(raw: Option<&str>, default: u16) -> (r: u16)
    ensures
        r == port_spec(
            match raw {
                Some(s) => Some(s@),
                None => None,
            },
            default,
        ),
{
    match raw {
        Some(s) => match parse_u64(s) {
            Some(v) => if v <= u16::MAX as u64 {
                v as u16
            } else {
                default
            },
            None => default,
        },
        None => default,
    }
}

/// The ingress controller's configuration.
#[derive(Clone, Copy, Debug)]
pub struct Config {
    pub webhook_port: u16,
    pub metrics_port: u16,
}

impl Config {
    /// Resolves the controller configuration from the raw `WEBHOOK_PORT` and
    /// `METRICS_PORT` settings: a missing or malformed port falls back to
    /// 8080 and 9090 respectively.
    pub fn resolve(webhook_port: Option<&str>, metrics_port: Option<&str>) -> (r: Config)
        ensures
            r.webhook_port == port_spec(
                match webhook_port {
                    Some(s) => Some(s@),
                    None => None,
                },
                8080,
            ),
            r.metrics_port == port_spec(
                match metrics_port {
                    Some(s) => Some(s@),
                    None => None,
                },
                9090,
            ),
    {
        Config {
            webhook_port: resolve_port(webhook_port, 8080),
            metrics_port: resolve_port(metrics_port, 9090),
        }
    }
}

/// The node observer's configuration.
#[derive(Clone, Debug)]
pub struct ObserverConfig {
    pub webhook_url: String,
    pub namespace: String,
    pub configmap_name: String,
    pub log_level: String,
}

/// A raw setting, or its default where absent.
fn setting_or(raw: Option<&str>, default: &str) -> (r: String)
    ensures
        match raw {
            Some(s) => r@ == s@,
            None => r@ == default@,
        },
{
    match raw {
        Some(s) => s.to_owned(),
        None => default.to_owned(),
    }
}

impl ObserverConfig {
    /// Resolves the observer configuration from the raw `WEBHOOK_URL`,
    /// `NAMESPACE`, `CONFIGMAP_NAME` and `RUST_LOG` settings, with the
    /// deployment's defaults for any that are absent.
    pub fn resolve(
        webhook_url: Option<&str>,
        namespace: Option<&str>,
        configmap_name: Option<&str>,
        log_level: Option<&str>,
    ) -> (r: ObserverConfig)
        ensures
            match webhook_url {
                Some(s) => r.webhook_url@ == s@,
                None => r.webhook_url@
                    == "http://kernel-gossip-operator.kernel-gossip.svc.cluster.local:8080/webhook/pixie"@,
            },
            match namespace {
                Some(s) => r.namespace@ == s@,
                None => r.namespace@ == "kernel-gossip"@,
            },
            match configmap_name {
                Some(s) => r.configmap_name@ == s@,
                None => r.configmap_name@ == "ebpf-monitored-pods"@,
            },
            match log_level {
                Some(s) => r.log_level@ == s@,
                None => r.log_level@ == "info"@,
            },
    {
        ObserverConfig {
            webhook_url: setting_or(
                webhook_url,
                "http://kernel-gossip-operator.kernel-gossip.svc.cluster.local:8080/webhook/pixie",
            ),
            namespace: setting_or(namespace, "kernel-gossip"),
            configmap_name: setting_or(configmap_name, "ebpf-monitored-pods"),
            log_level: setting_or(log_level, "info"),
        }
    }
}

} // verus!
