//! The gatekeeper's settings, their defaults, and how the environment
//! overrides them.

use vstd::prelude::*;
use crate::text::{decimal_value, find_value, first_value, is_decimal, pairs_of, parse_decimal};

verus! {

/// The settings of one gatekeeper process.
#[derive(Clone, Debug, PartialEq, Eq)]
pub struct Config {
    /// Filesystem root of the cache entries.
    pub cache_root: String,
    /// The scheduling gate this system owns.
    pub gate_name: String,
    /// The annotation that names the dataset a workload needs.
    pub annotation_key: String,
    /// The node to fetch to when a workload has none assigned.
    pub fallback_node: String,
    /// How long a fetch may be polled before it counts as failed, in seconds.
    pub fetch_timeout_secs: u64,
    /// Object-store endpoint handed to the downloader, if any.
    pub s3_endpoint: Option<String>,
    /// Bind address of the metrics endpoint.
    pub metrics_addr: String,
    /// The namespace whose workloads are watched.
    pub namespace: String,
    /// How long a dataset whose fetch failed is left alone, in seconds.
    pub failure_cooldown_secs: u64,
}

/// The settings as a mathematical value.
pub struct ConfigView {
    pub cache_root: Seq<char>,
    pub gate_name: Seq<char>,
    pub annotation_key: Seq<char>,
    pub fallback_node: Seq<char>,
    pub fetch_timeout_secs: u64,
    pub s3_endpoint: Option<Seq<char>>,
    pub metrics_addr: Seq<char>,
    pub namespace: Seq<char>,
    pub failure_cooldown_secs: u64,
}

impl View for Config {
    type V = ConfigView;

    open spec fn view(&self) -> ConfigView {
        ConfigView {
            cache_root: self.cache_root@,
            gate_name: self.gate_name@,
            annotation_key: self.annotation_key@,
            fallback_node: self.fallback_node@,
            fetch_timeout_secs: self.fetch_timeout_secs,
            s3_endpoint: match self.s3_endpoint {
                Some(e) => Some(e@),
                None => None,
            },
            metrics_addr: self.metrics_addr@,
            namespace: self.namespace@,
            failure_cooldown_secs: self.failure_cooldown_secs,
        }
    }
}

/// How long a fetch may be polled by default: thirty minutes.
pub const DEFAULT_FETCH_TIMEOUT_SECS: u64 = 1800;

/// How long a dataset whose fetch failed is left alone by default: thirty
/// seconds, the longest a retry ever backs off.
pub const DEFAULT_FAILURE_COOLDOWN_SECS: u64 = 30;

/// The settings of a process whose environment overrides nothing.
pub open spec fn default_config() -> ConfigView {
    ConfigView {
        cache_root: "/var/cache/kube-cache"@,
        gate_name: "kube-cache.openai.com/gate"@,
        annotation_key: "x-openai/required-dataset"@,
        fallback_node: "kind-worker"@,
        fetch_timeout_secs: 1800,
        s3_endpoint: None,
        metrics_addr: ":8080"@,
        namespace: "default"@,
        failure_cooldown_secs: 30,
    }
}

/// The default settings with the cache under `/tmp`, for simulation.
pub open spec fn simulation_config() -> ConfigView {
    ConfigView { cache_root: "/tmp"@, ..default_config() }
}

/// A setting that could not be read.
#[derive(Clone, Debug, PartialEq, Eq)]
pub enum ConfigError {
    /// `FETCH_TIMEOUT_SECS` is not a decimal number of seconds that fits in 64 bits.
    InvalidFetchTimeout { value: String },
}

/// `value` if the environment sets it, `fallback` otherwise.
pub open spec fn or_default(value: Option<Seq<char>>, fallback: Seq<char>) -> Seq<char> {
    match value {
        Some(v) => v,
        None => fallback,
    }
}

/// Whether the environment's fetch timeout, if it sets one, can be read.
pub open spec fn timeout_readable(vars: Seq<(Seq<char>, Seq<char>)>) -> bool {
    match first_value(vars, "FETCH_TIMEOUT_SECS"@) {
        Some(v) => is_decimal(v) && decimal_value(v) <= u64::MAX,
        None => true,
    }
}

/// The settings that an environment asks for over the settings `base`,
/// where they can be read: each variable that is set overrides its setting.
pub open spec fn configured_over(vars: Seq<(Seq<char>, Seq<char>)>, base: ConfigView) -> ConfigView {
    ConfigView {
        cache_root: or_default(first_value(vars, "CACHE_ROOT"@), base.cache_root),
        gate_name: or_default(first_value(vars, "GATE_NAME"@), base.gate_name),
        annotation_key: or_default(first_value(vars, "ANNOTATION_KEY"@), base.annotation_key),
        fallback_node: or_default(first_value(vars, "FALLBACK_NODE"@), base.fallback_node),
        fetch_timeout_secs: match first_value(vars, "FETCH_TIMEOUT_SECS"@) {
            Some(v) => decimal_value(v) as u64,
            None => base.fetch_timeout_secs,
        },
        s3_endpoint: match first_value(vars, "S3_ENDPOINT"@) {
            Some(v) => Some(v),
            None => base.s3_endpoint,
        },
        metrics_addr: or_default(first_value(vars, "METRICS_ADDR"@), base.metrics_addr),
        namespace: base.namespace,
        failure_cooldown_secs: base.failure_cooldown_secs,
    }
}

/// The settings that an environment asks for over the defaults.
pub open spec fn configured(vars: Seq<(Seq<char>, Seq<char>)>) -> ConfigView {
    configured_over(vars, default_config())
}

fn text_setting(vars: &Vec<(String, String)>, name: &str, fallback: String) -> (r: String)
    ensures
        r@ == or_default(first_value(pairs_of(vars@), name@), fallback@),
{
    match find_value(vars, name) {
        Some(v) => v.clone(),
        None => fallback,
    }
}

/// The socket address that a bind address stands for: an address that gives
/// only a port, such as `:8080`, binds that port on every interface.
pub open spec fn socket_address_of(addr: Seq<char>) -> Seq<char> {
    if addr.len() > 0 && addr[0] == ':' {
        "0.0.0.0"@ + addr
    } else {
        addr
    }
}

impl Config {
    /// The socket address to bind the metrics endpoint to.
    pub fn metrics_socket_address(&self) -> (addr: String)
        ensures
            addr@ == socket_address_of(self@.metrics_addr),
    {
        let port_only = self.metrics_addr.as_str().unicode_len() > 0
            && self.metrics_addr.as_str().get_char(0) == ':';
        if port_only {
            "0.0.0.0".to_owned().concat(self.metrics_addr.as_str())
        } else {
            self.metrics_addr.clone()
        }
    }

    /// The default settings.
    pub fn new() -> (c: Config)
        ensures
            c@ == default_config(),
    {
        Config {
            cache_root: "/var/cache/kube-cache".to_owned(),
            gate_name: "kube-cache.openai.com/gate".to_owned(),
            annotation_key: "x-openai/required-dataset".to_owned(),
            fallback_node: "kind-worker".to_owned(),
            fetch_timeout_secs: DEFAULT_FETCH_TIMEOUT_SECS,
            s3_endpoint: None,
            metrics_addr: ":8080".to_owned(),
            namespace: "default".to_owned(),
            failure_cooldown_secs: DEFAULT_FAILURE_COOLDOWN_SECS,
        }
    }

    /// The default settings with the cache under `/tmp`.
    pub fn simulation() -> (c: Config)
        ensures
            c@ == simulation_config(),
    {
        let mut c = Config::new();
        c.cache_root = "/tmp".to_owned();
        c
    }

    /// The settings that the environment `vars` asks for over the settings
    /// `base`: each variable that is set overrides its setting. The only
    /// setting that can be unreadable is the fetch timeout.
    pub fn from_env_over(vars: &Vec<(String, String)>, base: Config) -> (r: Result<
        Config,
        ConfigError,
    >)
        ensures
            match r {
                Ok(c) => timeout_readable(pairs_of(vars@)) && c@ == configured_over(
                    pairs_of(vars@),
                    base@,
                ),
                Err(ConfigError::InvalidFetchTimeout { value }) => !timeout_readable(
                    pairs_of(vars@),
                ) && first_value(pairs_of(vars@), "FETCH_TIMEOUT_SECS"@) == Some(value@),
            },
    {
        let fetch_timeout_secs = match find_value(vars, "FETCH_TIMEOUT_SECS") {
            Some(v) => match parse_decimal(v.as_str()) {
                Some(n) => n,
                None => {
                    return Err(ConfigError::InvalidFetchTimeout { value: v.clone() });
                },
            },
            None => base.fetch_timeout_secs,
        };
        let s3_endpoint = match find_value(vars, "S3_ENDPOINT") {
            Some(v) => Some(v.clone()),
            None => base.s3_endpoint,
        };
        Ok(
            Config {
                cache_root: text_setting(vars, "CACHE_ROOT", base.cache_root),
                gate_name: text_setting(vars, "GATE_NAME", base.gate_name),
                annotation_key: text_setting(vars, "ANNOTATION_KEY", base.annotation_key),
                fallback_node: text_setting(vars, "FALLBACK_NODE", base.fallback_node),
                fetch_timeout_secs,
                s3_endpoint,
                metrics_addr: text_setting(vars, "METRICS_ADDR", base.metrics_addr),
                namespace: base.namespace,
                failure_cooldown_secs: base.failure_cooldown_secs,
            },
        )
    }

    /// The settings that the environment `vars` asks for over the defaults.
    pub fn from_env(vars: &Vec<(String, String)>) -> (r: Result<Config, ConfigError>)
        ensures
            match r {
                Ok(c) => timeout_readable(pairs_of(vars@)) && c@ == configured(pairs_of(vars@)),
                Err(ConfigError::InvalidFetchTimeout { value }) => !timeout_readable(
                    pairs_of(vars@),
                ) && first_value(pairs_of(vars@), "FETCH_TIMEOUT_SECS"@) == Some(value@),
            },
    {
        Config::from_env_over(vars, Config::new())
    }
}

} // verus!
