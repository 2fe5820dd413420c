//! Runtime settings: defaults, bounds, and how the raw values of the
//! environment are read.

use vstd::prelude::*;
use crate::target::{
    has_http_scheme,
    is_http,
    parse_url,
    target_view,
    url_parse,
    TargetUrl,
    UrlParts,
};
use crate::text::{
    lowered,
    parse_u64,
    parse_usize,
    same_text,
    text_view,
    to_ascii_lowercase,
    trim,
    trimmed,
    u64_of,
    usize_of,
};

verus! {

pub const DEFAULT_PREVIEW_CACHE_TTL_SECONDS: u64 = 300;

pub const DEFAULT_PREVIEW_CACHE_MAX_ENTRIES: usize = 256;

pub const DEFAULT_PREVIEW_RESPONSE_MAX_BYTES: usize = 524_288;

pub const DEFAULT_PREVIEW_REQUEST_TIMEOUT_MS: u64 = 6_000;

pub const DEFAULT_PREVIEW_CONNECT_TIMEOUT_MS: u64 = 3_000;

pub const DEFAULT_PREVIEW_DNS_LOOKUP_TIMEOUT_MS: u64 = 2_000;

pub const DEFAULT_PREVIEW_MAX_REDIRECTS: usize = 4;

pub const DEFAULT_PREVIEW_MAX_RESOLVED_IP_ATTEMPTS: usize = 3;

pub const DEFAULT_SCREENSHOT_WORKER_TIMEOUT_MS: u64 = 8_000;

pub const DEFAULT_SCREENSHOT_TTL_SECONDS: u64 = 604_800;

pub const DEFAULT_SCREENSHOT_STALE_GRACE_SECONDS: u64 = 1_209_600;

pub const DEFAULT_SCREENSHOT_REFRESH_CONCURRENCY: usize = 3;

/// The level of a log event, and the threshold below which events are
/// dropped.
#[derive(Clone, Copy, Debug, PartialEq, Eq, Structural)]
pub enum LogLevel {
    Debug,
    Info,
}

impl LogLevel {
    /// The place of the level in the order of severity.
    pub open spec fn severity(self) -> int {
        match self {
            LogLevel::Debug => 0,
            LogLevel::Info => 1,
        }
    }

    /// The name of the level.
    pub open spec fn name(self) -> Seq<char> {
        match self {
            LogLevel::Debug => "debug"@,
            LogLevel::Info => "info"@,
        }
    }

    /// The name of the level in log events.
    pub fn as_str(self) -> (name: &'static str)
        ensures
            name@ == self.name(),
    {
        match self {
            LogLevel::Debug => "debug",
            LogLevel::Info => "info",
        }
    }

    /// Whether an event of this level is written under the threshold: it
    /// is unless it is less severe.
    pub fn is_logged_at(self, threshold: LogLevel) -> (logged: bool)
        ensures
            logged == (self.severity() >= threshold.severity()),
    {
        match (self, threshold) {
            (LogLevel::Debug, LogLevel::Info) => false,
            _ => true,
        }
    }
}

/// How much of a URL goes into log events.
#[derive(Clone, Copy, Debug, PartialEq, Eq, Structural)]
pub enum UrlLogMode {
    /// Host and port only.
    Host,
    /// The whole URL.
    Full,
}

/// The trimmed value, absent where nothing is set or only white space.
pub open spec fn non_empty(value: Option<Seq<char>>) -> Option<Seq<char>> {
    match value {
        Some(v) => if trimmed(v).len() > 0 {
            Some(trimmed(v))
        } else {
            None
        },
        None => None,
    }
}

/// The number that the value denotes once trimmed, if it lies within the
/// bounds.
pub open spec fn u64_within(value: Option<Seq<char>>, bounds: (u64, u64)) -> Option<u64> {
    match value {
        Some(v) => match u64_of(trimmed(v)) {
            Some(n) => if bounds.0 <= n <= bounds.1 {
                Some(n)
            } else {
                None
            },
            None => None,
        },
        None => None,
    }
}

/// The number that the value denotes, or the default where it denotes
/// none within the bounds.
pub open spec fn bounded_u64(value: Option<Seq<char>>, default: u64, bounds: (u64, u64)) -> u64 {
    match u64_within(value, bounds) {
        Some(n) => n,
        None => default,
    }
}

/// As `bounded_u64`, for `usize`.
pub open spec fn bounded_usize(value: Option<Seq<char>>, default: usize, bounds: (usize, usize))
    -> usize {
    match value {
        Some(v) => match usize_of(trimmed(v)) {
            Some(n) => if bounds.0 <= n <= bounds.1 {
                n
            } else {
                default
            },
            None => default,
        },
        None => default,
    }
}

/// A time limit in milliseconds: the value in milliseconds where it is
/// within the bounds; else the value in seconds times a thousand where
/// that is; else the default.
pub open spec fn timeout_ms(
    milliseconds: Option<Seq<char>>,
    seconds: Option<Seq<char>>,
    default_ms: u64,
    bounds: (u64, u64),
) -> u64 {
    match u64_within(milliseconds, bounds) {
        Some(n) => n,
        None => match seconds {
            Some(v) => match u64_of(trimmed(v)) {
                Some(s) => if bounds.0 <= s * 1000 <= bounds.1 && s * 1000 <= u64::MAX {
                    (s * 1000) as u64
                } else {
                    default_ms
                },
                None => default_ms,
            },
            None => default_ms,
        },
    }
}

/// The log level that the value names, ASCII case ignored, or the default.
pub open spec fn log_level_of(value: Option<Seq<char>>, default: LogLevel) -> LogLevel {
    match non_empty(value) {
        Some(t) => if lowered(t) == "debug"@ {
            LogLevel::Debug
        } else if lowered(t) == "info"@ {
            LogLevel::Info
        } else {
            default
        },
        None => default,
    }
}

/// The URL log mode that the value names, ASCII case ignored, or the
/// default.
pub open spec fn url_log_mode_of(value: Option<Seq<char>>, default: UrlLogMode) -> UrlLogMode {
    match non_empty(value) {
        Some(t) => if lowered(t) == "full"@ {
            UrlLogMode::Full
        } else if lowered(t) == "host"@ {
            UrlLogMode::Host
        } else {
            default
        },
        None => default,
    }
}

/// The `http` or `https` URL that the value holds.
pub open spec fn http_url_of(value: Option<Seq<char>>) -> Option<UrlParts> {
    match non_empty(value) {
        Some(t) => match url_parse(t) {
            Some(u) => if is_http(u) {
                Some(u)
            } else {
                None
            },
            None => None,
        },
        None => None,
    }
}

/// The text that the value holds, or the default.
pub open spec fn text_or(value: Option<Seq<char>>, default: Seq<char>) -> Seq<char> {
    match non_empty(value) {
        Some(t) => t,
        None => default,
    }
}

/// Trims a raw value; one that is unset or blank is absent.
pub fn parse_env_non_empty_string(value: &Option<String>) -> (text: Option<String>)
    ensures
        text_view(text) == non_empty(text_view(*value)),
{
    match value {
        Some(v) => {
            let t = trim(v.as_str());
            if t.as_str().is_empty() {
                None
            } else {
                Some(t)
            }
        },
        None => None,
    }
}

/// Reads a number within bounds, or takes the default.
pub fn parse_env_u64_with_bounds(value: &Option<String>, default: u64, bounds: (u64, u64)) -> (n:
    u64)
    ensures
        n == bounded_u64(text_view(*value), default, bounds),
{
    match value {
        Some(v) => match parse_u64(trim(v.as_str()).as_str()) {
            Some(n) => if bounds.0 <= n && n <= bounds.1 {
                n
            } else {
                default
            },
            None => default,
        },
        None => default,
    }
}

/// Reads a size within bounds, or takes the default.
pub fn parse_env_usize_with_bounds(value: &Option<String>, default: usize, bounds: (usize, usize))
    -> (n: usize)
    ensures
        n == bounded_usize(text_view(*value), default, bounds),
{
    match value {
        Some(v) => match parse_usize(trim(v.as_str()).as_str()) {
            Some(n) => if bounds.0 <= n && n <= bounds.1 {
                n
            } else {
                default
            },
            None => default,
        },
        None => default,
    }
}

/// Reads a time limit given in milliseconds or, failing that, in seconds.
pub fn parse_timeout_ms_with_legacy_seconds(
    milliseconds: &Option<String>,
    seconds: &Option<String>,
    default_ms: u64,
    bounds: (u64, u64),
) -> (ms: u64)
    ensures
        ms == timeout_ms(text_view(*milliseconds), text_view(*seconds), default_ms, bounds),
{
    match milliseconds {
        Some(v) => match parse_u64(trim(v.as_str()).as_str()) {
            Some(n) => if bounds.0 <= n && n <= bounds.1 {
                return n;
            },
            None => {},
        },
        None => {},
    }
    match seconds {
        Some(v) => match parse_u64(trim(v.as_str()).as_str()) {
            Some(s) => match s.checked_mul(1_000) {
                Some(n) => if bounds.0 <= n && n <= bounds.1 {
                    n
                } else {
                    default_ms
                },
                None => default_ms,
            },
            None => default_ms,
        },
        None => default_ms,
    }
}

/// Reads an `http` or `https` URL.
pub fn parse_env_http_url(value: &Option<String>) -> (url: Option<TargetUrl>)
    ensures
        target_view(url) == http_url_of(text_view(*value)),
{
    let text = match parse_env_non_empty_string(value) {
        Some(text) => text,
        None => {
            return None;
        },
    };
    match parse_url(text.as_str()) {
        Some(parsed) => {
            if has_http_scheme(&parsed) {
                Some(parsed)
            } else {
                None
            }
        },
        None => None,
    }
}

/// Reads a log level by name.
pub fn parse_log_level(value: &Option<String>, default: LogLevel) -> (level: LogLevel)
    ensures
        level == log_level_of(text_view(*value), default),
{
    match parse_env_non_empty_string(value) {
        Some(text) => {
            let name = to_ascii_lowercase(text.as_str());
            if same_text(name.as_str(), "debug") {
                LogLevel::Debug
            } else if same_text(name.as_str(), "info") {
                LogLevel::Info
            } else {
                default
            }
        },
        None => default,
    }
}

/// Reads a URL log mode by name.
pub fn parse_url_log_mode(value: &Option<String>, default: UrlLogMode) -> (mode: UrlLogMode)
    ensures
        mode == url_log_mode_of(text_view(*value), default),
{
    match parse_env_non_empty_string(value) {
        Some(text) => {
            let name = to_ascii_lowercase(text.as_str());
            if same_text(name.as_str(), "full") {
                UrlLogMode::Full
            } else if same_text(name.as_str(), "host") {
                UrlLogMode::Host
            } else {
                default
            }
        },
        None => default,
    }
}

/// The raw values of the environment, one field for each variable that is
/// read; `None` where the variable is not set.
#[derive(Clone, Debug)]
pub struct EnvSettings {
    pub preview_cache_ttl_seconds: Option<String>,
    pub preview_cache_max_entries: Option<String>,
    pub preview_response_max_bytes: Option<String>,
    pub preview_request_timeout_ms: Option<String>,
    pub preview_request_timeout_seconds: Option<String>,
    pub preview_connect_timeout_ms: Option<String>,
    pub preview_connect_timeout_seconds: Option<String>,
    pub preview_dns_lookup_timeout_ms: Option<String>,
    pub preview_dns_lookup_timeout_seconds: Option<String>,
    pub preview_max_redirects: Option<String>,
    pub preview_max_resolved_ip_attempts: Option<String>,
    pub screenshot_worker_url: Option<String>,
    pub screenshot_worker_timeout_ms: Option<String>,
    pub screenshot_worker_token: Option<String>,
    pub screenshot_ttl_seconds: Option<String>,
    pub screenshot_stale_grace_seconds: Option<String>,
    pub screenshot_cache_index_path: Option<String>,
    pub screenshot_refresh_token: Option<String>,
    pub screenshot_refresh_concurrency: Option<String>,
    pub screenshot_urls_config_path: Option<String>,
    pub log_level: Option<String>,
    pub log_preview_url_mode: Option<String>,
}

/// The settings that the service runs with. Time limits are in
/// milliseconds.
#[derive(Clone, Debug)]
pub struct PreviewRuntimeConfig {
    pub cache_ttl_seconds: u64,
    pub cache_max_entries: usize,
    pub response_max_bytes: usize,
    pub request_timeout_ms: u64,
    pub connect_timeout_ms: u64,
    pub dns_lookup_timeout_ms: u64,
    pub max_redirects: usize,
    pub max_resolved_ip_attempts: usize,
    pub screenshot_worker_url: Option<TargetUrl>,
    pub screenshot_worker_timeout_ms: u64,
    pub screenshot_worker_token: Option<String>,
    pub screenshot_ttl_seconds: u64,
    pub screenshot_stale_grace_seconds: u64,
    pub screenshot_cache_index_path: String,
    pub screenshot_refresh_token: Option<String>,
    pub screenshot_refresh_concurrency: usize,
    pub screenshot_refresh_urls_path: String,
    pub log_level: LogLevel,
    pub log_preview_url_mode: UrlLogMode,
}

fn path_or(value: &Option<String>, default: &str) -> (path: String)
    ensures
        path@ == text_or(text_view(*value), default@),
{
    match parse_env_non_empty_string(value) {
        Some(text) => text,
        None => default.to_owned(),
    }
}

impl PreviewRuntimeConfig {
    /// The settings that the raw values of the environment give: each
    /// number within its bounds or at its default, each time limit from
    /// its millisecond or its second variable, each text trimmed.
    pub fn from_env(env: &EnvSettings) -> (config: PreviewRuntimeConfig)
        ensures
            config.cache_ttl_seconds == bounded_u64(
                text_view(env.preview_cache_ttl_seconds),
                300,
                (1, 86_400),
            ),
            config.cache_max_entries == bounded_usize(
                text_view(env.preview_cache_max_entries),
                256,
                (1, 10_000),
            ),
            config.response_max_bytes == bounded_usize(
                text_view(env.preview_response_max_bytes),
                524_288,
                (1_024, 10_485_760),
            ),
            config.request_timeout_ms == timeout_ms(
                text_view(env.preview_request_timeout_ms),
                text_view(env.preview_request_timeout_seconds),
                6_000,
                (100, 120_000),
            ),
            config.connect_timeout_ms == timeout_ms(
                text_view(env.preview_connect_timeout_ms),
                text_view(env.preview_connect_timeout_seconds),
                3_000,
                (100, 30_000),
            ),
            config.dns_lookup_timeout_ms == timeout_ms(
                text_view(env.preview_dns_lookup_timeout_ms),
                text_view(env.preview_dns_lookup_timeout_seconds),
                2_000,
                (100, 30_000),
            ),
            config.max_redirects == bounded_usize(text_view(env.preview_max_redirects), 4, (1, 10)),
            config.max_resolved_ip_attempts == bounded_usize(
                text_view(env.preview_max_resolved_ip_attempts),
                3,
                (1, 10),
            ),
            target_view(config.screenshot_worker_url) == http_url_of(
                text_view(env.screenshot_worker_url),
            ),
            config.screenshot_worker_timeout_ms == bounded_u64(
                text_view(env.screenshot_worker_timeout_ms),
                8_000,
                (100, 120_000),
            ),
            text_view(config.screenshot_worker_token) == non_empty(
                text_view(env.screenshot_worker_token),
            ),
            config.screenshot_ttl_seconds == bounded_u64(
                text_view(env.screenshot_ttl_seconds),
                604_800,
                (60, 31_536_000),
            ),
            config.screenshot_stale_grace_seconds == bounded_u64(
                text_view(env.screenshot_stale_grace_seconds),
                1_209_600,
                (0, 31_536_000),
            ),
            config.screenshot_cache_index_path@ == text_or(
                text_view(env.screenshot_cache_index_path),
                "/tmp/preview-cache.json"@,
            ),
            text_view(config.screenshot_refresh_token) == non_empty(
                text_view(env.screenshot_refresh_token),
            ),
            config.screenshot_refresh_concurrency == bounded_usize(
                text_view(env.screenshot_refresh_concurrency),
                3,
                (2, 4),
            ),
            config.screenshot_refresh_urls_path@ == text_or(
                text_view(env.screenshot_urls_config_path),
                "config/preview-urls.json"@,
            ),
            config.log_level == log_level_of(text_view(env.log_level), LogLevel::Info),
            config.log_preview_url_mode == url_log_mode_of(
                text_view(env.log_preview_url_mode),
                UrlLogMode::Host,
            ),
    {
        PreviewRuntimeConfig {
            cache_ttl_seconds: parse_env_u64_with_bounds(
                &env.preview_cache_ttl_seconds,
                DEFAULT_PREVIEW_CACHE_TTL_SECONDS,
                (1, 86_400),
            ),
            cache_max_entries: parse_env_usize_with_bounds(
                &env.preview_cache_max_entries,
                DEFAULT_PREVIEW_CACHE_MAX_ENTRIES,
                (1, 10_000),
            ),
            response_max_bytes: parse_env_usize_with_bounds(
                &env.preview_response_max_bytes,
                DEFAULT_PREVIEW_RESPONSE_MAX_BYTES,
                (1_024, 10_485_760),
            ),
            request_timeout_ms: parse_timeout_ms_with_legacy_seconds(
                &env.preview_request_timeout_ms,
                &env.preview_request_timeout_seconds,
                DEFAULT_PREVIEW_REQUEST_TIMEOUT_MS,
                (100, 120_000),
            ),
            connect_timeout_ms: parse_timeout_ms_with_legacy_seconds(
                &env.preview_connect_timeout_ms,
                &env.preview_connect_timeout_seconds,
                DEFAULT_PREVIEW_CONNECT_TIMEOUT_MS,
                (100, 30_000),
            ),
            dns_lookup_timeout_ms: parse_timeout_ms_with_legacy_seconds(
                &env.preview_dns_lookup_timeout_ms,
                &env.preview_dns_lookup_timeout_seconds,
                DEFAULT_PREVIEW_DNS_LOOKUP_TIMEOUT_MS,
                (100, 30_000),
            ),
            max_redirects: parse_env_usize_with_bounds(
                &env.preview_max_redirects,
                DEFAULT_PREVIEW_MAX_REDIRECTS,
                (1, 10),
            ),
            max_resolved_ip_attempts: parse_env_usize_with_bounds(
                &env.preview_max_resolved_ip_attempts,
                DEFAULT_PREVIEW_MAX_RESOLVED_IP_ATTEMPTS,
                (1, 10),
            ),
            screenshot_worker_url: parse_env_http_url(&env.screenshot_worker_url),
            screenshot_worker_timeout_ms: parse_env_u64_with_bounds(
                &env.screenshot_worker_timeout_ms,
                DEFAULT_SCREENSHOT_WORKER_TIMEOUT_MS,
                (100, 120_000),
            ),
            screenshot_worker_token: parse_env_non_empty_string(&env.screenshot_worker_token),
            screenshot_ttl_seconds: parse_env_u64_with_bounds(
                &env.screenshot_ttl_seconds,
                DEFAULT_SCREENSHOT_TTL_SECONDS,
                (60, 31_536_000),
            ),
            screenshot_stale_grace_seconds: parse_env_u64_with_bounds(
                &env.screenshot_stale_grace_seconds,
                DEFAULT_SCREENSHOT_STALE_GRACE_SECONDS,
                (0, 31_536_000),
            ),
            screenshot_cache_index_path: path_or(
                &env.screenshot_cache_index_path,
                "/tmp/preview-cache.json",
            ),
            screenshot_refresh_token: parse_env_non_empty_string(&env.screenshot_refresh_token),
            screenshot_refresh_concurrency: parse_env_usize_with_bounds(
                &env.screenshot_refresh_concurrency,
                DEFAULT_SCREENSHOT_REFRESH_CONCURRENCY,
                (2, 4),
            ),
            screenshot_refresh_urls_path: path_or(
                &env.screenshot_urls_config_path,
                "config/preview-urls.json",
            ),
            log_level: parse_log_level(&env.log_level, LogLevel::Info),
            log_preview_url_mode: parse_url_log_mode(&env.log_preview_url_mode, UrlLogMode::Host),
        }
    }
}

} // verus!
