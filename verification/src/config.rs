use core::time::Duration;
use vstd::prelude::*;
use vstd::string::*;

verus! {

/// What `Duration::from_secs` returns for `secs`.
pub uninterp spec fn duration_from_secs(secs: u64) -> Duration;

/// `Duration::from_secs` is a function of its argument alone: the duration of `secs`
/// whole seconds.
pub assume_specification[ core::time::Duration::from_secs ](secs: u64) -> (d: Duration)
    ensures
        d == duration_from_secs(secs),
;

/// Text that a configuration setting can be built from.
pub trait IntoConfigString {
    /// The characters of the text.
    spec fn text(&self) -> Seq<char>;

    /// Turns the text into an owned `String` with the same characters.
    fn into_config_string(self) -> (s: String)
        ensures
            s@ == self.text(),
    ;
}

impl<'a> IntoConfigString for &'a str {
    open spec fn text(&self) -> Seq<char> {
        (*self)@
    }

    fn into_config_string(self) -> (s: String) {
        String::from_str(self)
    }
}

impl<'a> IntoConfigString for &'a String {
    open spec fn text(&self) -> Seq<char> {
        (*self)@
    }

    fn into_config_string(self) -> (s: String) {
        self.clone()
    }
}

impl IntoConfigString for String {
    open spec fn text(&self) -> Seq<char> {
        self@
    }

    fn into_config_string(self) -> (s: String) {
        self
    }
}

/// Configuration for the token enforcer. `S` is the type of the optional flush sink.
pub struct Config<S> {
    /// Redis connection URL. Default: "redis://127.0.0.1:6379"
    pub redis_url: String,
    /// How often the background task flushes usage events to the sink.
    /// Default: 30 seconds
    pub flush_interval: Duration,
    /// Redis key prefix to namespace all keys.
    /// Default: "te" (keys will look like "te:budget:tenant_123")
    pub key_prefix: String,
    /// Maximum Redis connection pool size.
    /// Default: 10
    pub pool_size: usize,
    /// Optional sink for persisting usage events outside Redis.
    /// If None, events are collected in memory until the flush interval, then discarded.
    pub sink: Option<S>,
}

impl<S> Default for Config<S> {
    /// Creates a new `Config` with the default settings.
    fn default() -> (c: Self)
        ensures
            c.redis_url@ == "redis://127.0.0.1:6379"@,
            c.flush_interval == duration_from_secs(30),
            c.key_prefix@ == "te"@,
            c.pool_size == 10,
            c.sink is None,
    {
        Config {
            redis_url: String::from_str("redis://127.0.0.1:6379"),
            flush_interval: Duration::from_secs(30),
            key_prefix: String::from_str("te"),
            pool_size: 10,
            sink: None,
        }
    }
}

impl<S> Config<S> {
    /// Sets the Redis URL; the other settings stay as they were.
    pub fn with_redis_url<U: IntoConfigString>(self, url: U) -> (c: Self)
        ensures
            c.redis_url@ == url.text(),
            c.flush_interval == self.flush_interval,
            c.key_prefix == self.key_prefix,
            c.pool_size == self.pool_size,
            c.sink == self.sink,
    {
        Config { redis_url: url.into_config_string(), ..self }
    }

    /// Sets the flush interval; the other settings stay as they were.
    pub fn with_flush_interval(self, interval: Duration) -> (c: Self)
        ensures
            c == (Config { flush_interval: interval, ..self }),
    {
        Config { flush_interval: interval, ..self }
    }

    /// Sets the Redis key prefix; the other settings stay as they were.
    pub fn with_key_prefix<U: IntoConfigString>(self, prefix: U) -> (c: Self)
        ensures
            c.key_prefix@ == prefix.text(),
            c.redis_url == self.redis_url,
            c.flush_interval == self.flush_interval,
            c.pool_size == self.pool_size,
            c.sink == self.sink,
    {
        Config { key_prefix: prefix.into_config_string(), ..self }
    }

    /// Sets the Redis pool size; the other settings stay as they were.
    pub fn with_pool_size(self, size: usize) -> (c: Self)
        ensures
            c == (Config { pool_size: size, ..self }),
    {
        Config { pool_size: size, ..self }
    }

    /// Sets the flush sink; the other settings stay as they were.
    pub fn with_sink(self, sink: S) -> (c: Self)
        ensures
            c == (Config { sink: Some(sink), ..self }),
    {
        Config { sink: Some(sink), ..self }
    }
}

} // verus!
