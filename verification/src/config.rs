//! Exporter configuration: recognized options, defaults, and validation.
//!
//! Construction is the only place configuration errors can surface; after
//! a `Config` exists it is immutable and well-formed.

use vstd::prelude::*;

verus! {

/// What the queue does with an incoming span when it is full.
#[derive(Clone, Copy, Debug, PartialEq, Eq, Structural)]
pub enum OverflowPolicy {
    /// Refuse the span; the caller may wait (up to the timeout) and retry.
    /// The span stays with the caller and is never counted as dropped here.
    Block { timeout_ms: u64 },
    /// Evict the oldest queued span to make room; the evicted span is
    /// counted as dropped.
    DropOldest,
    /// Discard the incoming span (the newest of all); it is counted as
    /// dropped.
    DropNewest,
    /// Refuse the span; the caller keeps it and it is not counted here.
    Reject,
}

/// Exponential backoff parameters for retrying a failed delivery.
#[derive(Clone, Copy, Debug, PartialEq, Eq, Structural)]
pub struct RetryConfig {
    /// Delay before the second attempt, in milliseconds.
    pub base_delay_ms: u64,
    /// Factor applied to the delay after each failed attempt; at least 1.
    pub multiplier: u64,
    /// Upper bound on any single delay, in milliseconds.
    pub max_delay_ms: u64,
    /// Total number of delivery attempts per batch; at least 1.
    pub max_attempts: u32,
}

/// Why construction was refused.
#[derive(Clone, Copy, Debug, PartialEq, Eq, Structural)]
pub enum ConfigError {
    /// No service name was supplied; it is the one required option.
    MissingServiceName,
    /// A batch size of zero was supplied.
    InvalidBatchSize,
    /// A queue capacity of zero was supplied.
    InvalidCapacity,
    /// A retry configuration with zero attempts or a multiplier below 1
    /// was supplied.
    InvalidRetry,
}

pub const DEFAULT_AGENT_PORT: u16 = 8126;
pub const DEFAULT_MAX_BATCH_SIZE: usize = 512;
pub const DEFAULT_FLUSH_INTERVAL_MS: u64 = 5000;
pub const DEFAULT_QUEUE_CAPACITY: usize = 2048;
pub const DEFAULT_BASE_DELAY_MS: u64 = 200;
pub const DEFAULT_MULTIPLIER: u64 = 2;
pub const DEFAULT_MAX_DELAY_MS: u64 = 10000;
pub const DEFAULT_MAX_ATTEMPTS: u32 = 5;
pub const DEFAULT_SHUTDOWN_GRACE_MS: u64 = 5000;

/// The options a host process may supply; every `None` falls back to a
/// documented default, except the service name, which is required.
pub struct ConfigOptions {
    pub service_name: Option<String>,
    pub agent_host: Option<String>,
    pub agent_port: Option<u16>,
    pub max_batch_size: Option<usize>,
    pub flush_interval_ms: Option<u64>,
    pub queue_capacity: Option<usize>,
    pub overflow_policy: Option<OverflowPolicy>,
    pub retry: Option<RetryConfig>,
    pub shutdown_grace_ms: Option<u64>,
}

/// Validated, immutable configuration of an exporter.
pub struct Config {
    pub service_name: String,
    pub agent_host: String,
    pub agent_port: u16,
    pub max_batch_size: usize,
    pub flush_interval_ms: u64,
    pub queue_capacity: usize,
    pub overflow_policy: OverflowPolicy,
    pub retry: RetryConfig,
    pub shutdown_grace_ms: u64,
}

impl RetryConfig {
    /// A retry configuration makes sense when at least one attempt is made
    /// and the delay never shrinks.
    pub open spec fn wf(self) -> bool {
        &&& self.max_attempts >= 1
        &&& self.multiplier >= 1
    }
}

impl Config {
    /// Every constructed `Config` satisfies this.
    pub open spec fn wf(self) -> bool {
        &&& self.max_batch_size >= 1
        &&& self.queue_capacity >= 1
        &&& self.retry.wf()
    }
}

pub open spec fn default_retry() -> RetryConfig {
    RetryConfig {
        base_delay_ms: DEFAULT_BASE_DELAY_MS,
        multiplier: DEFAULT_MULTIPLIER,
        max_delay_ms: DEFAULT_MAX_DELAY_MS,
        max_attempts: DEFAULT_MAX_ATTEMPTS,
    }
}

/// Whether a set of options passes validation.
pub open spec fn options_valid(opts: ConfigOptions) -> bool {
    &&& opts.service_name is Some
    &&& !(opts.max_batch_size matches Some(b) && b == 0)
    &&& !(opts.queue_capacity matches Some(c) && c == 0)
    &&& !(opts.retry matches Some(r) && !r.wf())
}

impl Config {
    /// Builds a configuration from host-supplied options, filling defaults.
    ///
    /// The service name is the only required option; an absent or invalid
    /// option is reported by the matching `ConfigError`, and nothing is
    /// constructed.
    pub fn from_options(opts: ConfigOptions) -> (r: Result<Config, ConfigError>)
        ensures
            r is Ok <==> options_valid(opts),
            r matches Err(e) ==> (e is MissingServiceName <==> opts.service_name is None),
            r matches Err(e) && e is InvalidBatchSize ==> opts.max_batch_size == Some(0usize),
            r matches Err(e) && e is InvalidCapacity ==> opts.queue_capacity == Some(0usize),
            r matches Err(e) && e is InvalidRetry ==> (opts.retry matches Some(rc) && !rc.wf()),
            r matches Ok(c) ==> {
                &&& c.wf()
                &&& opts.service_name matches Some(n) && c.service_name == n
                &&& (opts.agent_host matches Some(h) ==> c.agent_host == h)
                &&& (opts.agent_host is None ==> c.agent_host@ == "localhost"@)
                &&& c.agent_port == opts.agent_port.unwrap_or(DEFAULT_AGENT_PORT)
                &&& c.max_batch_size == opts.max_batch_size.unwrap_or(DEFAULT_MAX_BATCH_SIZE)
                &&& c.flush_interval_ms == opts.flush_interval_ms.unwrap_or(
                    DEFAULT_FLUSH_INTERVAL_MS,
                )
                &&& c.queue_capacity == opts.queue_capacity.unwrap_or(DEFAULT_QUEUE_CAPACITY)
                &&& c.overflow_policy == opts.overflow_policy.unwrap_or(
                    OverflowPolicy::DropOldest,
                )
                &&& c.retry == opts.retry.unwrap_or(default_retry())
                &&& c.shutdown_grace_ms == opts.shutdown_grace_ms.unwrap_or(
                    DEFAULT_SHUTDOWN_GRACE_MS,
                )
            },
    {
        let service_name = match opts.service_name {
            Some(n) => n,
            None => {
                return Err(ConfigError::MissingServiceName);
            },
        };
        let max_batch_size = match opts.max_batch_size {
            Some(b) => {
                if b == 0 {
                    return Err(ConfigError::InvalidBatchSize);
                }
                b
            },
            None => DEFAULT_MAX_BATCH_SIZE,
        };
        let queue_capacity = match opts.queue_capacity {
            Some(c) => {
                if c == 0 {
                    return Err(ConfigError::InvalidCapacity);
                }
                c
            },
            None => DEFAULT_QUEUE_CAPACITY,
        };
        let retry = match opts.retry {
            Some(rc) => {
                if rc.max_attempts == 0 || rc.multiplier == 0 {
                    return Err(ConfigError::InvalidRetry);
                }
                rc
            },
            None => RetryConfig {
                base_delay_ms: DEFAULT_BASE_DELAY_MS,
                multiplier: DEFAULT_MULTIPLIER,
                max_delay_ms: DEFAULT_MAX_DELAY_MS,
                max_attempts: DEFAULT_MAX_ATTEMPTS,
            },
        };
        let agent_host = match opts.agent_host {
            Some(h) => h,
            None => "localhost".to_string(),
        };
        let agent_port = match opts.agent_port {
            Some(p) => p,
            None => DEFAULT_AGENT_PORT,
        };
        let flush_interval_ms = match opts.flush_interval_ms {
            Some(f) => f,
            None => DEFAULT_FLUSH_INTERVAL_MS,
        };
        let overflow_policy = match opts.overflow_policy {
            Some(p) => p,
            None => OverflowPolicy::DropOldest,
        };
        let shutdown_grace_ms = match opts.shutdown_grace_ms {
            Some(g) => g,
            None => DEFAULT_SHUTDOWN_GRACE_MS,
        };
        Ok(
            Config {
                service_name,
                agent_host,
                agent_port,
                max_batch_size,
                flush_interval_ms,
                queue_capacity,
                overflow_policy,
                retry,
                shutdown_grace_ms,
            },
        )
    }
}

/// Whether `b` is an ASCII decimal digit.
pub open spec fn is_ascii_digit(b: u8) -> bool {
    48 <= b <= 57
}

/// Whether every byte of `s` is an ASCII decimal digit.
pub open spec fn all_digits(s: Seq<u8>) -> bool {
    forall|i: int| 0 <= i < s.len() ==> is_ascii_digit(s[i])
}

/// The number the ASCII digits of `s` spell, most significant first.
pub open spec fn digits_value(s: Seq<u8>) -> int
    decreases s.len(),
{
    if s.len() == 0 {
        0
    } else {
        digits_value(s.drop_last()) * 10 + (s.last() - 48)
    }
}

proof fn lemma_digits_value_nonneg(s: Seq<u8>)
    requires
        all_digits(s),
    ensures
        digits_value(s) >= 0,
    decreases s.len(),
{
    if s.len() > 0 {
        assert(all_digits(s.drop_last()));
        lemma_digits_value_nonneg(s.drop_last());
    }
}

/// For an all-digit string, every prefix spells at most the whole value.
proof fn lemma_prefix_value_le(s: Seq<u8>, j: int)
    requires
        all_digits(s),
        0 <= j <= s.len(),
    ensures
        digits_value(s.take(j)) <= digits_value(s),
    decreases s.len() - j,
{
    if j == s.len() {
        assert(s.take(j) =~= s);
    } else {
        let t = s.take(j + 1);
        assert(t.drop_last() =~= s.take(j));
        assert(t.last() == s[j]);
        assert(all_digits(s.take(j)));
        lemma_digits_value_nonneg(s.take(j));
        assert(digits_value(t) == digits_value(s.take(j)) * 10 + (s[j] - 48));
        lemma_prefix_value_le(s, j + 1);
    }
}

/// Parses an ASCII decimal port number, as a host supplies it in an
/// environment variable. Succeeds exactly on non-empty all-digit input
/// whose value fits a port; a caller falls back to
/// `DEFAULT_AGENT_PORT` on `None`.
pub fn parse_port(s: &[u8]) -> (r: Option<u16>)
    ensures
        r is Some <==> s@.len() > 0 && all_digits(s@) && digits_value(s@) <= u16::MAX,
        r matches Some(v) ==> v == digits_value(s@),
{
    if s.len() == 0 {
        return None;
    }
    let mut acc: u32 = 0;
    let mut i: usize = 0;
    while i < s.len()
        invariant
            0 <= i <= s@.len(),
            all_digits(s@.take(i as int)),
            acc <= u16::MAX,
            acc == digits_value(s@.take(i as int)),
        decreases s@.len() - i,
    {
        let b = s[i];
        if b < 48 || b > 57 {
            assert(!is_ascii_digit(s@[i as int]));
            return None;
        }
        let acc2: u32 = acc * 10 + (b - 48) as u32;
        proof {
            assert(s@.take(i + 1).drop_last() =~= s@.take(i as int));
            assert(s@.take(i + 1).last() == s@[i as int]);
            assert(all_digits(s@.take(i + 1)));
        }
        if acc2 > u16::MAX as u32 {
            proof {
                if all_digits(s@) {
                    lemma_prefix_value_le(s@, i + 1);
                }
            }
            return None;
        }
        acc = acc2;
        i = i + 1;
    }
    proof {
        assert(s@.take(i as int) =~= s@);
    }
    Some(acc as u16)
}

} // verus!
