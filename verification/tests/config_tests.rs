use span_exporter::config::{
    Config, ConfigError, ConfigOptions, OverflowPolicy, RetryConfig, DEFAULT_AGENT_PORT,
    DEFAULT_FLUSH_INTERVAL_MS, DEFAULT_MAX_ATTEMPTS, DEFAULT_MAX_BATCH_SIZE,
    DEFAULT_QUEUE_CAPACITY, DEFAULT_SHUTDOWN_GRACE_MS,
};

fn empty_options() -> ConfigOptions {
    ConfigOptions {
        service_name: None,
        agent_host: None,
        agent_port: None,
        max_batch_size: None,
        flush_interval_ms: None,
        queue_capacity: None,
        overflow_policy: None,
        retry: None,
        shutdown_grace_ms: None,
    }
}

fn named_options() -> ConfigOptions {
    let mut opts = empty_options();
    opts.service_name = Some(String::from("checkout"));
    opts
}

#[test]
fn service_name_is_required() {
    let r = Config::from_options(empty_options());
    assert!(matches!(r, Err(ConfigError::MissingServiceName)));
}

#[test]
fn defaults_fill_every_absent_option() {
    let c = Config::from_options(named_options()).unwrap();
    assert_eq!(c.service_name, "checkout");
    assert_eq!(c.agent_host, "localhost");
    assert_eq!(c.agent_port, DEFAULT_AGENT_PORT);
    assert_eq!(c.agent_port, 8126);
    assert_eq!(c.max_batch_size, DEFAULT_MAX_BATCH_SIZE);
    assert_eq!(c.max_batch_size, 512);
    assert_eq!(c.flush_interval_ms, DEFAULT_FLUSH_INTERVAL_MS);
    assert_eq!(c.flush_interval_ms, 5000);
    assert_eq!(c.queue_capacity, DEFAULT_QUEUE_CAPACITY);
    assert_eq!(c.queue_capacity, 2048);
    assert_eq!(c.overflow_policy, OverflowPolicy::DropOldest);
    assert_eq!(c.retry.max_attempts, DEFAULT_MAX_ATTEMPTS);
    assert_eq!(c.shutdown_grace_ms, DEFAULT_SHUTDOWN_GRACE_MS);
}

#[test]
fn supplied_options_are_taken_verbatim() {
    let mut opts = named_options();
    opts.agent_host = Some(String::from("agent.internal"));
    opts.agent_port = Some(9126);
    opts.max_batch_size = Some(64);
    opts.flush_interval_ms = Some(250);
    opts.queue_capacity = Some(16);
    opts.overflow_policy = Some(OverflowPolicy::Reject);
    opts.retry = Some(RetryConfig {
        base_delay_ms: 10,
        multiplier: 3,
        max_delay_ms: 90,
        max_attempts: 2,
    });
    opts.shutdown_grace_ms = Some(1234);
    let c = Config::from_options(opts).unwrap();
    assert_eq!(c.agent_host, "agent.internal");
    assert_eq!(c.agent_port, 9126);
    assert_eq!(c.max_batch_size, 64);
    assert_eq!(c.flush_interval_ms, 250);
    assert_eq!(c.queue_capacity, 16);
    assert_eq!(c.overflow_policy, OverflowPolicy::Reject);
    assert_eq!(c.retry.multiplier, 3);
    assert_eq!(c.shutdown_grace_ms, 1234);
}

#[test]
fn zero_batch_size_is_refused() {
    let mut opts = named_options();
    opts.max_batch_size = Some(0);
    assert!(matches!(Config::from_options(opts), Err(ConfigError::InvalidBatchSize)));
}

#[test]
fn zero_queue_capacity_is_refused() {
    let mut opts = named_options();
    opts.queue_capacity = Some(0);
    assert!(matches!(Config::from_options(opts), Err(ConfigError::InvalidCapacity)));
}

#[test]
fn zero_retry_attempts_are_refused() {
    let mut opts = named_options();
    opts.retry = Some(RetryConfig {
        base_delay_ms: 10,
        multiplier: 2,
        max_delay_ms: 100,
        max_attempts: 0,
    });
    assert!(matches!(Config::from_options(opts), Err(ConfigError::InvalidRetry)));
}

#[test]
fn zero_retry_multiplier_is_refused() {
    let mut opts = named_options();
    opts.retry = Some(RetryConfig {
        base_delay_ms: 10,
        multiplier: 0,
        max_delay_ms: 100,
        max_attempts: 3,
    });
    assert!(matches!(Config::from_options(opts), Err(ConfigError::InvalidRetry)));
}

#[test]
fn parse_port_reads_the_exact_number() {
    assert_eq!(span_exporter::config::parse_port(b"8126"), Some(8126));
    assert_eq!(span_exporter::config::parse_port(b"0"), Some(0));
    assert_eq!(span_exporter::config::parse_port(b"65535"), Some(65535));
}

#[test]
fn parse_port_rejects_bad_input() {
    assert_eq!(span_exporter::config::parse_port(b""), None);
    assert_eq!(span_exporter::config::parse_port(b"81a6"), None);
    assert_eq!(span_exporter::config::parse_port(b"-1"), None);
    assert_eq!(span_exporter::config::parse_port(b"65536"), None);
    assert_eq!(span_exporter::config::parse_port(b"999999999999"), None);
}
