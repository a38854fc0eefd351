//! Delivery outcomes and the exponential-backoff retry rule.

use vstd::prelude::*;

use crate::config::RetryConfig;

verus! {

/// What the delivery client reports for one attempt on one batch.
/// Exactly one variant per invocation; the client never fails silently.
#[derive(Clone, Debug)]
pub enum ExportResult {
    Success,
    /// Worth retrying (e.g. a timeout); the reason is carried verbatim.
    RetryableFailure(String),
    /// Not worth retrying (e.g. a rejected payload); the batch is dropped.
    PermanentFailure(String),
}

/// The backoff delay, in milliseconds, before re-sending a batch whose
/// first `n + 1` attempts failed: the base delay grown by the multiplier
/// after each failure, never above the configured maximum.
pub open spec fn backoff_delay(cfg: RetryConfig, n: nat) -> nat
    decreases n,
{
    if n == 0 {
        if cfg.base_delay_ms <= cfg.max_delay_ms {
            cfg.base_delay_ms as nat
        } else {
            cfg.max_delay_ms as nat
        }
    } else {
        let prev = backoff_delay(cfg, (n - 1) as nat);
        if prev * cfg.multiplier <= cfg.max_delay_ms {
            (prev * cfg.multiplier) as nat
        } else {
            cfg.max_delay_ms as nat
        }
    }
}

/// No backoff delay ever exceeds the configured maximum.
pub proof fn lemma_backoff_bounded(cfg: RetryConfig, n: nat)
    ensures
        backoff_delay(cfg, n) <= cfg.max_delay_ms,
    decreases n,
{
    if n > 0 {
        lemma_backoff_bounded(cfg, (n - 1) as nat);
    }
}

/// The delay before the first retry of a batch.
pub fn initial_delay(cfg: &RetryConfig) -> (r: u64)
    ensures
        r as nat == backoff_delay(*cfg, 0),
{
    if cfg.base_delay_ms <= cfg.max_delay_ms {
        cfg.base_delay_ms
    } else {
        cfg.max_delay_ms
    }
}

/// Grows a delay by the multiplier, capped at the maximum; when `cur` is
/// `backoff_delay(cfg, n)`, the result is `backoff_delay(cfg, n + 1)`.
pub fn bump_delay(cfg: &RetryConfig, cur: u64) -> (r: u64)
    ensures
        r as nat == (if cur * cfg.multiplier <= cfg.max_delay_ms {
            (cur * cfg.multiplier) as nat
        } else {
            cfg.max_delay_ms as nat
        }),
{
    match cur.checked_mul(cfg.multiplier) {
        Some(d) => {
            if d <= cfg.max_delay_ms {
                d
            } else {
                cfg.max_delay_ms
            }
        },
        None => cfg.max_delay_ms,
    }
}

} // verus!
