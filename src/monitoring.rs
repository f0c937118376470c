//! Per-client counters of outcomes, fees and latency, with derived
//! statistics.
//!
//! Fees are counted in units of `10^-18`; latency in whole milliseconds.

use vstd::prelude::*;

verus! {

/// A snapshot of the counters and the statistics derived from them.
#[derive(Debug, Clone, Copy, PartialEq, Eq)]
pub struct MetricsSnapshot {
    pub total_transactions: u64,
    pub successful_transactions: u64,
    pub failed_transactions: u64,
    /// Sum of the fees of successful transactions, in units of `10^-18`.
    pub total_fee_units: u128,
    pub total_latency_ms: u128,
    /// Mean latency in milliseconds, rounded down; 0 when nothing was recorded.
    pub average_latency_ms: u128,
    /// Share of successful transactions in millionths, rounded down; 0 when
    /// nothing was recorded.
    pub success_rate_ppm: u64,
}

/// The counters of a metrics aggregator.
pub struct MetricsView {
    pub total: nat,
    pub successful: nat,
    pub failed: nat,
    pub fee_units: nat,
    pub latency_ms: nat,
}

pub struct Metrics {
    total_transactions: u64,
    successful_transactions: u64,
    failed_transactions: u64,
    total_fee_units: u128,
    total_latency_ms: u128,
}

/// The counters after recording one transaction. The fee sum stops at the
/// largest value it can hold.
pub open spec fn recorded(m: MetricsView, success: bool, fee_units: nat, latency_ms: nat) -> MetricsView {
    MetricsView {
        total: m.total + 1,
        successful: if success {
            m.successful + 1
        } else {
            m.successful
        },
        failed: if success {
            m.failed
        } else {
            m.failed + 1
        },
        fee_units: if success {
            if m.fee_units + fee_units > u128::MAX {
                u128::MAX as nat
            } else {
                m.fee_units + fee_units
            }
        } else {
            m.fee_units
        },
        latency_ms: m.latency_ms + latency_ms,
    }
}

/// The statistics of a set of counters.
pub open spec fn snapshot_of(m: MetricsView) -> MetricsSnapshot {
    MetricsSnapshot {
        total_transactions: m.total as u64,
        successful_transactions: m.successful as u64,
        failed_transactions: m.failed as u64,
        total_fee_units: m.fee_units as u128,
        total_latency_ms: m.latency_ms as u128,
        average_latency_ms: if m.total > 0 {
            (m.latency_ms / m.total) as u128
        } else {
            0
        },
        success_rate_ppm: if m.total > 0 {
            (m.successful * 1_000_000 / m.total) as u64
        } else {
            0
        },
    }
}

impl View for Metrics {
    type V = MetricsView;

    closed spec fn view(&self) -> MetricsView {
        MetricsView {
            total: self.total_transactions as nat,
            successful: self.successful_transactions as nat,
            failed: self.failed_transactions as nat,
            fee_units: self.total_fee_units as nat,
            latency_ms: self.total_latency_ms as nat,
        }
    }
}

/// Counters that a `Metrics` can hold: every transaction is a success or a
/// failure, and the latency sum fits however many transactions follow.
pub open spec fn metrics_wf(m: MetricsView) -> bool {
    &&& m.successful + m.failed == m.total
    &&& m.total <= u64::MAX
    &&& m.fee_units <= u128::MAX
    &&& m.latency_ms <= m.total * u64::MAX
}

impl Default for Metrics {
    fn default() -> (r: Metrics)
        ensures
            r.wf(),
            r@ == (MetricsView { total: 0, successful: 0, failed: 0, fee_units: 0, latency_ms: 0 }),
    {
        Metrics::new()
    }
}

impl Metrics {
    pub open spec fn wf(&self) -> bool {
        metrics_wf(self@)
    }

    /// Creates a zeroed aggregator.
    pub fn new() -> (r: Metrics)
        ensures
            r.wf(),
            r@ == (MetricsView { total: 0, successful: 0, failed: 0, fee_units: 0, latency_ms: 0 }),
    {
        Metrics {
            total_transactions: 0,
            successful_transactions: 0,
            failed_transactions: 0,
            total_fee_units: 0,
            total_latency_ms: 0,
        }
    }

    /// Records one transaction: its outcome, its fee (counted only on
    /// success) and its latency.
    pub fn record_transaction(&mut self, success: bool, fee_units: u128, latency_ms: u64)
        requires
            old(self).wf(),
            old(self)@.total < u64::MAX,
        ensures
            final(self).wf(),
            final(self)@ == recorded(old(self)@, success, fee_units as nat, latency_ms as nat),
    {
        proof {
            let t = self@.total;
            assert(self@.latency_ms + latency_ms <= (t + 1) * u64::MAX) by (nonlinear_arith)
                requires
                    self@.latency_ms <= t * u64::MAX,
                    latency_ms <= u64::MAX,
            ;
            assert((t + 1) * u64::MAX <= u128::MAX) by (nonlinear_arith)
                requires
                    t < u64::MAX,
            ;
        }
        self.total_transactions = self.total_transactions + 1;
        if success {
            self.successful_transactions = self.successful_transactions + 1;
            self.total_fee_units = self.total_fee_units.saturating_add(fee_units);
        } else {
            self.failed_transactions = self.failed_transactions + 1;
        }
        self.total_latency_ms = self.total_latency_ms + latency_ms as u128;
    }

    /// The current statistics.
    pub fn get_stats(&self) -> (r: MetricsSnapshot)
        requires
            self.wf(),
        ensures
            r == snapshot_of(self@),
    {
        let total = self.total_transactions;
        let (average, rate) = if total > 0 {
            proof {
                assert(self@.successful * 1_000_000 / self@.total <= 1_000_000) by (nonlinear_arith)
                    requires
                        self@.successful <= self@.total,
                        self@.total > 0,
                ;
                assert(self@.latency_ms / self@.total <= self@.latency_ms) by (nonlinear_arith)
                    requires
                        self@.total > 0,
                ;
            }
            (
                self.total_latency_ms / total as u128,
                (self.successful_transactions as u128 * 1_000_000 / total as u128) as u64,
            )
        } else {
            (0, 0)
        };
        MetricsSnapshot {
            total_transactions: total,
            successful_transactions: self.successful_transactions,
            failed_transactions: self.failed_transactions,
            total_fee_units: self.total_fee_units,
            total_latency_ms: self.total_latency_ms,
            average_latency_ms: average,
            success_rate_ppm: rate,
        }
    }

    /// Sets every counter back to zero.
    pub fn reset(&mut self)
        ensures
            final(self).wf(),
            final(self)@ == (MetricsView { total: 0, successful: 0, failed: 0, fee_units: 0, latency_ms: 0 }),
    {
        self.total_transactions = 0;
        self.successful_transactions = 0;
        self.failed_transactions = 0;
        self.total_fee_units = 0;
        self.total_latency_ms = 0;
    }
}

} // verus!
