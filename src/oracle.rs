use vstd::prelude::*;

use crate::error::ErrorCode;

verus! {

/// Largest value of a `u64`, as a mathematical integer.
pub open spec fn u64_max() -> int {
    0xffff_ffff_ffff_ffffint
}

/// One conditional market together with its time-weighted price oracle.
#[derive(Clone, Copy, Debug, PartialEq, Eq, Structural)]
pub struct Amm {
    /// Last observed instantaneous price.
    pub price: u64,
    /// Sum over all elapsed intervals of `interval * price during it`.
    pub cumulative: u128,
    /// Timestamp at which the market was created.
    pub created_at: u64,
    /// Timestamp of the last oracle update.
    pub last_updated: u64,
    /// Time-weighted average price since creation, as of the last update.
    pub ltwap_latest: u64,
    /// Whether oracle updates need the co-signature of the market's authority.
    pub permissioned: bool,
}

impl Amm {
    /// The accumulator never holds more than the largest price over the
    /// whole elapsed time, and time never runs before creation.
    pub open spec fn wf(self) -> bool {
        &&& self.created_at <= self.last_updated
        &&& self.cumulative as int <= (self.last_updated - self.created_at) * u64_max()
    }

    /// The market after an update at `now`, for an update that is accepted.
    pub open spec fn updated(self, now: u64) -> Amm {
        if now == self.last_updated {
            self
        } else {
            let cumulative = self.cumulative + (now - self.last_updated) * self.price;
            Amm {
                cumulative: cumulative as u128,
                last_updated: now,
                ltwap_latest: (cumulative / (now - self.created_at) as int) as u64,
                ..self
            }
        }
    }

    /// What an update at `now` yields: the error, or the market afterwards.
    pub open spec fn update_result(self, now: u64, authorized: bool) -> Result<Amm, ErrorCode> {
        if self.permissioned && !authorized {
            Err(ErrorCode::UnauthorizedOracleUpdate)
        } else if now < self.last_updated {
            Err(ErrorCode::ClockRegression)
        } else {
            Ok(self.updated(now))
        }
    }

    /// A fresh market created at `now`, whose price is `price`.
    pub fn new(price: u64, now: u64, permissioned: bool) -> (r: Amm)
        ensures
            r.wf(),
            r.price == price,
            r.cumulative == 0,
            r.created_at == now,
            r.last_updated == now,
            r.ltwap_latest == price,
            r.permissioned == permissioned,
    {
        Amm { price, cumulative: 0, created_at: now, last_updated: now, ltwap_latest: price, permissioned }
    }

    /// Tells whether the market is well formed.
    pub fn is_well_formed(&self) -> (r: bool)
        ensures
            r == self.wf(),
    {
        if self.created_at > self.last_updated {
            return false;
        }
        let span: u64 = self.last_updated - self.created_at;
        proof {
            lemma_product_bound(span as int);
        }
        self.cumulative <= (span as u128) * (u64::MAX as u128)
    }

    /// Accumulates the price over the time elapsed since the last update and
    /// recomputes the average since creation. `authorized` tells whether the
    /// market's authority co-signed the update.
    pub fn update_ltwap(&mut self, now: u64, authorized: bool) -> (r: Result<(), ErrorCode>)
        requires
            old(self).wf(),
        ensures
            final(self).wf(),
            match old(self).update_result(now, authorized) {
                Ok(m) => r is Ok && *final(self) == m,
                Err(e) => r == Err::<(), ErrorCode>(e) && *final(self) == *old(self),
            },
    {
        if self.permissioned && !authorized {
            return Err(ErrorCode::UnauthorizedOracleUpdate);
        }
        if now < self.last_updated {
            return Err(ErrorCode::ClockRegression);
        }
        if now == self.last_updated {
            return Ok(());
        }
        let elapsed: u64 = now - self.last_updated;
        let since_creation: u64 = now - self.created_at;
        proof {
            lemma_accumulate_bound(
                self.cumulative as int,
                (self.last_updated - self.created_at) as int,
                elapsed as int,
                self.price as int,
            );
        }
        let cumulative: u128 = self.cumulative + (elapsed as u128) * (self.price as u128);
        let ltwap: u128 = cumulative / (since_creation as u128);
        proof {
            lemma_average_bound(cumulative as int, since_creation as int);
        }
        self.cumulative = cumulative;
        self.last_updated = now;
        self.ltwap_latest = ltwap as u64;
        Ok(())
    }
}

/// The market after accepted updates at the first `k` timestamps of `ts`.
pub open spec fn after_updates(m: Amm, ts: Seq<u64>, k: nat) -> Amm
    decreases k,
{
    if k == 0 {
        m
    } else {
        after_updates(m, ts, (k - 1) as nat).updated(ts[k - 1])
    }
}

/// Timestamps that never run backwards and start no earlier than the
/// market's last update.
pub open spec fn non_decreasing_from(m: Amm, ts: Seq<u64>) -> bool {
    &&& ts.len() > 0 ==> m.last_updated <= ts[0]
    &&& forall|i: int, j: int| 0 <= i <= j < ts.len() ==> ts[i] <= ts[j]
}

/// Along a run of updates whose timestamps never decrease, every update is
/// accepted (when authorized), the accumulator never decreases and the
/// last-update timestamp never moves backward.
pub proof fn lemma_oracle_monotone(m: Amm, ts: Seq<u64>, i: nat, j: nat)
    requires
        m.wf(),
        non_decreasing_from(m, ts),
        i <= j <= ts.len(),
    ensures
        after_updates(m, ts, j).wf(),
        j < ts.len() ==> after_updates(m, ts, j).update_result(ts[j as int], true)
            == Ok::<Amm, ErrorCode>(after_updates(m, ts, j + 1)),
        after_updates(m, ts, i).cumulative <= after_updates(m, ts, j).cumulative,
        after_updates(m, ts, i).last_updated <= after_updates(m, ts, j).last_updated,
        j > 0 ==> after_updates(m, ts, j).last_updated == ts[j - 1],
    decreases j,
{
    if j > 0 {
        lemma_oracle_monotone(m, ts, if i == j { (j - 1) as nat } else { i }, (j - 1) as nat);
        let prev = after_updates(m, ts, (j - 1) as nat);
        lemma_updated_wf(prev, ts[j - 1]);
    }
}

/// An accepted update keeps the market well formed and moves neither the
/// accumulator nor the timestamp backward.
pub proof fn lemma_updated_wf(m: Amm, now: u64)
    requires
        m.wf(),
        m.last_updated <= now,
    ensures
        m.updated(now).wf(),
        m.cumulative <= m.updated(now).cumulative,
        m.updated(now).last_updated == now,
{
    if now != m.last_updated {
        lemma_accumulate_bound(
            m.cumulative as int,
            (m.last_updated - m.created_at) as int,
            (now - m.last_updated) as int,
            m.price as int,
        );
        assert((now - m.last_updated) * m.price >= 0) by (nonlinear_arith)
            requires now >= m.last_updated;
    }
}

/// Two updates at the same timestamp leave the market as one does.
pub proof fn lemma_oracle_idempotent(m: Amm, now: u64, authorized: bool)
    requires
        m.wf(),
    ensures
        m.update_result(now, authorized) matches Ok(once) ==> once.update_result(now, authorized)
            == Ok::<Amm, ErrorCode>(once),
{
}

proof fn lemma_accumulate_bound(acc: int, span: int, elapsed: int, price: int)
    requires
        0 <= acc <= span * u64_max(),
        0 <= span,
        0 < elapsed,
        span + elapsed <= u64_max(),
        0 <= price <= u64_max(),
    ensures
        acc + elapsed * price <= (span + elapsed) * u64_max(),
        (span + elapsed) * u64_max() < 0x1_0000_0000_0000_0000_0000_0000_0000_0000int,
{
    assert(elapsed * price <= elapsed * u64_max()) by (nonlinear_arith)
        requires 0 < elapsed, 0 <= price <= u64_max();
    assert((span + elapsed) * u64_max() == span * u64_max() + elapsed * u64_max()) by (nonlinear_arith);
    assert((span + elapsed) * u64_max() <= u64_max() * u64_max()) by (nonlinear_arith)
        requires span + elapsed <= u64_max(), 0 <= span + elapsed;
}

proof fn lemma_product_bound(span: int)
    requires
        0 <= span <= u64_max(),
    ensures
        span * u64_max() <= u128::MAX,
{
    assert(span * u64_max() <= u64_max() * u64_max()) by (nonlinear_arith)
        requires 0 <= span <= u64_max();
}

proof fn lemma_average_bound(acc: int, span: int)
    requires
        0 < span,
        0 <= acc <= span * u64_max(),
    ensures
        acc / span <= u64_max(),
{
    assert(acc / span <= u64_max()) by (nonlinear_arith)
        requires 0 < span, 0 <= acc <= span * u64_max();
}

} // verus!
