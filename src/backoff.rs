//! Reconnect backoff: a few fast retries with a short fixed delay, then a
//! delay that grows by a constant factor per attempt up to a ceiling, an
//! optional attempt budget, and a reset once a connection has held long enough.
use vstd::prelude::*;

verus! {

/// Parameters of the reconnect policy. Times are in milliseconds.
#[derive(Debug, Clone, Copy, PartialEq, Eq, Structural)]
pub struct ReconnectCfg {
    /// Number of initial attempts that wait `fast_delay_ms`.
    pub fast_attempts: u32,
    pub fast_delay_ms: u64,
    /// Starting point of the growing delay.
    pub base_delay_ms: u64,
    /// Ceiling of the growing delay.
    pub max_delay_ms: u64,
    /// Growth factor per attempt, in thousandths (2000 doubles the delay).
    pub factor_permille: u32,
    /// How long a connection must hold before the attempt count starts over.
    pub reset_after_ms: u64,
    /// Attempt budget; `None` for unlimited.
    pub max_retries: Option<u32>,
}

pub open spec fn min_int(a: int, b: int) -> int {
    if a <= b {
        a
    } else {
        b
    }
}

/// The unclamped growing delay after `k` growth steps: it starts from the
/// base delay and each step multiplies by the factor, rounding down to whole
/// milliseconds. Rounding at each step can leave it a few milliseconds below
/// `base * factor^k` taken in one go.
pub open spec fn raw_ms(cfg: ReconnectCfg, k: nat) -> int
    decreases k,
{
    if k == 0 {
        cfg.base_delay_ms as int
    } else {
        raw_ms(cfg, (k - 1) as nat) * cfg.factor_permille / 1000
    }
}

/// The growing delay after `k` growth steps, clamped once to the ceiling.
pub open spec fn grown_ms(cfg: ReconnectCfg, k: nat) -> int {
    min_int(raw_ms(cfg, k), cfg.max_delay_ms as int)
}

/// The delay handed out for the attempt that follows `attempt` earlier ones.
pub open spec fn delay_for(cfg: ReconnectCfg, attempt: nat) -> int {
    if attempt < cfg.fast_attempts {
        cfg.fast_delay_ms as int
    } else {
        grown_ms(cfg, (attempt - cfg.fast_attempts + 1) as nat)
    }
}

proof fn lemma_raw_nonneg(cfg: ReconnectCfg, k: nat)
    ensures
        raw_ms(cfg, k) >= 0,
    decreases k,
{
    if k > 0 {
        lemma_raw_nonneg(cfg, (k - 1) as nat);
        let g = raw_ms(cfg, (k - 1) as nat);
        let f = cfg.factor_permille as int;
        assert(g * f >= 0) by (nonlinear_arith)
            requires
                g >= 0,
                f >= 0,
        ;
    }
}

proof fn lemma_raw_step(cfg: ReconnectCfg, k: nat)
    ensures
        cfg.factor_permille >= 1000 ==> raw_ms(cfg, k) <= raw_ms(cfg, k + 1),
        cfg.factor_permille < 1000 ==> raw_ms(cfg, k + 1) <= raw_ms(cfg, k),
{
    lemma_raw_nonneg(cfg, k);
    let g = raw_ms(cfg, k);
    let f = cfg.factor_permille as int;
    assert(raw_ms(cfg, k + 1) == g * f / 1000);
    if f >= 1000 {
        assert(g * f / 1000 >= g) by (nonlinear_arith)
            requires
                g >= 0,
                f >= 1000,
        ;
    } else {
        assert(g * f / 1000 <= g) by (nonlinear_arith)
            requires
                g >= 0,
                0 <= f < 1000,
        ;
    }
}

proof fn lemma_raw_monotone(cfg: ReconnectCfg, j: nat, k: nat)
    requires
        cfg.factor_permille >= 1000,
        j <= k,
    ensures
        raw_ms(cfg, j) <= raw_ms(cfg, k),
    decreases k - j,
{
    if j < k {
        lemma_raw_monotone(cfg, j, (k - 1) as nat);
        lemma_raw_step(cfg, (k - 1) as nat);
    }
}

proof fn lemma_raw_fixed(cfg: ReconnectCfg, i: nat, k: nat)
    requires
        i <= k,
        raw_ms(cfg, i + 1) == raw_ms(cfg, i),
    ensures
        raw_ms(cfg, k) == raw_ms(cfg, i),
    decreases k - i,
{
    if k > i + 1 {
        lemma_raw_fixed(cfg, i, (k - 1) as nat);
        assert(raw_ms(cfg, k) == raw_ms(cfg, (k - 1) as nat) * cfg.factor_permille / 1000);
    }
}

/// The reconnect schedule: the first `fast_attempts` attempts wait the fast
/// delay; later delays never exceed the ceiling and, for a factor of at least
/// one, never decrease from one attempt to the next. Since a success sets the
/// attempt count to zero, the attempt after it waits the fast delay again.
pub proof fn lemma_backoff_schedule(cfg: ReconnectCfg, a: nat, b: nat)
    ensures
        a < cfg.fast_attempts ==> delay_for(cfg, a) == cfg.fast_delay_ms,
        cfg.fast_attempts > 0 ==> delay_for(cfg, 0) == cfg.fast_delay_ms,
        a >= cfg.fast_attempts ==> 0 <= delay_for(cfg, a) <= cfg.max_delay_ms,
        cfg.factor_permille >= 1000 && cfg.fast_attempts <= a <= b ==> delay_for(cfg, a)
            <= delay_for(cfg, b),
{
    if a >= cfg.fast_attempts {
        lemma_raw_nonneg(cfg, (a - cfg.fast_attempts + 1) as nat);
        if cfg.factor_permille >= 1000 && a <= b {
            lemma_raw_monotone(
                cfg,
                (a - cfg.fast_attempts + 1) as nat,
                (b - cfg.fast_attempts + 1) as nat,
            );
        }
    }
}

/// The growing delay after `k` growth steps.
fn grown_delay(cfg: &ReconnectCfg, k: u64) -> (r: u64)
    ensures
        r == grown_ms(*cfg, k as nat),
{
    let max = cfg.max_delay_ms;
    let growing = cfg.factor_permille >= 1000;
    let mut g: u64 = cfg.base_delay_ms;
    let mut i: u64 = 0;
    while i < k
        invariant
            i <= k,
            g == raw_ms(*cfg, i as nat),
            growing == (cfg.factor_permille >= 1000),
            max == cfg.max_delay_ms,
        decreases k - i,
    {
        if growing && g > max {
            proof {
                lemma_raw_monotone(*cfg, i as nat, k as nat);
            }
            return max;
        }
        proof {
            lemma_raw_step(*cfg, i as nat);
            let gg = g as int;
            let ff = cfg.factor_permille as int;
            assert(gg * ff <= 0xffff_ffff_ffff_ffff * 0xffff_ffff) by (nonlinear_arith)
                requires
                    0 <= gg <= 0xffff_ffff_ffff_ffff,
                    0 <= ff <= 0xffff_ffff,
            ;
        }
        let wide: u128 = g as u128 * cfg.factor_permille as u128 / 1000;
        assert(wide == raw_ms(*cfg, (i + 1) as nat));
        if growing && wide > max as u128 {
            proof {
                lemma_raw_monotone(*cfg, (i + 1) as nat, k as nat);
            }
            return max;
        }
        let next = wide as u64;
        if next == g {
            proof {
                lemma_raw_fixed(*cfg, i as nat, k as nat);
            }
            return if g < max {
                g
            } else {
                max
            };
        }
        g = next;
        i = i + 1;
    }
    if g < max {
        g
    } else {
        max
    }
}

/// Reconnect backoff state: the policy, the number of attempts since the last
/// reset, and when the last connection that counts as a success came up.
#[derive(Debug, Clone, Copy)]
pub struct Backoff {
    cfg: ReconnectCfg,
    attempt: u32,
    last_ok_ms: u64,
}

impl Backoff {
    pub closed spec fn config(&self) -> ReconnectCfg {
        self.cfg
    }

    pub closed spec fn attempt(&self) -> nat {
        self.attempt as nat
    }

    pub closed spec fn last_ok(&self) -> nat {
        self.last_ok_ms as nat
    }

    /// Whether the connection noted last has held long enough by `now`.
    pub open spec fn should_reset_at(&self, now: nat) -> bool {
        now >= self.last_ok() + self.config().reset_after_ms
    }

    /// The budget left after `attempt` attempts.
    pub open spec fn left_after(&self, attempt: nat) -> Option<u32> {
        match self.config().max_retries {
            None => None,
            Some(m) => Some(
                if m > attempt {
                    (m - attempt) as u32
                } else {
                    0u32
                },
            ),
        }
    }

    /// A fresh backoff at time `now_ms`, with no attempt made.
    pub fn new(cfg: ReconnectCfg, now_ms: u64) -> (r: Backoff)
        ensures
            r.config() == cfg,
            r.attempt() == 0,
            r.last_ok() == now_ms,
    {
        Backoff { cfg, attempt: 0, last_ok_ms: now_ms }
    }

    pub fn cfg(&self) -> (r: ReconnectCfg)
        ensures
            r == self.config(),
    {
        self.cfg
    }

    pub fn attempts(&self) -> (r: u32)
        ensures
            r == self.attempt(),
    {
        self.attempt
    }

    /// Starts the attempt count over at time `now_ms`.
    pub fn on_success(&mut self, now_ms: u64)
        ensures
            final(self).config() == old(self).config(),
            final(self).attempt() == 0,
            final(self).last_ok() == now_ms,
    {
        self.last_ok_ms = now_ms;
        self.attempt = 0;
    }

    /// Notes that a connection came up at `now_ms`, without touching the
    /// attempt count.
    pub fn on_connected(&mut self, now_ms: u64)
        ensures
            final(self).config() == old(self).config(),
            final(self).attempt() == old(self).attempt(),
            final(self).last_ok() == now_ms,
    {
        self.last_ok_ms = now_ms;
    }

    /// Counts one more attempt and returns the delay to wait before it.
    pub fn next_delay(&mut self) -> (r: u64)
        ensures
            r == delay_for(old(self).config(), old(self).attempt()),
            final(self).config() == old(self).config(),
            final(self).last_ok() == old(self).last_ok(),
            final(self).attempt() == if old(self).attempt() < u32::MAX {
                old(self).attempt() + 1
            } else {
                old(self).attempt()
            },
    {
        if self.attempt < self.cfg.fast_attempts {
            self.attempt = self.attempt + 1;
            return self.cfg.fast_delay_ms;
        }
        let k: u64 = (self.attempt - self.cfg.fast_attempts) as u64 + 1;
        let d = grown_delay(&self.cfg, k);
        if self.attempt < u32::MAX {
            self.attempt = self.attempt + 1;
        }
        d
    }

    /// Whether the connection noted last has held for at least
    /// `reset_after_ms` by time `now_ms`.
    pub fn should_reset(&self, now_ms: u64) -> (r: bool)
        ensures
            r == self.should_reset_at(now_ms as nat),
    {
        now_ms >= self.last_ok_ms && now_ms - self.last_ok_ms >= self.cfg.reset_after_ms
    }

    /// Attempts left in the budget (`None` where it is unlimited); `Some(0)`
    /// means that no further attempt may be made.
    pub fn attempts_left(&self) -> (r: Option<u32>)
        ensures
            r == self.left_after(self.attempt()),
    {
        match self.cfg.max_retries {
            None => None,
            Some(m) => Some(
                if m > self.attempt {
                    m - self.attempt
                } else {
                    0
                },
            ),
        }
    }
}

} // verus!
