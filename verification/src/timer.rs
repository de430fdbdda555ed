//! The idle timer: a pure state machine that measures how long the watched
//! port has been without an ESTABLISHED connection and decides when the
//! remediation action is due.

use vstd::prelude::*;

verus! {

/// State of the idle timer.
///
/// `Armed` means no idle period is in progress; `Running { since }` means the
/// port has been idle since the instant `since` (in seconds of the monotonic
/// clock the caller samples with).
#[derive(Clone, Copy, Debug, PartialEq, Eq, Structural)]
pub enum IdleTimerState {
    Armed,
    Running { since: u64 },
}

/// One observation handed to the idle timer: whether any ESTABLISHED
/// connection was seen, and the sampling instant in seconds.
#[derive(Clone, Copy, Debug, PartialEq, Eq, Structural)]
pub struct Sample {
    pub nonempty: bool,
    pub at: u64,
}

/// What one sample does to the idle timer.
///
/// A sample with connections re-arms the timer and never fires. An empty
/// sample starts the timer if it was armed; if it was already running since
/// `since`, the action fires exactly when `timeout` seconds have elapsed, and
/// the timer then restarts from the current instant, so a sustained idle run
/// fires once per elapsed `timeout`.
pub open spec fn timer_step(
    state: IdleTimerState,
    nonempty: bool,
    now: u64,
    timeout: u64,
) -> (IdleTimerState, bool) {
    if nonempty {
        (IdleTimerState::Armed, false)
    } else {
        match state {
            IdleTimerState::Armed => (IdleTimerState::Running { since: now }, false),
            IdleTimerState::Running { since } => {
                if since + timeout <= now {
                    (IdleTimerState::Running { since: now }, true)
                } else {
                    (state, false)
                }
            },
        }
    }
}

/// Advances the idle timer by one observation; returns the new state and
/// whether the remediation action fires at this instant.
pub fn on_sample(state: IdleTimerState, nonempty: bool, now: u64, timeout: u64) -> (r: (
    IdleTimerState,
    bool,
))
    ensures
        r == timer_step(state, nonempty, now, timeout),
{
    if nonempty {
        (IdleTimerState::Armed, false)
    } else {
        match state {
            IdleTimerState::Armed => (IdleTimerState::Running { since: now }, false),
            IdleTimerState::Running { since } => {
                if now >= since && now - since >= timeout {
                    (IdleTimerState::Running { since: now }, true)
                } else {
                    (IdleTimerState::Running { since }, false)
                }
            },
        }
    }
}

/// The idle timer's run over a whole sequence of observations: the state it
/// ends in, and how many times the action fired along the way.
pub open spec fn run_samples(state: IdleTimerState, samples: Seq<Sample>, timeout: u64) -> (
    IdleTimerState,
    nat,
)
    decreases samples.len(),
{
    if samples.len() == 0 {
        (state, 0nat)
    } else {
        let first = timer_step(state, samples[0].nonempty, samples[0].at, timeout);
        let rest = run_samples(first.0, samples.drop_first(), timeout);
        (rest.0, (if first.1 {
            1nat
        } else {
            0nat
        }) + rest.1)
    }
}

/// A run over `samples.push(x)` is the run over `samples` followed by one
/// step on `x`.
proof fn lemma_run_samples_push(
    state: IdleTimerState,
    samples: Seq<Sample>,
    x: Sample,
    timeout: u64,
)
    ensures
        ({
            let r = run_samples(state, samples, timeout);
            let st = timer_step(r.0, x.nonempty, x.at, timeout);
            run_samples(state, samples.push(x), timeout) == (
                st.0,
                r.1 + (if st.1 {
                    1nat
                } else {
                    0nat
                }),
            )
        }),
    decreases samples.len(),
{
    let pushed = samples.push(x);
    assert(pushed.len() == samples.len() + 1);
    if samples.len() == 0 {
        assert(pushed[0] == x);
        assert(pushed.drop_first() =~= Seq::<Sample>::empty());
        let st = timer_step(state, x.nonempty, x.at, timeout);
        assert(run_samples(st.0, pushed.drop_first(), timeout) == (st.0, 0nat));
        assert(run_samples(state, pushed, timeout) == (
            st.0,
            (if st.1 {
                1nat
            } else {
                0nat
            }) + 0nat,
        ));
    } else {
        assert(pushed[0] == samples[0]);
        assert(pushed.drop_first() =~= samples.drop_first().push(x));
        let first = timer_step(state, samples[0].nonempty, samples[0].at, timeout);
        lemma_run_samples_push(first.0, samples.drop_first(), x, timeout);
        let r_rest = run_samples(first.0, samples.drop_first(), timeout);
        let st = timer_step(r_rest.0, x.nonempty, x.at, timeout);
        assert(run_samples(first.0, pushed.drop_first(), timeout) == (
            st.0,
            r_rest.1 + (if st.1 {
                1nat
            } else {
                0nat
            }),
        ));
        let r = run_samples(state, samples, timeout);
        assert(r.0 == r_rest.0 && r.1 == (if first.1 {
            1nat
        } else {
            0nat
        }) + r_rest.1);
    }
}

/// With connections present at every sample the idle timer never fires,
/// whatever state it starts in, whatever the instants and the timeout.
pub proof fn lemma_active_never_fires(state: IdleTimerState, samples: Seq<Sample>, timeout: u64)
    requires
        forall|i: int| 0 <= i < samples.len() ==> (#[trigger] samples[i]).nonempty,
    ensures
        run_samples(state, samples, timeout).1 == 0,
    decreases samples.len(),
{
    if samples.len() > 0 {
        let first = timer_step(state, samples[0].nonempty, samples[0].at, timeout);
        assert forall|i: int| 0 <= i < samples.drop_first().len() implies (#[trigger] samples.drop_first()[i]).nonempty by {
            assert(samples.drop_first()[i] == samples[i + 1]);
        }
        lemma_active_never_fires(first.0, samples.drop_first(), timeout);
    }
}

/// From `Armed`, one empty sample only starts the timer — it does not fire —
/// and a later sample with connections re-arms it, again without firing.
pub proof fn lemma_arm_then_reset(t1: u64, t2: u64, timeout: u64)
    ensures
        timer_step(IdleTimerState::Armed, false, t1, timeout) == (
            IdleTimerState::Running { since: t1 },
            false,
        ),
        timer_step(IdleTimerState::Running { since: t1 }, true, t2, timeout) == (
            IdleTimerState::Armed,
            false,
        ),
{
}

/// The instants of an uninterrupted idle run: `n` empty samples, the first
/// at `t0` and each `interval` seconds after the one before.
pub open spec fn idle_run(t0: u64, interval: u64, n: nat) -> Seq<Sample> {
    Seq::new(
        n,
        |j: int| Sample { nonempty: false, at: (t0 + j * interval) as u64 },
    )
}

/// After the samples at `t0`, ..., `t0 + k*interval` of an uninterrupted
/// idle run the timer runs since the instant of its latest firing (or since
/// `t0` if it never fired) and has fired once per full timeout, `⌊k/m⌋`
/// times where `m = timeout/interval`.
proof fn lemma_idle_run_status(t0: u64, interval: u64, timeout: u64, k: nat)
    requires
        0 < interval <= timeout,
        timeout as int % interval as int == 0,
        t0 + k * interval <= u64::MAX,
    ensures
        ({
            let m = timeout as int / interval as int;
            let q = k as int / m;
            &&& 0 <= q * timeout <= k * interval
            &&& run_samples(IdleTimerState::Armed, idle_run(t0, interval, (k + 1) as nat), timeout)
                == (IdleTimerState::Running { since: (t0 + q * timeout) as u64 }, q as nat)
        }),
    decreases k,
{
    let i = interval as int;
    let t = timeout as int;
    let m = t / i;
    vstd::arithmetic::div_mod::lemma_fundamental_div_mod(t, i);
    assert(t == m * i);
    assert(m >= 1) by (nonlinear_arith)
        requires
            t == m * i,
            0 < i <= t,
    ;
    let q = k as int / m;
    if k == 0 {
        vstd::arithmetic::div_mod::lemma_fundamental_div_mod_converse(0, m, 0, 0);
        assert(q == 0);
        assert(q * t == 0) by (nonlinear_arith)
            requires
                q == 0,
        ;
        assert((t0 + q * t) as u64 == t0);
        let samples = idle_run(t0, interval, (k + 1) as nat);
        assert(samples[0] == Sample { nonempty: false, at: t0 });
        assert(samples.drop_first() =~= Seq::<Sample>::empty());
        let first = timer_step(IdleTimerState::Armed, samples[0].nonempty, samples[0].at, timeout);
        assert(first == (IdleTimerState::Running { since: t0 }, false));
        assert(run_samples(first.0, samples.drop_first(), timeout) == (first.0, 0nat));
        assert(run_samples(IdleTimerState::Armed, samples, timeout) == (
            IdleTimerState::Running { since: t0 },
            0nat,
        ));
        assert(0 <= q * timeout <= k * interval);
    } else {
        let kp = (k - 1) as nat;
        assert(kp * i <= k * i) by (nonlinear_arith)
            requires
                kp == k - 1,
                i > 0,
                k >= 1,
        ;
        lemma_idle_run_status(t0, interval, timeout, kp);
        let q1 = kp as int / m;
        assert(q1 >= 0) by (nonlinear_arith)
            requires
                q1 * t >= 0,
                t > 0,
        ;
        let since1 = (t0 + q1 * t) as u64;
        let now = (t0 + k * interval) as u64;
        let x = Sample { nonempty: false, at: now };
        assert(idle_run(t0, interval, (k + 1) as nat) =~= idle_run(t0, interval, k).push(x));
        lemma_run_samples_push(IdleTimerState::Armed, idle_run(t0, interval, k), x, timeout);
        assert(since1 == t0 + q1 * t);
        assert(now == t0 + k * i);
        vstd::arithmetic::div_mod::lemma_fundamental_div_mod(kp as int, m);
        vstd::arithmetic::div_mod::lemma_mod_pos_bound(kp as int, m);
        let r1 = kp as int % m;
        assert(kp == m * q1 + r1);
        if r1 == m - 1 {
            // The idle period completed a full timeout at this sample: it
            // fires and the timer restarts from this instant.
            assert(k == m * (q1 + 1)) by (nonlinear_arith)
                requires
                    kp == m * q1 + r1,
                    r1 == m - 1,
                    k == kp + 1,
            ;
            assert((q1 + 1) * t == k * i) by (nonlinear_arith)
                requires
                    t == m * i,
                    k == m * (q1 + 1),
            ;
            vstd::arithmetic::div_mod::lemma_fundamental_div_mod_converse(k as int, m, q1 + 1, 0);
            assert(q == q1 + 1);
            assert(q1 * t + t == (q1 + 1) * t) by (nonlinear_arith);
            assert(since1 + timeout <= now);
            assert(timer_step(IdleTimerState::Running { since: since1 }, false, now, timeout) == (
                IdleTimerState::Running { since: now },
                true,
            ));
            assert(q * t == k * i);
            assert(k * i >= 0) by (nonlinear_arith)
                requires
                    k >= 0,
                    i > 0,
            ;
            assert((t0 + q * t) as u64 == now);
            assert(run_samples(IdleTimerState::Armed, idle_run(t0, interval, k), timeout) == (
                IdleTimerState::Running { since: since1 },
                q1 as nat,
            ));
            assert(run_samples(
                IdleTimerState::Armed,
                idle_run(t0, interval, (k + 1) as nat),
                timeout,
            ) == (IdleTimerState::Running { since: now }, (q1 as nat) + 1nat));
            assert(q as nat == (q1 as nat) + 1nat);
        } else {
            // Inside a timeout period: no firing, the timer keeps running
            // since its latest firing.
            assert((q1 + 1) * t > k * i) by (nonlinear_arith)
                requires
                    t == m * i,
                    kp == m * q1 + r1,
                    k == kp + 1,
                    0 <= r1 < m - 1,
                    i > 0,
            ;
            vstd::arithmetic::div_mod::lemma_fundamental_div_mod_converse(k as int, m, q1, r1 + 1);
            assert(q == q1);
            assert(since1 + timeout > now) by {
                assert(q1 * t + t == (q1 + 1) * t) by (nonlinear_arith);
            }
            assert(timer_step(IdleTimerState::Running { since: since1 }, false, now, timeout) == (
                IdleTimerState::Running { since: since1 },
                false,
            ));
            assert(0 <= q * t <= k * i) by (nonlinear_arith)
                requires
                    q == q1,
                    0 <= q1 * t <= kp * i,
                    kp * i <= k * i,
            ;
            assert(run_samples(IdleTimerState::Armed, idle_run(t0, interval, k), timeout) == (
                IdleTimerState::Running { since: since1 },
                q1 as nat,
            ));
            assert(run_samples(
                IdleTimerState::Armed,
                idle_run(t0, interval, (k + 1) as nat),
                timeout,
            ) == (IdleTimerState::Running { since: since1 }, q1 as nat));
            assert((t0 + q * timeout) as u64 == since1);
        }
    }
}

/// An uninterrupted idle run fires exactly once per elapsed timeout: when
/// `interval` divides `timeout`, after the empty samples at `t0`,
/// `t0 + interval`, ..., `t0 + k*interval` the action has fired
/// `⌊k*interval / timeout⌋` times.
pub proof fn lemma_periodic_firing(t0: u64, interval: u64, timeout: u64, k: nat)
    requires
        0 < interval <= timeout,
        timeout as int % interval as int == 0,
        t0 + k * interval <= u64::MAX,
    ensures
        run_samples(IdleTimerState::Armed, idle_run(t0, interval, (k + 1) as nat), timeout).1
            == k * interval / (timeout as int),
{
    let i = interval as int;
    let t = timeout as int;
    let m = t / i;
    vstd::arithmetic::div_mod::lemma_fundamental_div_mod(t, i);
    assert(t == m * i);
    assert(m >= 1) by (nonlinear_arith)
        requires
            t == m * i,
            0 < i <= t,
    ;
    lemma_idle_run_status(t0, interval, timeout, k);
    let q = k as int / m;
    vstd::arithmetic::div_mod::lemma_fundamental_div_mod(k as int, m);
    vstd::arithmetic::div_mod::lemma_mod_pos_bound(k as int, m);
    let r = k as int % m;
    assert(k * i == q * t + r * i && 0 <= r * i < t) by (nonlinear_arith)
        requires
            k == m * q + r,
            t == m * i,
            0 <= r < m,
            i > 0,
    ;
    vstd::arithmetic::div_mod::lemma_fundamental_div_mod_converse(k * i, t, q, r * i);
}

/// With a timeout of zero, the first empty sample seen while the timer is
/// running fires at once, at any instant not earlier than the start. (The
/// empty sample that starts the timer from `Armed` never fires, whatever the
/// timeout.)
pub proof fn lemma_zero_timeout_fires_at_once(since: u64, now: u64)
    requires
        since <= now,
    ensures
        timer_step(IdleTimerState::Running { since }, false, now, 0) == (
            IdleTimerState::Running { since: now },
            true,
        ),
{
}

} // verus!
