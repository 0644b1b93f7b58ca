use vstd::prelude::*;
use crate::result::{BoxResult, UnexpectedError};
use crate::analyst::formatter::div_toward_zero;

verus! {

/// Calls chrono's `Utc::now().timestamp_millis()`: the milliseconds since the Unix epoch.
/// The reading depends on the clock: nothing is stated of it.
#[verifier::external_body]
pub(crate) fn now_millis() -> i64 {
    chrono::Utc::now().timestamp_millis()
}

/// How far a run of tasks has come: how many of how many are finished, how many of those
/// were finished since the progress started, how long a task was expected to take, and
/// when the progress started.
pub struct Progress {
    total_tasks: u64,
    finished_tasks: u64,
    ticked_tasks: u64,
    estimated_task_time_ms: i64,
    started_at_ms: i64,
}

/// The abstract value of a [`Progress`].
pub ghost struct ProgressView {
    pub total_tasks: u64,
    pub finished_tasks: u64,
    pub ticked_tasks: u64,
    pub estimated_task_time_ms: i64,
    pub started_at_ms: i64,
}

/// A progress after one more task finished: unchanged where all are finished already.
pub open spec fn after_tick(p: ProgressView) -> ProgressView {
    if p.finished_tasks >= p.total_tasks {
        p
    } else {
        ProgressView {
            finished_tasks: (p.finished_tasks + 1) as u64,
            ticked_tasks: (p.ticked_tasks + 1) as u64,
            ..p
        }
    }
}

/// A progress after `k` ticks.
pub open spec fn after_ticks(p: ProgressView, k: nat) -> ProgressView
    decreases k,
{
    if k == 0 {
        p
    } else {
        after_tick(after_ticks(p, (k - 1) as nat))
    }
}

/// However many times a progress ticks, it never counts more tasks finished than there
/// are: after `k` ticks, `min(k, total - finished)` more are finished and ticked, where
/// not all were finished before; nothing changes where all were.
pub proof fn law_ticks_stop_at_total(p: ProgressView, k: nat)
    ensures
        after_ticks(p, k).total_tasks == p.total_tasks,
        after_ticks(p, k).estimated_task_time_ms == p.estimated_task_time_ms,
        p.finished_tasks >= p.total_tasks ==> after_ticks(p, k) == p,
        p.finished_tasks < p.total_tasks ==> {
            let done = if p.finished_tasks + k <= p.total_tasks { k as int } else { p.total_tasks - p.finished_tasks };
            &&& after_ticks(p, k).finished_tasks == p.finished_tasks + done
            &&& (p.ticked_tasks + done <= u64::MAX ==> after_ticks(p, k).ticked_tasks == p.ticked_tasks + done)
        },
    decreases k,
{
    if k > 0 {
        law_ticks_stop_at_total(p, (k - 1) as nat);
    }
}


/// Nanoseconds in a second.
pub open spec fn ns_per_sec() -> int {
    1_000_000_000
}

/// Nanoseconds in a millisecond.
pub open spec fn ns_per_ms() -> int {
    1_000_000
}

/// chrono's quotient of a time delta of `ns` nanoseconds by a positive `r`, in nanoseconds:
/// the whole seconds and the nanoseconds past them are divided apart, each rounded as Rust
/// rounds, and the remainder of the seconds is carried into the nanoseconds.
pub open spec fn delta_div_ns(ns: int, r: int) -> int {
    let secs = ns / ns_per_sec();
    let nanos = ns % ns_per_sec();
    let q = div_toward_zero(secs, r);
    q * ns_per_sec() + nanos / r + div_toward_zero((secs - q * r) * ns_per_sec(), r)
}

/// The time a task is taken to need, in nanoseconds, at the clock reading `now_ms`: the time
/// since the start shared among the ticked tasks, or the expected time where none was ticked
/// or where that share comes to nothing.
pub open spec fn task_time_ns(p: ProgressView, now_ms: int) -> int {
    let expected = p.estimated_task_time_ms * ns_per_ms();
    if p.ticked_tasks == 0 {
        expected
    } else {
        let per_task = delta_div_ns((now_ms - p.started_at_ms) * ns_per_ms(), p.ticked_tasks as int);
        if per_task == 0 {
            expected
        } else {
            per_task
        }
    }
}

/// The time the unfinished tasks are taken to need, in nanoseconds, at the clock reading
/// `now_ms`.
pub open spec fn remaining_time_ns(p: ProgressView, now_ms: int) -> int {
    task_time_ns(p, now_ms) * (p.total_tasks - p.finished_tasks)
}

/// Whether the estimate can be made at `now_ms`: the unfinished and the ticked tasks are
/// counted by an `i32`, and the estimate, in whole seconds rounded down, lies strictly
/// between the least and the greatest `i64`, as chrono's multiplication of a time delta asks.
pub open spec fn can_estimate(p: ProgressView, now_ms: int) -> bool {
    &&& p.finished_tasks <= p.total_tasks
    &&& p.total_tasks - p.finished_tasks <= i32::MAX
    &&& p.ticked_tasks <= i32::MAX
    &&& i64::MIN < remaining_time_ns(p, now_ms) / ns_per_sec() < i64::MAX
}

/// The estimate shares the time since the start among the tasks ticked since then, not
/// among the tasks finished before: two progresses that differ only in how many tasks
/// were finished before they started, with as many tasks left, give the same estimate.
pub proof fn law_estimate_ignores_earlier_tasks(p: ProgressView, q: ProgressView, now_ms: int)
    requires
        p.ticked_tasks == q.ticked_tasks,
        p.started_at_ms == q.started_at_ms,
        p.estimated_task_time_ms == q.estimated_task_time_ms,
        p.total_tasks - p.finished_tasks == q.total_tasks - q.finished_tasks,
    ensures
        task_time_ns(p, now_ms) == task_time_ns(q, now_ms),
        remaining_time_ns(p, now_ms) == remaining_time_ns(q, now_ms),
{
}

/// Where `s` whole seconds per ticked task have passed since the start, a task is taken
/// to need exactly `s` seconds, and the tasks left `s` seconds each.
pub proof fn law_elapsed_time_shared_among_ticked(p: ProgressView, now_ms: int, s: int)
    requires
        p.ticked_tasks > 0,
        s > 0,
        now_ms - p.started_at_ms == s * p.ticked_tasks * 1000,
    ensures
        task_time_ns(p, now_ms) == s * ns_per_sec(),
        remaining_time_ns(p, now_ms) == s * ns_per_sec() * (p.total_tasks - p.finished_tasks),
{
    let t = p.ticked_tasks as int;
    let ns = (now_ms - p.started_at_ms) * ns_per_ms();
    assert(ns == (s * t) * ns_per_sec() + 0) by (nonlinear_arith)
        requires ns == (now_ms - p.started_at_ms) * 1_000_000, now_ms - p.started_at_ms == s * t * 1000;
    vstd::arithmetic::div_mod::lemma_fundamental_div_mod_converse(ns, ns_per_sec(), s * t, 0);
    assert(s * t >= 0) by (nonlinear_arith) requires s > 0, t > 0;
    assert(s * t == s * t + 0);
    assert(s * t == t * s + 0) by (nonlinear_arith);
    vstd::arithmetic::div_mod::lemma_fundamental_div_mod_converse(s * t, t, s, 0);
    assert(div_toward_zero(s * t, t) == s);
    assert((s * t - s * t) * ns_per_sec() == 0);
    assert(div_toward_zero(0, t) == 0);
    assert(delta_div_ns(ns, t) == s * ns_per_sec());
    assert(s * ns_per_sec() != 0) by (nonlinear_arith) requires s > 0;
}

/// `a` divided by a positive `b`, rounded toward zero.
fn trunc_div(a: i128, b: i128) -> (q: i128)
    requires
        b > 0,
        a > i128::MIN,
    ensures
        q == div_toward_zero(a as int, b as int),
{
    if a >= 0 {
        a / b
    } else {
        -((-a) / b)
    }
}

/// `a` divided by a positive `b`, rounded down, and the remainder, which lies in `0..b`.
fn floor_div_mod(a: i128, b: i128) -> (qr: (i128, i128))
    requires
        b > 0,
        a > i128::MIN,
    ensures
        qr.0 == a as int / b as int,
        qr.1 == a as int % b as int,
{
    if a >= 0 {
        (a / b, a % b)
    } else {
        let m = -a;
        let q0 = m / b;
        let r0 = m % b;
        proof {
            vstd::arithmetic::div_mod::lemma_fundamental_div_mod(m as int, b as int);
        }
        if r0 == 0 {
            proof {
                let (ai, bi, qi) = (a as int, b as int, q0 as int);
                assert(ai == (-qi) * bi + 0) by (nonlinear_arith)
                    requires ai == -(bi * qi + 0);
                vstd::arithmetic::div_mod::lemma_fundamental_div_mod_converse(ai, bi, -qi, 0);
            }
            (-q0, 0)
        } else {
            proof {
                let (ai, bi, qi, ri) = (a as int, b as int, q0 as int, r0 as int);
                assert(ai == (-qi - 1) * bi + (bi - ri)) by (nonlinear_arith)
                    requires ai == -(bi * qi + ri);
                vstd::arithmetic::div_mod::lemma_fundamental_div_mod_converse(ai, bi, -qi - 1, bi - ri);
            }
            (-q0 - 1, b - r0)
        }
    }
}

/// chrono's quotient of a time delta of `ns` nanoseconds by `r`.
fn delta_div(ns: i128, r: i128) -> (q: i128)
    requires
        0 < r <= i32::MAX,
        -100_000_000_000_000_000_000_000_000 <= ns <= 100_000_000_000_000_000_000_000_000,
    ensures
        q == delta_div_ns(ns as int, r as int),
        -100_000_000_000_000_000_000_000_000 - ns_per_sec() <= q <= 100_000_000_000_000_000_000_000_000 + ns_per_sec(),
{
    let (secs, nanos) = floor_div_mod(ns, 1_000_000_000);
    let q = trunc_div(secs, r);
    proof {
        let si = secs as int;
        let ri = r as int;
        let qi = q as int;
        assert(-100_000_000_000_000_000 <= si <= 100_000_000_000_000_000);
        if si >= 0 {
            vstd::arithmetic::div_mod::lemma_fundamental_div_mod(si, ri);
            assert(0 <= qi * ri <= si) by (nonlinear_arith)
                requires qi == si / ri, ri * (si / ri) + si % ri == si, 0 <= si % ri < ri, si >= 0, ri > 0;
        } else {
            vstd::arithmetic::div_mod::lemma_fundamental_div_mod(-si, ri);
            assert(si <= qi * ri <= 0) by (nonlinear_arith)
                requires qi == -((-si) / ri), ri * ((-si) / ri) + (-si) % ri == -si, 0 <= (-si) % ri < ri, si < 0, ri > 0;
        }
        assert(-100_000_000_000_000_000 <= qi <= 100_000_000_000_000_000) by (nonlinear_arith)
            requires qi * ri <= 100_000_000_000_000_000, qi * ri >= -100_000_000_000_000_000, ri >= 1;
    }
    let carry = secs - q * r;
    proof {
        let si = secs as int;
        let ri = r as int;
        let qi = q as int;
        if si >= 0 {
            vstd::arithmetic::div_mod::lemma_fundamental_div_mod(si, ri);
            assert(0 <= si - qi * ri < ri) by (nonlinear_arith)
                requires qi == si / ri, ri * (si / ri) + si % ri == si, 0 <= si % ri < ri;
        } else {
            vstd::arithmetic::div_mod::lemma_fundamental_div_mod(-si, ri);
            assert(-ri < si - qi * ri <= 0) by (nonlinear_arith)
                requires qi == -((-si) / ri), ri * ((-si) / ri) + (-si) % ri == -si, 0 <= (-si) % ri < ri;
        }
        assert(-ri < carry < ri);
    }
    let part = trunc_div(carry * 1_000_000_000, r);
    proof {
        let ci = carry as int * 1_000_000_000;
        let ri = r as int;
        if ci >= 0 {
            assert(ci / ri <= 1_000_000_000) by (nonlinear_arith)
                requires 0 <= ci < ri * 1_000_000_000, ri > 0;
        } else {
            assert((-ci) / ri <= 1_000_000_000) by (nonlinear_arith)
                requires 0 < -ci < ri * 1_000_000_000, ri > 0;
        }
    }
    q * 1_000_000_000 + nanos / r + part
}

impl View for Progress {
    type V = ProgressView;

    closed spec fn view(&self) -> ProgressView {
        ProgressView {
            total_tasks: self.total_tasks,
            finished_tasks: self.finished_tasks,
            ticked_tasks: self.ticked_tasks,
            estimated_task_time_ms: self.estimated_task_time_ms,
            started_at_ms: self.started_at_ms,
        }
    }
}

impl Progress {
    #[verifier::type_invariant]
    spec fn well_formed(&self) -> bool {
        self.ticked_tasks <= self.finished_tasks
    }

    /// A progress with `finished_tasks` of `total_tasks` done, none of them ticked yet,
    /// where a task is expected to take `estimated_task_time_ms` milliseconds; refused
    /// where that time is zero.
    pub fn new(finished_tasks: u64, total_tasks: u64, estimated_task_time_ms: i64) -> (r: BoxResult<Self>)
        ensures
            estimated_task_time_ms == 0 <==> r is Err,
            r matches Err(e) ==> e.message_view() == "estimated_task_time must be > 0"@,
            r matches Ok(p) ==> p@ == (ProgressView {
                total_tasks,
                finished_tasks,
                ticked_tasks: 0,
                estimated_task_time_ms,
                started_at_ms: p@.started_at_ms,
            }),
    {
        if estimated_task_time_ms == 0 {
            return UnexpectedError::new_as_box_result("estimated_task_time must be > 0");
        }
        let started_at_ms = now_millis();
        Ok(Progress {
            total_tasks,
            estimated_task_time_ms,
            finished_tasks,
            started_at_ms,
            ticked_tasks: 0,
        })
    }

    /// Counts one more task finished, unless all are finished already.
    pub fn tick(&mut self)
        ensures
            final(self)@ == after_tick(old(self)@),
    {
        proof {
            use_type_invariant(&*self);
        }
        if self.finished_tasks >= self.total_tasks {
            return;
        }
        self.finished_tasks = self.finished_tasks + 1;
        self.ticked_tasks = self.ticked_tasks + 1;
    }

    pub fn total_tasks(&self) -> (n: u64)
        ensures
            n == self@.total_tasks,
    {
        self.total_tasks
    }

    pub fn finished_tasks(&self) -> (n: u64)
        ensures
            n == self@.finished_tasks,
    {
        self.finished_tasks
    }

    pub fn ticked_tasks(&self) -> (n: u64)
        ensures
            n == self@.ticked_tasks,
    {
        self.ticked_tasks
    }

    pub fn estimated_task_time_ms(&self) -> (n: i64)
        ensures
            n == self@.estimated_task_time_ms,
    {
        self.estimated_task_time_ms
    }

    /// The time a task is taken to need at the clock reading `now_ms`, in nanoseconds.
    fn estimate_task_time_at(&self, now_ms: i64) -> (t: i128)
        requires
            self@.ticked_tasks <= i32::MAX,
        ensures
            t == task_time_ns(self@, now_ms as int),
            -100_000_000_000_000_000_000_000_000 - ns_per_sec() <= t <= 100_000_000_000_000_000_000_000_000 + ns_per_sec(),
    {
        let expected = self.estimated_task_time_ms as i128 * 1_000_000;
        if self.ticked_tasks == 0 {
            return expected;
        }
        let elapsed = (now_ms as i128 - self.started_at_ms as i128) * 1_000_000;
        let per_task = delta_div(elapsed, self.ticked_tasks as i128);
        if per_task == 0 {
            expected
        } else {
            per_task
        }
    }

    /// The time the unfinished tasks are taken to need at the clock reading `now_ms`, in
    /// nanoseconds, where the estimate can be made.
    fn remaining_time_at(&self, now_ms: i64) -> (r: Option<i128>)
        ensures
            r is Some <==> can_estimate(self@, now_ms as int),
            r matches Some(t) ==> t == remaining_time_ns(self@, now_ms as int),
    {
        if self.finished_tasks > self.total_tasks || self.total_tasks - self.finished_tasks > 2147483647
            || self.ticked_tasks > 2147483647 {
            return None;
        }
        let remain = (self.total_tasks - self.finished_tasks) as i128;
        let t = self.estimate_task_time_at(now_ms);
        assert(-300_000_000_000_000_000_000_000_000_000_000_000 <= t * remain
            <= 300_000_000_000_000_000_000_000_000_000_000_000) by (nonlinear_arith)
            requires
                -100_000_000_000_000_000_000_000_000 - 1_000_000_000 <= t <= 100_000_000_000_000_000_000_000_000 + 1_000_000_000,
                0 <= remain <= 2147483647;
        let total = t * remain;
        let (secs, _) = floor_div_mod(total, 1_000_000_000);
        if secs <= i64::MIN as i128 || secs >= i64::MAX as i128 {
            None
        } else {
            Some(total)
        }
    }

    /// The time the unfinished tasks are taken to need at the clock reading `now_ms`, in
    /// nanoseconds: as many times the time a task needs, which is the time since the start
    /// shared among the tasks ticked since, or the expected time where none was ticked.
    pub fn estimated_at(&self, now_ms: i64) -> (t: i128)
        requires
            can_estimate(self@, now_ms as int),
        ensures
            t == remaining_time_ns(self@, now_ms as int),
    {
        self.remaining_time_at(now_ms).unwrap()
    }

    /// The time the unfinished tasks are taken to need now, in nanoseconds; `None` where
    /// the clock reads a time at which the estimate cannot be made (see [`can_estimate`]).
    /// Where no task was ticked, the clock plays no part.
    pub fn estimated(&self) -> (r: Option<i128>)
        ensures
            r matches Some(t) ==> exists|now_ms: i64|
                #[trigger] can_estimate(self@, now_ms as int) && t == remaining_time_ns(self@, now_ms as int),
            r is None ==> exists|now_ms: i64| !(#[trigger] can_estimate(self@, now_ms as int)),
            self@.ticked_tasks == 0 ==> (r is Some <==> can_estimate(self@, 0)),
            self@.ticked_tasks == 0 ==> (r matches Some(t) ==> t == remaining_time_ns(self@, 0)),
    {
        let now_ms = now_millis();
        let r = self.remaining_time_at(now_ms);
        proof {
            if r is Some {
                assert(can_estimate(self@, now_ms as int));
            } else {
                assert(!can_estimate(self@, now_ms as int));
            }
        }
        r
    }

    /// When the progress started, in milliseconds since the Unix epoch.
    pub fn started_at_ms(&self) -> (t: i64)
        ensures
            t == self@.started_at_ms,
    {
        self.started_at_ms
    }
}

} // verus!
