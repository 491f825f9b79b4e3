//! When things are due. Times are nanoseconds on one monotonic clock.

use vstd::prelude::*;

verus! {

/// The delay before the first attempt to reconnect.
pub const INITIAL_RECONNECT_DELAY_NS: u64 = 2_000_000_000;

/// The longest delay before an attempt to reconnect.
pub const MAX_RECONNECT_DELAY_NS: u64 = 30_000_000_000;

/// How long a session has to live to count as stable.
pub const STABLE_SESSION_NS: u64 = 20_000_000_000;

/// The shortest time between two redraws.
pub const MIN_REDRAW_INTERVAL_NS: u64 = 4_000_000;

/// The longest time between two redraws.
pub const MAX_REDRAW_INTERVAL_NS: u64 = 33_000_000;

/// How long to wait for events where something is about to happen.
pub const BUSY_POLL_MS: i32 = 8;

/// The longest time to wait for events.
pub const MAX_POLL_NS: u64 = 500_000_000;

/// Milliseconds as microseconds.
pub fn ms_to_us(time_ms: u32) -> (time_us: u64)
    ensures
        time_us == time_ms * 1000,
{
    time_ms as u64 * 1000
}

/// The time between two redraws at a refresh rate in millihertz.
pub open spec fn redraw_period(refresh_mhz: u32) -> int {
    let rate = if refresh_mhz == 0 {
        1
    } else {
        refresh_mhz as int
    };
    let period = 1_000_000_000_000int / rate;
    if period < MIN_REDRAW_INTERVAL_NS {
        MIN_REDRAW_INTERVAL_NS as int
    } else if period > MAX_REDRAW_INTERVAL_NS {
        MAX_REDRAW_INTERVAL_NS as int
    } else {
        period
    }
}

/// The time between two redraws at a refresh rate in millihertz: one refresh, kept
/// within bounds.
pub fn redraw_interval(refresh_mhz: u32) -> (interval_ns: u64)
    ensures
        interval_ns == redraw_period(refresh_mhz),
        MIN_REDRAW_INTERVAL_NS <= interval_ns <= MAX_REDRAW_INTERVAL_NS,
{
    let rate: u64 = refresh_mhz.max(1) as u64;
    let period: u64 = 1_000_000_000_000 / rate;
    if period < MIN_REDRAW_INTERVAL_NS {
        MIN_REDRAW_INTERVAL_NS
    } else if period > MAX_REDRAW_INTERVAL_NS {
        MAX_REDRAW_INTERVAL_NS
    } else {
        period
    }
}

/// When a session is to be started, and how long the next failure delays it.
#[derive(Clone, Copy, Debug, PartialEq, Eq, Structural)]
pub struct Reconnect {
    pub at: u64,
    pub delay: u64,
}

impl Reconnect {
    /// The delay is within its bounds.
    pub open spec fn wf(self) -> bool {
        INITIAL_RECONNECT_DELAY_NS <= self.delay <= MAX_RECONNECT_DELAY_NS
    }

    /// The delay that a session leaves behind: a stable one starts over.
    pub open spec fn delay_after(self, lived: u64) -> u64 {
        if lived >= STABLE_SESSION_NS {
            INITIAL_RECONNECT_DELAY_NS
        } else {
            self.delay
        }
    }

    /// The next attempt after a session that lived so long, and the delay after it,
    /// twice as long up to the limit.
    pub open spec fn rescheduled(self, now: u64, lived: u64) -> Reconnect {
        let delay = self.delay_after(lived);
        Reconnect {
            at: (now + delay) as u64,
            delay: if 2 * delay <= MAX_RECONNECT_DELAY_NS {
                (2 * delay) as u64
            } else {
                MAX_RECONNECT_DELAY_NS
            },
        }
    }

    /// Due at once.
    pub fn now(now: u64) -> (reconnect: Reconnect)
        ensures
            reconnect == (Reconnect { at: now, delay: INITIAL_RECONNECT_DELAY_NS }),
            reconnect.wf(),
    {
        Reconnect { at: now, delay: INITIAL_RECONNECT_DELAY_NS }
    }

    /// Whether the next attempt is due.
    pub fn is_due(&self, now: u64) -> (due: bool)
        ensures
            due == (self.at <= now),
    {
        self.at <= now
    }

    /// Schedules the next attempt after a session that lived so long.
    pub fn schedule(&mut self, now: u64, lived: u64)
        requires
            old(self).wf(),
            now + old(self).delay_after(lived) <= u64::MAX,
        ensures
            final(self).wf(),
            *final(self) == old(self).rescheduled(now, lived),
    {
        if lived >= STABLE_SESSION_NS {
            self.delay = INITIAL_RECONNECT_DELAY_NS;
        }
        let delay: u64 = self.delay;
        self.at = now + delay;
        self.delay = (delay * 2).min(MAX_RECONNECT_DELAY_NS);
    }
}

/// However often sessions fail, the next attempt is never more than the longest
/// delay away, and never sooner than the first one.
pub proof fn reconnect_delay_is_bounded(reconnect: Reconnect, now: u64, lived: u64)
    requires
        reconnect.wf(),
        now + reconnect.delay_after(lived) <= u64::MAX,
    ensures
        now + INITIAL_RECONNECT_DELAY_NS <= reconnect.rescheduled(now, lived).at <= now
            + MAX_RECONNECT_DELAY_NS,
{
}

/// Each failure in a row waits at least as long as the one before; a stable session
/// takes the delay back to the first one.
pub proof fn reconnect_backs_off(reconnect: Reconnect, now: u64, lived: u64)
    requires
        reconnect.wf(),
        now + reconnect.delay_after(lived) <= u64::MAX,
    ensures
        lived < STABLE_SESSION_NS ==> reconnect.rescheduled(now, lived).delay >= reconnect.delay,
        lived >= STABLE_SESSION_NS ==> reconnect.rescheduled(now, lived).at == now
            + INITIAL_RECONNECT_DELAY_NS,
{
}

/// What an output has coming up.
#[derive(Clone, Copy, Debug, PartialEq, Eq, Structural)]
pub struct OutputSchedule {
    /// Its session is being given up.
    pub retiring: bool,
    /// It has to be presented.
    pub pending_present: bool,
    /// When it has to be redrawn.
    pub next_redraw: Option<u64>,
    /// It could have a session and has none; `reconnect_at` says when to try.
    pub awaits_session: bool,
    pub reconnect_at: u64,
}

/// The time left until `deadline`.
pub open spec fn time_left(deadline: u64, now: u64) -> int {
    if deadline > now {
        deadline - now
    } else {
        0
    }
}

/// The shorter of two times, where there is one.
pub open spec fn sooner(left: Option<int>, right: Option<int>) -> Option<int> {
    match (left, right) {
        (Some(a), Some(b)) => Some(
            if b < a {
                b
            } else {
                a
            },
        ),
        (Some(a), None) => Some(a),
        (None, other) => other,
    }
}

/// The time until the first redraw, where one is due.
pub open spec fn until_redraw(outputs: Seq<OutputSchedule>, now: u64) -> Option<int>
    decreases outputs.len(),
{
    if outputs.len() == 0 {
        None
    } else {
        sooner(
            until_redraw(outputs.drop_last(), now),
            match outputs.last().next_redraw {
                Some(deadline) => Some(time_left(deadline, now)),
                None => None,
            },
        )
    }
}

/// The time until the first attempt to reconnect, where one is due.
pub open spec fn until_reconnect(outputs: Seq<OutputSchedule>, now: u64) -> Option<int>
    decreases outputs.len(),
{
    if outputs.len() == 0 {
        None
    } else {
        sooner(
            until_reconnect(outputs.drop_last(), now),
            if outputs.last().awaits_session {
                Some(time_left(outputs.last().reconnect_at, now))
            } else {
                None
            },
        )
    }
}

/// Whether something is about to happen at any output.
pub open spec fn any_busy(outputs: Seq<OutputSchedule>) -> bool {
    exists|index: int|
        0 <= index < outputs.len() && ((#[trigger] outputs[index]).retiring
            || outputs[index].pending_present)
}

/// How long to wait for events, in nanoseconds, where nothing is about to happen.
pub open spec fn idle_wait(outputs: Seq<OutputSchedule>, now: u64) -> int {
    let first = sooner(until_redraw(outputs, now), until_reconnect(outputs, now));
    match first {
        Some(wait) => if wait < MAX_POLL_NS {
            wait
        } else {
            MAX_POLL_NS as int
        },
        None => MAX_POLL_NS as int,
    }
}

/// How long to wait for events, in milliseconds, where nothing is about to happen:
/// rounded down, but not to zero while there is time left.
pub open spec fn idle_timeout_ms(outputs: Seq<OutputSchedule>, now: u64) -> int {
    let wait = idle_wait(outputs, now);
    if wait == 0 {
        0
    } else if wait < 1_000_000 {
        1
    } else {
        wait / 1_000_000
    }
}

fn soonest(current: Option<u64>, candidate: u64) -> (result: u64)
    ensures
        Some(result as int) == sooner(
            match current {
                Some(time) => Some(time as int),
                None => None,
            },
            Some(candidate as int),
        ),
{
    match current {
        Some(time) => if candidate < time {
            candidate
        } else {
            time
        },
        None => candidate,
    }
}

/// How long to wait for events, in milliseconds: briefly where something is about
/// to happen, else until the first thing that is due.
pub fn poll_timeout_ms(outputs: &[OutputSchedule], now: u64) -> (timeout: i32)
    ensures
        any_busy(outputs@) ==> timeout == BUSY_POLL_MS,
        !any_busy(outputs@) ==> timeout == idle_timeout_ms(outputs@, now),
        0 <= timeout <= 500,
{
    let mut redraw: Option<u64> = None;
    let mut reconnect: Option<u64> = None;
    assert(outputs@.take(0) =~= Seq::<OutputSchedule>::empty());
    for index in 0..outputs.len()
        invariant
            forall|at: int|
                0 <= at < index ==> !(#[trigger] outputs@[at]).retiring
                    && !outputs@[at].pending_present,
            until_redraw(outputs@.take(index as int), now) == (match redraw {
                Some(time) => Some(time as int),
                None => None,
            }),
            until_reconnect(outputs@.take(index as int), now) == (match reconnect {
                Some(time) => Some(time as int),
                None => None,
            }),
    {
        let output: OutputSchedule = outputs[index];
        if output.retiring || output.pending_present {
            assert(outputs@[index as int].retiring || outputs@[index as int].pending_present);
            return BUSY_POLL_MS;
        }
        assert(outputs@.take(index + 1).drop_last() =~= outputs@.take(index as int));
        assert(outputs@.take(index + 1).last() == output);
        if let Some(deadline) = output.next_redraw {
            redraw = Some(soonest(redraw, deadline.saturating_sub(now)));
        }
        if output.awaits_session {
            reconnect = Some(soonest(reconnect, output.reconnect_at.saturating_sub(now)));
        }
    }
    assert(outputs@.take(outputs@.len() as int) =~= outputs@);
    let mut wait: u64 = MAX_POLL_NS;
    if let Some(time) = redraw {
        wait = wait.min(time);
    }
    if let Some(time) = reconnect {
        wait = wait.min(time);
    }
    if wait == 0 {
        0
    } else {
        let millis: u64 = wait / 1_000_000;
        millis.max(1) as i32
    }
}

/// Waiting for events never runs past a redraw, or past an attempt to start a
/// session, by a millisecond or more.
pub proof fn poll_does_not_oversleep(outputs: Seq<OutputSchedule>, now: u64, index: int)
    requires
        0 <= index < outputs.len(),
    ensures
        outputs[index].next_redraw is Some ==> idle_timeout_ms(outputs, now) * 1_000_000
            < time_left(outputs[index].next_redraw->0, now) + 1_000_000,
        outputs[index].awaits_session ==> idle_timeout_ms(outputs, now) * 1_000_000 < time_left(
            outputs[index].reconnect_at,
            now,
        ) + 1_000_000,
{
    if outputs[index].next_redraw is Some {
        redraw_bounds_the_wait(outputs, now, index);
    }
    if outputs[index].awaits_session {
        reconnect_bounds_the_wait(outputs, now, index);
    }
    waits_are_not_negative(outputs, now);
}

proof fn waits_are_not_negative(outputs: Seq<OutputSchedule>, now: u64)
    ensures
        until_redraw(outputs, now) is Some ==> until_redraw(outputs, now)->0 >= 0,
        until_reconnect(outputs, now) is Some ==> until_reconnect(outputs, now)->0 >= 0,
    decreases outputs.len(),
{
    if outputs.len() > 0 {
        waits_are_not_negative(outputs.drop_last(), now);
    }
}

proof fn redraw_bounds_the_wait(outputs: Seq<OutputSchedule>, now: u64, index: int)
    requires
        0 <= index < outputs.len(),
        outputs[index].next_redraw is Some,
    ensures
        until_redraw(outputs, now) is Some,
        until_redraw(outputs, now)->0 <= time_left(outputs[index].next_redraw->0, now),
    decreases outputs.len(),
{
    if index < outputs.len() - 1 {
        redraw_bounds_the_wait(outputs.drop_last(), now, index);
    }
}

proof fn reconnect_bounds_the_wait(outputs: Seq<OutputSchedule>, now: u64, index: int)
    requires
        0 <= index < outputs.len(),
        outputs[index].awaits_session,
    ensures
        until_reconnect(outputs, now) is Some,
        until_reconnect(outputs, now)->0 <= time_left(outputs[index].reconnect_at, now),
    decreases outputs.len(),
{
    if index < outputs.len() - 1 {
        reconnect_bounds_the_wait(outputs.drop_last(), now, index);
    }
}

/// The time between two redraws is one refresh, where that is within the bounds.
pub proof fn period_is_one_refresh(refresh_mhz: u32)
    requires
        refresh_mhz > 0,
    ensures
        ({
            let period = redraw_period(refresh_mhz);
            &&& 4_000_000 <= period <= 33_000_000
            &&& period > 4_000_000 ==> period * refresh_mhz <= 1_000_000_000_000
            &&& period < 33_000_000 ==> (period + 1) * refresh_mhz > 1_000_000_000_000
        }),
{
    let rate = refresh_mhz as int;
    let exact = 1_000_000_000_000int / rate;
    let period = redraw_period(refresh_mhz);
    vstd::arithmetic::div_mod::lemma_fundamental_div_mod(1_000_000_000_000int, rate);
    assert(exact * rate <= 1_000_000_000_000 < (exact + 1) * rate) by (nonlinear_arith)
        requires
            1_000_000_000_000 == rate * exact + 1_000_000_000_000int % rate,
            0 <= 1_000_000_000_000int % rate < rate,
    ;
    if period > 4_000_000 {
        assert(period * rate <= exact * rate) by (nonlinear_arith)
            requires
                period <= exact,
                rate > 0,
        ;
    }
    if period < 33_000_000 {
        assert((exact + 1) * rate <= (period + 1) * rate) by (nonlinear_arith)
            requires
                exact <= period,
                rate > 0,
        ;
    }
}

/// A failure that follows another one waits twice as long, up to half a minute; one
/// that follows a session of at least twenty seconds waits two seconds again.
pub proof fn failures_in_a_row_wait_longer(
    reconnect: &mut Reconnect,
    now: u64,
    lived: u64,
    again: &mut Reconnect,
    later: u64,
    lived_again: u64,
    early: u64,
    due: bool,
)
    requires
        old(reconnect).delay >= 2_000_000_000,
        old(reconnect).delay <= 30_000_000_000,
        now + 30_000_000_000 <= u64::MAX,
        later + 30_000_000_000 <= u64::MAX,
        call_ensures(Reconnect::schedule, (reconnect, now, lived), ()),
        *old(again) == *final(reconnect),
        call_ensures(Reconnect::schedule, (again, later, lived_again), ()),
        call_ensures(Reconnect::is_due, (&*final(reconnect), early), due),
    ensures
        ({
            let first = final(reconnect).at - now;
            let second = final(again).at - later;
            &&& lived >= 20_000_000_000 ==> first == 2_000_000_000
            &&& lived < 20_000_000_000 ==> first == old(reconnect).delay
            &&& lived_again >= 20_000_000_000 ==> second == 2_000_000_000
            &&& lived_again < 20_000_000_000 && first <= 15_000_000_000 ==> second == 2 * first
            &&& lived_again < 20_000_000_000 && first > 15_000_000_000 ==> second
                == 30_000_000_000
            &&& due <==> early >= final(reconnect).at
        }),
{
}

/// A session that was never tried is due at once, and its first failure waits for two
/// seconds.
pub proof fn first_attempt_is_due_at_once(now: u64, reconnect: Reconnect, due: bool)
    requires
        call_ensures(Reconnect::now, (now,), reconnect),
        call_ensures(Reconnect::is_due, (&reconnect, now), due),
    ensures
        due,
        reconnect.delay == 2_000_000_000,
{
}

/// Surfaces are redrawn once per refresh, within bounds: never more often than every
/// four milliseconds, and never more seldom than every thirty-three.
pub proof fn redraws_follow_the_refresh_rate(refresh_mhz: u32, interval: u64)
    requires
        call_ensures(redraw_interval, (refresh_mhz,), interval),
        refresh_mhz > 0,
    ensures
        4_000_000 <= interval <= 33_000_000,
        interval > 4_000_000 ==> interval * refresh_mhz <= 1_000_000_000_000,
        interval < 33_000_000 ==> (interval + 1) * refresh_mhz > 1_000_000_000_000,
{
    period_is_one_refresh(refresh_mhz);
}

/// Times keep their value in another unit.
pub proof fn units_keep_the_time(time_ms: u32, time_us: u64)
    requires
        call_ensures(ms_to_us, (time_ms,), time_us),
    ensures
        time_us == 1000 * time_ms,
{
}

/// Waiting for events ends in time, and not before: briefly where something is about to
/// happen; else not a millisecond past the first redraw or the first attempt to start
/// a session; and, where nothing comes up within half a second, only then. While there
/// is time left, there is some waiting.
pub proof fn waiting_ends_in_time(
    outputs: &[OutputSchedule],
    now: u64,
    timeout: i32,
    index: int,
)
    requires
        call_ensures(poll_timeout_ms, (outputs, now), timeout),
        0 <= index < outputs@.len(),
    ensures
        outputs@[index].retiring || outputs@[index].pending_present ==> timeout == 8,
        (forall|at: int|
            0 <= at < outputs@.len() ==> !(#[trigger] outputs@[at]).retiring
                && !outputs@[at].pending_present) ==> {
            &&& outputs@[index].next_redraw matches Some(deadline) ==> {
                &&& deadline <= now ==> timeout == 0
                &&& deadline > now ==> timeout * 1_000_000 < deadline - now + 1_000_000
            }
            &&& outputs@[index].awaits_session ==> {
                &&& outputs@[index].reconnect_at <= now ==> timeout == 0
                &&& outputs@[index].reconnect_at > now ==> timeout * 1_000_000
                    < outputs@[index].reconnect_at - now + 1_000_000
            }
            &&& (forall|at: int|
                0 <= at < outputs@.len() ==> ((#[trigger] outputs@[at]).next_redraw matches Some(
                    deadline,
                ) ==> deadline >= now + 500_000_000) && (outputs@[at].awaits_session
                    ==> outputs@[at].reconnect_at >= now + 500_000_000)) ==> timeout == 500
            &&& (forall|at: int|
                0 <= at < outputs@.len() ==> ((#[trigger] outputs@[at]).next_redraw matches Some(
                    deadline,
                ) ==> deadline > now) && (outputs@[at].awaits_session ==> outputs@[at].reconnect_at
                    > now)) ==> timeout > 0
        },
{
    poll_does_not_oversleep(outputs@, now, index);
    waits_are_not_negative(outputs@, now);
    if outputs@[index].next_redraw is Some {
        redraw_bounds_the_wait(outputs@, now, index);
    }
    if outputs@[index].awaits_session {
        reconnect_bounds_the_wait(outputs@, now, index);
    }
    if forall|at: int|
        0 <= at < outputs@.len() ==> ((#[trigger] outputs@[at]).next_redraw matches Some(deadline)
            ==> deadline >= now + 500_000_000) && (outputs@[at].awaits_session
            ==> outputs@[at].reconnect_at >= now + 500_000_000) {
        nothing_comes_up_before(outputs@, now, 500_000_000);
    }
    if forall|at: int|
        0 <= at < outputs@.len() ==> ((#[trigger] outputs@[at]).next_redraw matches Some(deadline)
            ==> deadline > now) && (outputs@[at].awaits_session ==> outputs@[at].reconnect_at
            > now) {
        assert forall|at: int| 0 <= at < outputs@.len() implies ((
        #[trigger] outputs@[at]).next_redraw matches Some(deadline) ==> deadline >= now + 1) && (
        outputs@[at].awaits_session ==> outputs@[at].reconnect_at >= now + 1) by {}
        nothing_comes_up_before(outputs@, now, 1);
    }
}

proof fn nothing_comes_up_before(outputs: Seq<OutputSchedule>, now: u64, time: int)
    requires
        time > 0,
        forall|at: int|
            0 <= at < outputs.len() ==> ((#[trigger] outputs[at]).next_redraw matches Some(deadline)
                ==> deadline >= now + time) && (outputs[at].awaits_session
                ==> outputs[at].reconnect_at >= now + time),
    ensures
        until_redraw(outputs, now) is Some ==> until_redraw(outputs, now)->0 >= time,
        until_reconnect(outputs, now) is Some ==> until_reconnect(outputs, now)->0 >= time,
    decreases outputs.len(),
{
    if outputs.len() > 0 {
        let last = outputs.len() - 1;
        assert(outputs[last] == outputs.last());
        assert forall|at: int| 0 <= at < outputs.drop_last().len() implies ((
        #[trigger] outputs.drop_last()[at]).next_redraw matches Some(deadline) ==> deadline >= now
            + time) && (outputs.drop_last()[at].awaits_session
            ==> outputs.drop_last()[at].reconnect_at >= now + time) by {
            assert(outputs.drop_last()[at] == outputs[at]);
        }
        nothing_comes_up_before(outputs.drop_last(), now, time);
    }
}

/// Waiting does not end early: while nothing is about to happen and nothing comes up
/// before some time, up to half a second, it lasts that long, but for the part of a
/// millisecond; with nothing at all to wait for it lasts half a second.
pub proof fn waiting_does_not_end_early(
    outputs: &[OutputSchedule],
    now: u64,
    timeout: i32,
    time: int,
)
    requires
        call_ensures(poll_timeout_ms, (outputs, now), timeout),
        0 < time <= 500_000_000,
        forall|at: int|
            0 <= at < outputs@.len() ==> !(#[trigger] outputs@[at]).retiring
                && !outputs@[at].pending_present && (outputs@[at].next_redraw matches Some(deadline)
                ==> deadline >= now + time) && (outputs@[at].awaits_session
                ==> outputs@[at].reconnect_at >= now + time),
    ensures
        timeout >= time / 1_000_000,
        timeout >= 1,
        timeout <= 500,
        outputs@.len() == 0 ==> timeout == 500,
{
    nothing_comes_up_before(outputs@, now, time);
    assert(idle_wait(outputs@, now) >= time);
}

} // verus!
