//! Deadlines: when to redraw, when a held key repeats, how long to wait.
//!
//! A moment is a number of nanoseconds since some start; a wait is a number of
//! nanoseconds.

use vstd::arithmetic::div_mod::lemma_fundamental_div_mod;
use vstd::prelude::*;

verus! {

/// Shortest time between two redraws for pointer motion.
pub const MOTION_REDRAW_INTERVAL: u64 = 8_333_000;

/// How long the pointer rests before the picture settles.
pub const CURSOR_SETTLE_DELAY: u64 = 150_000_000;

/// Time between two steps of the outline animation.
pub const MINIMAP_PULSE_INTERVAL: u64 = 16_000_000;

/// How long a nudge key is held before it repeats.
pub const NUDGE_REPEAT_DELAY: u64 = 400_000_000;

/// Time between two repeats of a nudge key.
pub const NUDGE_REPEAT_INTERVAL: u64 = 33_000_000;

/// How long a notice is shown.
pub const NOTICE_TIME: u64 = 4_000_000_000;

/// How long the pointer rests on a button before its tooltip shows.
pub const TOOLTIP_DELAY: u64 = 1_000_000_000;

/// How long the launch hint is shown.
pub const LAUNCH_HINT_TIME: u64 = 4_000_000_000;

/// The time from `since` to `now`, none where `since` is later.
pub open spec fn elapsed(since: u64, now: u64) -> int {
    if now >= since {
        now - since
    } else {
        0
    }
}

pub fn time_since(since: u64, now: u64) -> (r: u64)
    ensures
        r == elapsed(since, now),
{
    if now >= since {
        now - since
    } else {
        0
    }
}

/// The rest of a wait of `delay` that began at `since`.
pub open spec fn rest(delay: u64, since: u64, now: u64) -> int {
    if elapsed(since, now) >= delay {
        0
    } else {
        delay - elapsed(since, now)
    }
}

pub fn time_left(delay: u64, since: u64, now: u64) -> (r: u64)
    ensures
        r == rest(delay, since, now),
{
    let e: u64 = time_since(since, now);
    if e >= delay {
        0
    } else {
        delay - e
    }
}

/// Whether a redraw for pointer motion is due: for the first one always, else
/// once the interval has passed.
pub open spec fn redraw_due(last_draw_at: Option<u64>, now: u64) -> bool {
    match last_draw_at {
        None => true,
        Some(last) => elapsed(last, now) >= MOTION_REDRAW_INTERVAL,
    }
}

pub fn motion_redraw_due(last_draw_at: Option<u64>, now: u64) -> (r: bool)
    ensures
        r == redraw_due(last_draw_at, now),
{
    match last_draw_at {
        None => true,
        Some(last) => time_since(last, now) >= MOTION_REDRAW_INTERVAL,
    }
}

/// Moves a deadline past `now` by whole intervals: the first moment after `now`
/// on the grid that starts at `next_at`.
pub fn advance_repeat_deadline(now: u64, next_at: u64, interval: u64) -> (r: u64)
    requires
        now >= next_at ==> 0 < interval && now + interval <= u64::MAX,
    ensures
        now < next_at ==> r == next_at,
        now < r,
        now >= next_at ==> r <= now + interval,
        now >= next_at ==> (r - next_at) % (interval as int) == 0,
{
    if now < next_at {
        return next_at;
    }
    let late: u64 = (now - next_at) % interval;
    assert(late <= now - next_at && late < interval) by (nonlinear_arith)
        requires
            late == (now - next_at) % (interval as int),
            now >= next_at,
            0 < interval,
    ;
    let r: u64 = now - late + interval;
    proof {
        let d = now - next_at;
        let i = interval as int;
        lemma_fundamental_div_mod(d, i);
        let q = d / i;
        assert(r - next_at == i * q + i);
        assert(i * q + i == (q + 1) * i) by (nonlinear_arith);
        vstd::arithmetic::div_mod::lemma_mod_multiples_basic(q + 1, i);
    }
    r
}

/// The earlier of two waits, where there are any.
pub open spec fn earlier(a: Option<u64>, b: Option<u64>) -> Option<u64> {
    match (a, b) {
        (Some(x), Some(y)) => if y < x {
            b
        } else {
            a
        },
        (None, _) => b,
        (_, None) => a,
    }
}

fn sooner(a: Option<u64>, b: Option<u64>) -> (r: Option<u64>)
    ensures
        r == earlier(a, b),
{
    match (a, b) {
        (Some(x), Some(y)) => if y < x {
            b
        } else {
            a
        },
        (None, _) => b,
        (_, None) => a,
    }
}

/// When pictures were drawn and are owed.
#[derive(Clone, Copy, Debug, PartialEq, Eq, Structural)]
pub struct Timers {
    /// The last pointer motion.
    pub last_motion_at: Option<u64>,
    /// The last redraw for pointer motion.
    pub last_draw_at: Option<u64>,
    /// A redraw for pointer motion was put off.
    pub redraw_pending: bool,
    /// The picture has to settle once the pointer rests.
    pub settle_pending: bool,
}

impl Timers {
    pub fn new() -> (r: Timers)
        ensures
            r == (Timers {
                last_motion_at: None,
                last_draw_at: None,
                redraw_pending: false,
                settle_pending: false,
            }),
    {
        Timers {
            last_motion_at: None,
            last_draw_at: None,
            redraw_pending: false,
            settle_pending: false,
        }
    }

    /// Asks for a redraw for pointer motion. Draws now where one is due, else
    /// puts it off.
    pub fn request_motion_redraw(&mut self, now: u64) -> (draw: bool)
        ensures
            draw == redraw_due(old(self).last_draw_at, now),
            *final(self) == (if draw {
                Timers { redraw_pending: false, last_draw_at: Some(now), ..*old(self) }
            } else {
                Timers { redraw_pending: true, ..*old(self) }
            }),
    {
        if motion_redraw_due(self.last_draw_at, now) {
            self.redraw_pending = false;
            self.last_draw_at = Some(now);
            true
        } else {
            self.redraw_pending = true;
            false
        }
    }

    /// Whether the redraw that was put off is due now; it then counts as done.
    pub fn draw_if_motion_pending(&mut self, now: u64) -> (draw: bool)
        ensures
            draw == (old(self).redraw_pending && redraw_due(old(self).last_draw_at, now)),
            *final(self) == (if draw {
                Timers { redraw_pending: false, last_draw_at: Some(now), ..*old(self) }
            } else {
                *old(self)
            }),
    {
        if self.redraw_pending && motion_redraw_due(self.last_draw_at, now) {
            self.redraw_pending = false;
            self.last_draw_at = Some(now);
            true
        } else {
            false
        }
    }

    /// Whether the picture settles now; it then counts as settled.
    pub fn draw_if_settle_due(&mut self, now: u64) -> (draw: bool)
        ensures
            draw == (old(self).settle_pending && match old(self).last_motion_at {
                None => true,
                Some(last) => elapsed(last, now) >= CURSOR_SETTLE_DELAY,
            }),
            *final(self) == (if draw {
                Timers { settle_pending: false, ..*old(self) }
            } else {
                *old(self)
            }),
    {
        let due: bool = match self.last_motion_at {
            None => true,
            Some(last) => time_since(last, now) >= CURSOR_SETTLE_DELAY,
        };
        if self.settle_pending && due {
            self.settle_pending = false;
            true
        } else {
            false
        }
    }

    /// How long until the redraw that was put off is due.
    pub open spec fn motion_wait(self, now: u64) -> Option<u64> {
        if self.redraw_pending {
            Some(
                match self.last_draw_at {
                    None => 0u64,
                    Some(last) => rest(MOTION_REDRAW_INTERVAL, last, now) as u64,
                },
            )
        } else {
            None
        }
    }

    /// How long until the picture settles.
    pub open spec fn settle_wait(self, now: u64) -> Option<u64> {
        if self.settle_pending {
            Some(
                match self.last_motion_at {
                    None => CURSOR_SETTLE_DELAY,
                    Some(last) => rest(CURSOR_SETTLE_DELAY, last, now) as u64,
                },
            )
        } else {
            None
        }
    }

    /// How long the event loop may sleep: to the earliest of the next repeat of
    /// a held key, the next step of the outline animation, the redraw that was
    /// put off, and the settling. With none of them, for ever.
    pub fn poll_timeout(&self, repeat_at: Option<u64>, minimap_visible: bool, now: u64) -> (r: Option<
        u64,
    >)
        ensures
            r == earlier(
                earlier(
                    earlier(repeat_wait(repeat_at, now), pulse_wait(minimap_visible)),
                    self.motion_wait(now),
                ),
                self.settle_wait(now),
            ),
    {
        let repeat: Option<u64> = match repeat_at {
            Some(at) => Some(if now >= at { 0 } else { at - now }),
            None => None,
        };
        let pulse: Option<u64> = if minimap_visible { Some(MINIMAP_PULSE_INTERVAL) } else { None };
        let motion: Option<u64> = if self.redraw_pending {
            Some(
                match self.last_draw_at {
                    None => 0,
                    Some(last) => time_left(MOTION_REDRAW_INTERVAL, last, now),
                },
            )
        } else {
            None
        };
        let settle: Option<u64> = if self.settle_pending {
            Some(
                match self.last_motion_at {
                    None => CURSOR_SETTLE_DELAY,
                    Some(last) => time_left(CURSOR_SETTLE_DELAY, last, now),
                },
            )
        } else {
            None
        };
        sooner(sooner(sooner(repeat, pulse), motion), settle)
    }
}

/// How long until a held key repeats.
pub open spec fn repeat_wait(repeat_at: Option<u64>, now: u64) -> Option<u64> {
    match repeat_at {
        Some(at) => Some(
            if now >= at {
                0u64
            } else {
                (at - now) as u64
            },
        ),
        None => None,
    }
}

/// How long until the next step of the outline animation.
pub open spec fn pulse_wait(minimap_visible: bool) -> Option<u64> {
    if minimap_visible {
        Some(MINIMAP_PULSE_INTERVAL)
    } else {
        None
    }
}

/// The event loop never sleeps past a deadline, and sleeps for ever only where
/// there is none.
pub proof fn sleep_ends_at_every_deadline(
    t: Timers,
    repeat_at: Option<u64>,
    minimap_visible: bool,
    now: u64,
)
    ensures
        ({
            let r = earlier(
                earlier(
                    earlier(repeat_wait(repeat_at, now), pulse_wait(minimap_visible)),
                    t.motion_wait(now),
                ),
                t.settle_wait(now),
            );
            &&& repeat_wait(repeat_at, now) matches Some(w) ==> r is Some && r->0 <= w
            &&& pulse_wait(minimap_visible) matches Some(w) ==> r is Some && r->0 <= w
            &&& t.motion_wait(now) matches Some(w) ==> r is Some && r->0 <= w
            &&& t.settle_wait(now) matches Some(w) ==> r is Some && r->0 <= w
            &&& r is None <==> (repeat_at is None && !minimap_visible && !t.redraw_pending
                && !t.settle_pending)
        }),
{
}

/// Two redraws for pointer motion are at least the interval apart, whether
/// asked for or put off.
pub proof fn motion_redraws_keep_their_distance(last: u64, now: u64)
    requires
        redraw_due(Some(last), now),
    ensures
        now >= last + MOTION_REDRAW_INTERVAL,
{
}

/// Whether something that began at `since` is still within `span` of its start.
pub fn still_fresh(since: u64, span: u64, now: u64) -> (r: bool)
    ensures
        r == (elapsed(since, now) < span),
{
    time_since(since, now) < span
}

/// A redraw for motion is due after 8.333 ms, and at once where there was none.
pub proof fn motion_redraws_come_after_their_interval(last: u64, now: u64)
    ensures
        redraw_due(None, now),
        now - last >= 8_333_000 ==> redraw_due(Some(last), now),
        now - last < 8_333_000 ==> !redraw_due(Some(last), now),
{
}

/// A wait is over once its time has passed, and lasts exactly that long.
pub proof fn waits_last_their_time(delay: u64, since: u64, now: u64)
    requires
        since <= now,
    ensures
        elapsed(since, now) == now - since,
        now - since < delay ==> now + rest(delay, since, now) == since + delay,
        now - since >= delay ==> rest(delay, since, now) == 0,
{
}

/// The waits of the event loop end when what they wait for is due: a put-off
/// redraw 8.333 ms after the last one, the settling 150 ms after the last
/// motion, a held key at its moment, the outline every 16 ms.
pub proof fn waits_end_when_due(t: Timers, at: u64, now: u64)
    ensures
        t.redraw_pending ==> (t.last_draw_at matches Some(last) ==> last <= now ==> (t.motion_wait(
            now,
        ) matches Some(w) && (now - last < 8_333_000 ==> now + w == last + 8_333_000) && (now - last
            >= 8_333_000 ==> w == 0))),
        t.redraw_pending && t.last_draw_at is None ==> t.motion_wait(now) == Some(0u64),
        !t.redraw_pending ==> t.motion_wait(now) is None,
        t.settle_pending ==> (t.last_motion_at matches Some(last) ==> last <= now
            ==> (t.settle_wait(now) matches Some(w) && (now - last < 150_000_000 ==> now + w == last
            + 150_000_000) && (now - last >= 150_000_000 ==> w == 0))),
        t.settle_pending && t.last_motion_at is None ==> t.settle_wait(now) == Some(
            150_000_000u64,
        ),
        !t.settle_pending ==> t.settle_wait(now) is None,
        now <= at ==> repeat_wait(Some(at), now) == Some((at - now) as u64),
        at <= now ==> repeat_wait(Some(at), now) == Some(0u64),
        repeat_wait(None, now) is None,
        pulse_wait(true) == Some(16_000_000u64),
        pulse_wait(false) is None,
{
}

/// Of two waits the shorter counts, and one counts where there is only one.
pub proof fn earlier_wait_counts(a: u64, b: u64)
    ensures
        a <= b ==> earlier(Some(a), Some(b)) == Some(a) && earlier(Some(b), Some(a)) == Some(a),
        earlier(Some(a), None) == Some(a),
        earlier(None, Some(a)) == Some(a),
        earlier(None, None) is None,
{
}

/// How long things last: a nudge key repeats after 0.4 s and then 33 ms apart, the
/// outline moves every 16 ms, a tooltip comes after a second, and notices and the
/// launch hint stay for four.
pub proof fn times_of_the_magnifier()
    ensures
        NUDGE_REPEAT_DELAY == 400_000_000,
        NUDGE_REPEAT_INTERVAL == 33_000_000,
        MINIMAP_PULSE_INTERVAL == 16_000_000,
        TOOLTIP_DELAY == 1_000_000_000,
        NOTICE_TIME == 4_000_000_000,
        LAUNCH_HINT_TIME == 4_000_000_000,
        MOTION_REDRAW_INTERVAL == 8_333_000,
        CURSOR_SETTLE_DELAY == 150_000_000,
{
}

} // verus!
