//! Zoom: its limits, its levels, and zooming by wheel and by motion.

use crate::number;
use crate::number::Number;
use vstd::prelude::*;

verus! {

/// The bits of 1e-9, below which two zooms count as the same.
pub const HAIR: u64 = 0x3E11_2E0B_E826_D695;

/// The bits of 2, the upward travel that is ignored at the smallest zoom.
pub const HTZ_FLOOR_DEADZONE: u64 = 0x4000_0000_0000_0000;

/// The number of levels above the smallest zoom.
pub const LEVELS: u8 = 9;

/// The zoom and the ignored travel after vertical motion with the hold-to-zoom
/// key down.
///
/// At the smallest zoom, moving down holds it and starts the ignored travel
/// afresh, and moving up only adds to the travel until that reaches the dead
/// zone. Below the smallest zoom, moving down changes nothing. In every other
/// case the zoom moves, within its limits.
pub open spec fn held_zoom(
    zoom: Number,
    min: Number,
    max: Number,
    dy: Number,
    gap: Number,
    travel: Number,
    moved: Number,
) -> (Number, Number) {
    let zero = number::num(number::ZERO);
    let at_floor = gap.at_most(number::num(HAIR));
    if at_floor && zero.below(dy) {
        (min, zero)
    } else if at_floor && dy.below(zero) && !number::num(HTZ_FLOOR_DEADZONE).at_most(travel) {
        (min, travel)
    } else if !at_floor && zoom.below(min) && zero.below(dy) {
        (zoom, zero)
    } else {
        (moved.clamped(min, max), zero)
    }
}

/// One step of hold-to-zoom. `dy` is the vertical motion, `gap` the distance of
/// the zoom from its minimum, `travel` the upward travel ignored so far and
/// with this motion, `moved` the zoom that the motion alone would give.
pub fn htz_floor_zoom(
    zoom: Number,
    min: Number,
    max: Number,
    dy: Number,
    gap: Number,
    travel: Number,
    moved: Number,
) -> (r: (Number, Number))
    requires
        min.at_most(max),
    ensures
        r == held_zoom(zoom, min, max, dy, gap, travel, moved),
{
    let zero: Number = Number { bits: number::ZERO };
    let at_floor: bool = gap.le(Number { bits: HAIR });
    if at_floor && zero.lt(dy) {
        (min, zero)
    } else if at_floor && dy.lt(zero) {
        if (Number { bits: HTZ_FLOOR_DEADZONE }).le(travel) {
            (moved.clamp(min, max), zero)
        } else {
            (min, travel)
        }
    } else if zoom.lt(min) && zero.lt(dy) {
        (zoom, zero)
    } else {
        (moved.clamp(min, max), zero)
    }
}

/// Jitter at the smallest zoom does not move it: motion down never does, and
/// motion up does not before it has added up to the dead zone.
pub proof fn floor_is_held_against_jitter(
    zoom: Number,
    min: Number,
    max: Number,
    dy: Number,
    gap: Number,
    travel: Number,
    moved: Number,
)
    requires
        gap.at_most(number::num(HAIR)),
        !dy.nan(),
        dy.rank() != 0,
        dy.below(number::num(number::ZERO)) ==> travel.below(number::num(HTZ_FLOOR_DEADZONE)),
    ensures
        held_zoom(zoom, min, max, dy, gap, travel, moved).0 == min,
{
}

/// Hold-to-zoom keeps the zoom within its limits, from any zoom that is.
pub proof fn held_zoom_stays_in_limits(
    zoom: Number,
    min: Number,
    max: Number,
    dy: Number,
    gap: Number,
    travel: Number,
    moved: Number,
)
    requires
        min.at_most(max),
        min.at_most(zoom),
        zoom.at_most(max),
        !moved.nan(),
    ensures
        min.at_most(held_zoom(zoom, min, max, dy, gap, travel, moved).0),
        held_zoom(zoom, min, max, dy, gap, travel, moved).0.at_most(max),
{
}

/// The nearest of the first `n` levels above a zoom that is below `max`, or else
/// `max`. Levels that count as the zoom that is set are passed over.
pub open spec fn next_up(
    zoom: Number,
    max: Number,
    levels: Seq<Number>,
    near: Seq<bool>,
    n: int,
) -> Number
    decreases n,
{
    if n <= 0 {
        max
    } else {
        let best = next_up(zoom, max, levels, near, n - 1);
        let level = levels[n - 1];
        if zoom.below(level) && level.below(best) && !near[n - 1] {
            level
        } else {
            best
        }
    }
}

/// The nearest of the first `n` levels below a zoom that is above `min`, or else
/// `min`. Levels that count as the zoom that is set are passed over.
pub open spec fn next_down(
    zoom: Number,
    min: Number,
    levels: Seq<Number>,
    near: Seq<bool>,
    n: int,
) -> Number
    decreases n,
{
    if n <= 0 {
        min
    } else {
        let best = next_down(zoom, min, levels, near, n - 1);
        let level = levels[n - 1];
        if level.below(zoom) && best.below(level) && !near[n - 1] {
            level
        } else {
            best
        }
    }
}

/// The zoom after a notch of the wheel over the levels between the smallest and
/// the largest zoom. Below the smallest zoom, zooming out stays and zooming in
/// returns to it. A zoom above the largest one counts as that.
pub open spec fn wheel_next(
    zoom: Number,
    min: Number,
    max: Number,
    levels: Seq<Number>,
    near: Seq<bool>,
    zoom_in: bool,
) -> Number {
    let from = zoom.lesser(max);
    if zoom.below(min) {
        if zoom_in {
            min
        } else {
            zoom
        }
    } else if zoom_in {
        next_up(from, max, levels, near, levels.len() as int)
    } else {
        next_down(from, min, levels, near, levels.len() as int)
    }
}

/// The next zoom for a notch of the wheel that walks the levels. `levels` are the
/// zooms of the levels 1 to 8; below them comes the smallest zoom, so that it can
/// always be reached, and above them the largest. `near` says which of them count
/// as the zoom that is set: a notch goes on to the one behind it.
pub fn wheel_levels_next(
    zoom: Number,
    min: Number,
    max: Number,
    levels: &Vec<Number>,
    near: &Vec<bool>,
    zoom_in: bool,
) -> (r: Number)
    requires
        levels@.len() == LEVELS - 1,
        near@.len() == LEVELS - 1,
    ensures
        r == wheel_next(zoom, min, max, levels@, near@, zoom_in),
{
    if zoom.lt(min) {
        return if zoom_in {
            min
        } else {
            zoom
        };
    }
    let from: Number = zoom.min(max);
    let mut best: Number = if zoom_in {
        max
    } else {
        min
    };
    let mut i: usize = 0;
    while i < levels.len()
        invariant
            i <= levels@.len(),
            near@.len() == levels@.len(),
            best == if zoom_in {
                next_up(from, max, levels@, near@, i as int)
            } else {
                next_down(from, min, levels@, near@, i as int)
            },
        decreases levels@.len() - i,
    {
        let level: Number = levels[i];
        let ahead: bool = if zoom_in {
            from.lt(level) && level.lt(best)
        } else {
            level.lt(from) && best.lt(level)
        };
        if ahead && !near[i] {
            best = level;
        }
        i += 1;
    }
    best
}

proof fn lemma_next_up(zoom: Number, max: Number, levels: Seq<Number>, near: Seq<bool>, n: int)
    requires
        zoom.at_most(max),
        0 <= n <= levels.len(),
    ensures
        zoom.at_most(next_up(zoom, max, levels, near, n)),
        next_up(zoom, max, levels, near, n).at_most(max),
        zoom.below(max) ==> zoom.below(next_up(zoom, max, levels, near, n)),
        max.at_most(zoom) ==> next_up(zoom, max, levels, near, n) == max,
        forall|i: int|
            0 <= i < n && zoom.below(#[trigger] levels[i]) && !near[i] ==> next_up(
                zoom,
                max,
                levels,
                near,
                n,
            ).at_most(levels[i]),
    decreases n,
{
    if n > 0 {
        lemma_next_up(zoom, max, levels, near, n - 1);
    }
}

proof fn lemma_next_down(zoom: Number, min: Number, levels: Seq<Number>, near: Seq<bool>, n: int)
    requires
        min.at_most(zoom),
        0 <= n <= levels.len(),
    ensures
        min.at_most(next_down(zoom, min, levels, near, n)),
        next_down(zoom, min, levels, near, n).at_most(zoom),
        min.below(zoom) ==> next_down(zoom, min, levels, near, n).below(zoom),
        zoom.at_most(min) ==> next_down(zoom, min, levels, near, n) == min,
        next_down(zoom, min, levels, near, n) == min || between(
            levels,
            min,
            zoom,
            next_down(zoom, min, levels, near, n),
            n,
        ),
        forall|i: int|
            0 <= i < n && (#[trigger] levels[i]).below(zoom) && !near[i] ==> levels[i].at_most(
                next_down(zoom, min, levels, near, n),
            ),
    decreases n,
{
    if n > 0 {
        lemma_next_down(zoom, min, levels, near, n - 1);
        let r = next_down(zoom, min, levels, near, n);
        if r != min {
            if r == levels[n - 1] && r.below(zoom) && min.below(r) {
                assert(between(levels, min, zoom, r, n));
            } else {
                let i = choose|i: int|
                    0 <= i < n - 1 && r == #[trigger] levels[i] && min.below(r) && r.below(zoom);
                assert(levels[i] == r);
            }
        }
    }
}

/// Whether a zoom is one of the first levels, strictly between two others.
spec fn between(levels: Seq<Number>, low: Number, high: Number, zoom: Number, n: int) -> bool {
    exists|i: int|
        0 <= i < n && zoom == #[trigger] levels[i] && low.below(zoom) && zoom.below(high)
}

/// The wheel never leaves the limits, and a notch always moves the zoom in its
/// direction until the limit is reached. This holds whatever the levels are and
/// whichever of them count as the zoom that is set.
pub proof fn wheel_moves_in_its_direction(
    zoom: Number,
    min: Number,
    max: Number,
    levels: Seq<Number>,
    near: Seq<bool>,
)
    requires
        min.at_most(max),
        min.at_most(zoom),
    ensures
        ({
            let up = wheel_next(zoom, min, max, levels, near, true);
            let down = wheel_next(zoom, min, max, levels, near, false);
            &&& min.at_most(up) && up.at_most(max)
            &&& min.at_most(down) && down.at_most(max)
            &&& zoom.below(max) ==> zoom.below(up)
            &&& max.at_most(zoom) ==> up == max
            &&& min.below(zoom) ==> down.below(zoom)
            &&& zoom.at_most(min) ==> down == min
        }),
{
    let from = zoom.lesser(max);
    lemma_next_up(from, max, levels, near, levels.len() as int);
    lemma_next_down(from, min, levels, near, levels.len() as int);
}

/// A notch goes to the next level in its direction: it passes none that lies
/// that way and does not count as the zoom that is set.
pub proof fn wheel_snaps_to_the_next_level(
    zoom: Number,
    min: Number,
    max: Number,
    levels: Seq<Number>,
    near: Seq<bool>,
    i: int,
)
    requires
        min.at_most(zoom),
        zoom.at_most(max),
        0 <= i < levels.len(),
        !near[i],
    ensures
        zoom.below(levels[i]) ==> wheel_next(zoom, min, max, levels, near, true).at_most(levels[i]),
        levels[i].below(zoom) ==> levels[i].at_most(
            wheel_next(zoom, min, max, levels, near, false),
        ),
{
    lemma_next_up(zoom, max, levels, near, levels.len() as int);
    lemma_next_down(zoom, min, levels, near, levels.len() as int);
}

/// The zoom after some notches out. Each entry of `nears` tells which levels
/// count as the zoom that is set then.
pub open spec fn after_notches_out(
    zoom: Number,
    min: Number,
    max: Number,
    levels: Seq<Number>,
    nears: Seq<Seq<bool>>,
) -> Number
    decreases nears.len(),
{
    if nears.len() == 0 {
        zoom
    } else {
        wheel_next(
            after_notches_out(zoom, min, max, levels, nears.drop_last()),
            min,
            max,
            levels,
            nears.last(),
            false,
        )
    }
}

/// How many of the first `n` levels lie strictly between the smallest zoom and
/// another one.
spec fn levels_below(zoom: Number, min: Number, levels: Seq<Number>, n: int) -> int
    decreases n,
{
    if n <= 0 {
        0
    } else {
        levels_below(zoom, min, levels, n - 1) + if min.below(levels[n - 1]) && levels[n
            - 1].below(zoom) {
            1int
        } else {
            0
        }
    }
}

proof fn lemma_fewer_below(a: Number, b: Number, min: Number, levels: Seq<Number>, n: int)
    requires
        a.below(b),
        0 <= n <= levels.len(),
    ensures
        0 <= levels_below(a, min, levels, n) <= levels_below(b, min, levels, n) <= n,
        between(levels, min, b, a, n) ==> levels_below(a, min, levels, n) < levels_below(
            b,
            min,
            levels,
            n,
        ),
    decreases n,
{
    if n > 0 {
        lemma_fewer_below(a, b, min, levels, n - 1);
        if between(levels, min, b, a, n) && levels[n - 1] != a {
            let i = choose|i: int|
                0 <= i < n && a == #[trigger] levels[i] && min.below(a) && a.below(b);
            assert(levels[i] == a);
        }
    }
}

proof fn lemma_notches_out(
    zoom: Number,
    min: Number,
    max: Number,
    levels: Seq<Number>,
    nears: Seq<Seq<bool>>,
)
    requires
        min.at_most(max),
        min.at_most(zoom),
        1 <= nears.len(),
    ensures
        ({
            let r = after_notches_out(zoom, min, max, levels, nears);
            &&& min.at_most(r) && r.at_most(max)
            &&& r == min || levels_below(r, min, levels, levels.len() as int) + nears.len()
                <= levels.len()
        }),
    decreases nears.len(),
{
    let n = levels.len() as int;
    let before = after_notches_out(zoom, min, max, levels, nears.drop_last());
    if nears.len() > 1 {
        lemma_notches_out(zoom, min, max, levels, nears.drop_last());
    }
    let from = before.lesser(max);
    let r = next_down(from, min, levels, nears.last(), n);
    lemma_next_down(from, min, levels, nears.last(), n);
    if r != min {
        lemma_fewer_below(r, from, min, levels, n);
        assert(nears.len() > 1 ==> from == before);
    }
}

/// The smallest zoom can always be reached with the wheel: from any zoom at
/// least that, nine notches out end at exactly the smallest zoom, and further
/// ones stay there. This holds whatever the levels are.
pub proof fn wheel_reaches_the_smallest_zoom(
    zoom: Number,
    min: Number,
    max: Number,
    levels: Seq<Number>,
    nears: Seq<Seq<bool>>,
)
    requires
        min.at_most(max),
        min.at_most(zoom),
        levels.len() == LEVELS - 1,
        LEVELS <= nears.len(),
    ensures
        after_notches_out(zoom, min, max, levels, nears) == min,
{
    lemma_notches_out(zoom, min, max, levels, nears);
    let r = after_notches_out(zoom, min, max, levels, nears);
    if r != min {
        lemma_count(r, min, levels, levels.len() as int);
    }
}

proof fn lemma_count(zoom: Number, min: Number, levels: Seq<Number>, n: int)
    requires
        0 <= n,
    ensures
        0 <= levels_below(zoom, min, levels, n) <= n,
    decreases n,
{
    if n > 0 {
        lemma_count(zoom, min, levels, n - 1);
    }
}

/// The zoom readout: `0x` where the whole screen is shown smaller than life,
/// else the given number. `gap` is the distance of the zoom from `fit`, the
/// zoom at which the whole screen is shown.
pub fn zoom_readout(fit: Number, gap: Number, plain: String) -> (r: String)
    ensures
        r@ == (if fit.below(number::num(number::ONE)) && gap.below(number::num(HAIR)) {
            "0x"@
        } else {
            plain@
        }),
{
    if fit.lt(Number { bits: number::ONE }) && gap.lt(Number { bits: HAIR }) {
        "0x".to_owned()
    } else {
        plain
    }
}

/// Wherever the smallest zoom is not in the way, hold-to-zoom follows the motion:
/// the zoom is what the motion gives, as far as that lies within the limits.
pub proof fn held_zoom_follows_the_motion(
    zoom: Number,
    min: Number,
    max: Number,
    dy: Number,
    gap: Number,
    travel: Number,
    moved: Number,
)
    requires
        min.at_most(moved),
        moved.at_most(max),
    ensures
        ({
            let (z, dead) = held_zoom(zoom, min, max, dy, gap, travel, moved);
            let zero = number::num(0);
            let hair = number::num(0x3E11_2E0B_E826_D695);
            let two = number::num(0x4000_0000_0000_0000);
            &&& hair.below(gap) && min.at_most(zoom) ==> z == moved && dead == zero
            &&& hair.below(gap) && zoom.below(min) && dy.below(zero) ==> z == moved && dead == zero
            &&& hair.below(gap) && zoom.below(min) && zero.below(dy) ==> z == zoom && dead == zero
            &&& gap.at_most(hair) && zero.below(dy) ==> z == min && dead == zero
            &&& gap.at_most(hair) && dy.below(zero) && travel.below(two) ==> z == min && dead
                == travel
            &&& gap.at_most(hair) && dy.below(zero) && two.at_most(travel) ==> z == moved && dead
                == zero
        }),
{
}

proof fn lemma_next_is_a_level(
    zoom: Number,
    end: Number,
    levels: Seq<Number>,
    near: Seq<bool>,
    n: int,
)
    requires
        0 <= n <= levels.len(),
    ensures
        is_stop(levels, near, end, next_up(zoom, end, levels, near, n), n),
        is_stop(levels, near, end, next_down(zoom, end, levels, near, n), n),
    decreases n,
{
    if n > 0 {
        lemma_next_is_a_level(zoom, end, levels, near, n - 1);
        let up = next_up(zoom, end, levels, near, n);
        let down = next_down(zoom, end, levels, near, n);
        let up_before = next_up(zoom, end, levels, near, n - 1);
        let down_before = next_down(zoom, end, levels, near, n - 1);
        if up == up_before {
            if up != end {
                let i = choose|i: int| 0 <= i < n - 1 && up == #[trigger] levels[i] && !near[i];
                assert(0 <= i < n && up == levels[i] && !near[i]);
            }
        } else {
            assert(up == levels[n - 1] && !near[n - 1]);
        }
        if down == down_before {
            if down != end {
                let i = choose|i: int| 0 <= i < n - 1 && down == #[trigger] levels[i] && !near[i];
                assert(0 <= i < n && down == levels[i] && !near[i]);
            }
        } else {
            assert(down == levels[n - 1] && !near[n - 1]);
        }
    }
}

/// Whether a zoom is a limit, or one of the first levels that do not count as
/// the zoom that is set.
pub open spec fn is_stop(
    levels: Seq<Number>,
    near: Seq<bool>,
    end: Number,
    zoom: Number,
    n: int,
) -> bool {
    zoom == end || exists|i: int| 0 <= i < n && zoom == #[trigger] levels[i] && !near[i]
}

/// A notch of the wheel stops nowhere but at a level or at a limit.
pub proof fn wheel_stops_at_levels(
    zoom: Number,
    min: Number,
    max: Number,
    levels: Seq<Number>,
    near: Seq<bool>,
)
    requires
        min.at_most(zoom),
        zoom.at_most(max),
    ensures
        is_stop(
            levels,
            near,
            max,
            wheel_next(zoom, min, max, levels, near, true),
            levels.len() as int,
        ),
        is_stop(
            levels,
            near,
            min,
            wheel_next(zoom, min, max, levels, near, false),
            levels.len() as int,
        ),
{
    lemma_next_is_a_level(zoom, max, levels, near, levels.len() as int);
    lemma_next_is_a_level(zoom, min, levels, near, levels.len() as int);
}

/// From below the smallest zoom a notch in goes to it, and a notch out goes
/// nowhere.
pub proof fn wheel_returns_to_the_smallest_zoom(
    zoom: Number,
    min: Number,
    max: Number,
    levels: Seq<Number>,
    near: Seq<bool>,
)
    requires
        zoom.below(min),
    ensures
        wheel_next(zoom, min, max, levels, near, true) == min,
        wheel_next(zoom, min, max, levels, near, false) == zoom,
{
}

/// At the smallest zoom, motion that is only sideways zooms by nothing that is
/// ignored: the zoom is what the motion gives, and no travel is kept.
pub proof fn sideways_motion_is_not_ignored(
    zoom: Number,
    min: Number,
    max: Number,
    gap: Number,
    travel: Number,
    moved: Number,
)
    requires
        min.at_most(moved),
        moved.at_most(max),
        min.at_most(zoom),
    ensures
        held_zoom(zoom, min, max, number::num(0), gap, travel, moved) == (moved, number::num(0)),
{
}

} // verus!
