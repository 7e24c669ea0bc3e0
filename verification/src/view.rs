//! Where the view is centred, and how it is kept on the captured frame.
//!
//! Positions are `(x, y)` pairs of [`Number`]s in capture pixels. The middle of
//! the view is where the magnified pointer sits, so it must stay on the frame.

use crate::number;
use crate::number::Number;
use vstd::prelude::*;

verus! {

/// A position.
pub type Point = (Number, Number);

/// The bits of 2: how near the view must be to an edge to be held there.
pub const WALL_HOLD_EPS: u64 = 0x4000_0000_0000_0000;

/// The bits of 4: how near the pointer must be to an edge of the screen.
pub const WALL_HOLD_MARGIN_LOGICAL: u64 = 0x4010_0000_0000_0000;

/// A frame has a size: two numbers, none of them negative.
pub open spec fn valid_bounds(bounds: Point) -> bool {
    &&& number::num(number::ZERO).at_most(bounds.0)
    &&& number::num(number::ZERO).at_most(bounds.1)
}

/// The position lies on a frame of the given size.
pub open spec fn on_frame(pos: Point, bounds: Point) -> bool {
    &&& number::num(number::ZERO).at_most(pos.0)
    &&& pos.0.at_most(bounds.0)
    &&& number::num(number::ZERO).at_most(pos.1)
    &&& pos.1.at_most(bounds.1)
}

/// The position brought onto the frame.
pub open spec fn clamped_to(pos: Point, bounds: Point) -> Point {
    (
        pos.0.clamped(number::num(number::ZERO), bounds.0),
        pos.1.clamped(number::num(number::ZERO), bounds.1),
    )
}

/// Brings a position onto the captured frame.
pub fn clamp_to_capture_bounds(pos: Point, bounds: Point) -> (r: Point)
    requires
        valid_bounds(bounds),
    ensures
        r == clamped_to(pos, bounds),
{
    let zero: Number = Number { bits: number::ZERO };
    (pos.0.clamp(zero, bounds.0), pos.1.clamp(zero, bounds.1))
}

/// The middle of the view never leaves the frame, and pushing past an edge
/// lands exactly on it.
pub proof fn view_stays_on_frame(pos: Point, bounds: Point)
    requires
        valid_bounds(bounds),
        !pos.0.nan(),
        !pos.1.nan(),
    ensures
        on_frame(clamped_to(pos, bounds), bounds),
        bounds.0.at_most(pos.0) ==> clamped_to(pos, bounds).0.rank() == bounds.0.rank(),
        pos.0.at_most(number::num(number::ZERO)) ==> clamped_to(pos, bounds).0.rank() == 0,
        on_frame(pos, bounds) ==> clamped_to(pos, bounds) == pos,
{
}

/// Whether a coordinate of the view is at an edge of the frame.
pub open spec fn at_wall(v: Number, bound: Number) -> bool {
    v.at_most(number::num(number::ZERO)) || bound.at_most(v)
}

/// The view after a step towards the hand: an axis at an edge stays, the other
/// goes to the target, and both are brought onto the frame.
pub open spec fn corrected(view: Point, target: Point, bounds: Point) -> Point {
    clamped_to(
        (
            if at_wall(view.0, bounds.0) {
                view.0
            } else {
                target.0
            },
            if at_wall(view.1, bounds.1) {
                view.1
            } else {
                target.1
            },
        ),
        bounds,
    )
}

fn touches_wall(v: Number, bound: Number) -> (r: bool)
    ensures
        r == at_wall(v, bound),
{
    v.le(Number { bits: number::ZERO }) || bound.le(v)
}

/// Moves the view towards the content under the hand, unless an edge of the
/// frame holds it.
pub fn correct_toward_hand(view: Point, target: Point, bounds: Point) -> (r: Point)
    requires
        valid_bounds(bounds),
    ensures
        r == corrected(view, target, bounds),
{
    let x: Number = if touches_wall(view.0, bounds.0) { view.0 } else { target.0 };
    let y: Number = if touches_wall(view.1, bounds.1) { view.1 } else { target.1 };
    clamp_to_capture_bounds((x, y), bounds)
}

/// A view at an edge of the frame stays at it, whatever the hand does: the
/// wall wins.
pub proof fn wall_wins(view: Point, target: Point, bounds: Point)
    requires
        valid_bounds(bounds),
        on_frame(view, bounds),
        !target.0.nan(),
        !target.1.nan(),
    ensures
        at_wall(view.0, bounds.0) ==> corrected(view, target, bounds).0 == view.0,
        at_wall(view.1, bounds.1) ==> corrected(view, target, bounds).1 == view.1,
        on_frame(corrected(view, target, bounds), bounds),
{
}

/// What one axis of the view is, and which end of it is held (`Some(true)` the
/// high one), once the edges have had their say.
///
/// A held end stays held while the pointer is near that edge of the screen. An
/// end becomes held when the pointer is near it and the view is too.
pub open spec fn held_axis(
    view: Number,
    pointer: Number,
    from_surface: Number,
    from_capture: Number,
    capture: Number,
    held: Option<bool>,
) -> (Number, Option<bool>) {
    let margin = number::num(WALL_HOLD_MARGIN_LOGICAL);
    let eps = number::num(WALL_HOLD_EPS);
    let at_high = from_surface.size().at_most(margin);
    let at_low = pointer.size().at_most(margin);
    let holds_high = held == Some(true) || (held is None && from_capture.size().at_most(eps));
    let holds_low = held == Some(false) || (held is None && view.size().at_most(eps));
    if at_high && holds_high {
        (capture, Some(true))
    } else if at_low && holds_low {
        (number::num(number::ZERO), Some(false))
    } else {
        (view, None)
    }
}

/// Holds one axis of the view at an edge of the frame while the pointer is
/// parked at that edge of the screen. `from_surface` is the pointer minus the
/// length of the screen, `from_capture` the view minus that of the frame.
pub fn edge_hold_axis(
    view: Number,
    pointer: Number,
    from_surface: Number,
    from_capture: Number,
    capture: Number,
    held: Option<bool>,
) -> (r: (Number, Option<bool>))
    ensures
        r == held_axis(view, pointer, from_surface, from_capture, capture, held),
{
    let margin: Number = Number { bits: WALL_HOLD_MARGIN_LOGICAL };
    let eps: Number = Number { bits: WALL_HOLD_EPS };
    let zero: Number = Number { bits: number::ZERO };
    let at_high: bool = from_surface.abs().le(margin);
    let at_low: bool = pointer.abs().le(margin);
    match held {
        Some(true) => if at_high {
            (capture, Some(true))
        } else {
            (view, None)
        },
        Some(false) => if at_low {
            (zero, Some(false))
        } else {
            (view, None)
        },
        None => if at_high && from_capture.abs().le(eps) {
            (capture, Some(true))
        } else if at_low && view.abs().le(eps) {
            (zero, Some(false))
        } else {
            (view, None)
        },
    }
}

/// Once held, an end stays held, and the view exactly on it, wherever the view
/// has drifted to, until the pointer leaves that edge of the screen.
pub proof fn hold_is_latched(
    view: Number,
    pointer: Number,
    from_surface: Number,
    from_capture: Number,
    capture: Number,
)
    ensures
        from_surface.size().at_most(number::num(WALL_HOLD_MARGIN_LOGICAL)) ==> held_axis(
            view,
            pointer,
            from_surface,
            from_capture,
            capture,
            Some(true),
        ) == (capture, Some(true)),
        pointer.size().at_most(number::num(WALL_HOLD_MARGIN_LOGICAL)) ==> held_axis(
            view,
            pointer,
            from_surface,
            from_capture,
            capture,
            Some(false),
        ) == (number::num(number::ZERO), Some(false)),
{
}

/// The edges never pull the view from a distance: what is not held and not
/// within reach stays where it is.
pub proof fn hold_never_grabs_from_afar(
    view: Number,
    pointer: Number,
    from_surface: Number,
    from_capture: Number,
    capture: Number,
)
    requires
        !from_capture.size().at_most(number::num(WALL_HOLD_EPS)),
        !view.size().at_most(number::num(WALL_HOLD_EPS)),
    ensures
        held_axis(view, pointer, from_surface, from_capture, capture, None) == (
            view,
            None::<bool>,
        ),
{
}

/// How far one axis of the view is pulled towards the hand.
///
/// `offset` is the view minus the content under the hand. Only motion towards
/// the hand (`toward`) pulls: by `pull`, but no more than `limit`, no less than
/// `catch_up`, and never past the hand.
pub open spec fn healed(
    offset: Number,
    toward: bool,
    pull: Number,
    limit: Number,
    catch_up: Number,
) -> Number {
    let zero = number::num(number::ZERO);
    if !toward {
        zero
    } else {
        let bounded = pull.clamped(limit.opposite(), limit);
        let caught = if zero.at_most(bounded) {
            if bounded.below(catch_up) {
                catch_up
            } else {
                bounded
            }
        } else if catch_up.opposite().below(bounded) {
            catch_up.opposite()
        } else {
            bounded
        };
        if offset.below(zero) {
            caught.clamped(offset, zero)
        } else {
            caught.clamped(zero, offset)
        }
    }
}

/// One axis of the correction of the view towards the hand.
pub fn heal(
    offset: Number,
    toward: bool,
    pull: Number,
    limit: Number,
    catch_up: Number,
) -> (r: Number)
    requires
        toward ==> !offset.nan() && number::num(number::ZERO).at_most(limit),
    ensures
        r == healed(offset, toward, pull, limit, catch_up),
{
    let zero: Number = Number { bits: number::ZERO };
    if !toward {
        return zero;
    }
    let bounded: Number = pull.clamp(limit.neg(), limit);
    let caught: Number = if zero.le(bounded) {
        if bounded.lt(catch_up) {
            catch_up
        } else {
            bounded
        }
    } else if catch_up.neg().lt(bounded) {
        catch_up.neg()
    } else {
        bounded
    };
    if offset.lt(zero) {
        caught.clamp(offset, zero)
    } else {
        caught.clamp(zero, offset)
    }
}

/// The correction never overshoots the hand: it lies between nothing and the
/// whole offset. Motion away from the hand does not correct at all.
pub proof fn heal_never_overshoots(
    offset: Number,
    toward: bool,
    pull: Number,
    limit: Number,
    catch_up: Number,
)
    requires
        !offset.nan(),
        !pull.nan(),
        !catch_up.nan(),
        number::num(number::ZERO).at_most(limit),
    ensures
        ({
            let h = healed(offset, toward, pull, limit, catch_up);
            let zero = number::num(number::ZERO);
            &&& offset.below(zero) ==> offset.at_most(h) && h.at_most(zero)
            &&& zero.at_most(offset) ==> zero.at_most(h) && h.at_most(offset)
            &&& !toward ==> h == zero
        }),
{
}

/// A place on the frame stays where it is; one off the frame goes to the nearest
/// edge, each axis by itself.
pub proof fn places_on_the_frame_stay(pos: Point, bounds: Point)
    requires
        valid_bounds(bounds),
    ensures
        on_frame(pos, bounds) ==> clamped_to(pos, bounds) == pos,
        pos.0.below(number::num(0)) ==> clamped_to(pos, bounds).0 == number::num(0),
        bounds.0.below(pos.0) ==> clamped_to(pos, bounds).0 == bounds.0,
        pos.1.below(number::num(0)) ==> clamped_to(pos, bounds).1 == number::num(0),
        bounds.1.below(pos.1) ==> clamped_to(pos, bounds).1 == bounds.1,
        number::num(0).at_most(pos.0) && pos.0.at_most(bounds.0) ==> clamped_to(pos, bounds).0
            == pos.0,
        number::num(0).at_most(pos.1) && pos.1.at_most(bounds.1) ==> clamped_to(pos, bounds).1
            == pos.1,
{
}

/// A view off the edges goes to its target. One that is at an edge on one axis
/// moves along the other.
pub proof fn correction_goes_to_its_target(view: Point, target: Point, bounds: Point)
    requires
        on_frame(view, bounds),
        on_frame(target, bounds),
    ensures
        ({
            let r = corrected(view, target, bounds);
            &&& number::num(0).below(view.0) && view.0.below(bounds.0) ==> r.0 == target.0
            &&& number::num(0).below(view.1) && view.1.below(bounds.1) ==> r.1 == target.1
            &&& view.0 == number::num(0) || view.0 == bounds.0 ==> r.0 == view.0
            &&& view.1 == number::num(0) || view.1 == bounds.1 ==> r.1 == view.1
        }),
{
}

/// A view near an edge, with the pointer near that edge of the screen, is put
/// onto the edge and held there: the high end where both are at it, the low end
/// where both are at that one. Away from the edges of the screen nothing holds.
pub proof fn edges_hold_where_pointer_and_view_are(
    view: Number,
    pointer: Number,
    from_surface: Number,
    from_capture: Number,
    capture: Number,
    held: Option<bool>,
)
    requires
        !from_surface.nan() && !pointer.nan(),
    ensures
        ({
            let four = number::num(0x4010_0000_0000_0000);
            let two = number::num(0x4000_0000_0000_0000);
            let r = held_axis(view, pointer, from_surface, from_capture, capture, held);
            let far_high = four.below(from_surface.size());
            let far_low = four.below(pointer.size());
            &&& !far_high && held is None && from_capture.size().at_most(two) ==> r == (
                capture,
                Some(true),
            )
            &&& !far_high && held == Some(true) ==> r == (capture, Some(true))
            &&& far_high && !far_low && held is None && view.size().at_most(two) ==> r == (
                number::num(0),
                Some(false),
            )
            &&& far_high && !far_low && held == Some(false) ==> r == (number::num(0), Some(false))
            &&& far_high && held == Some(true) ==> r == (view, None::<bool>)
            &&& far_low && held == Some(false) ==> r == (view, None::<bool>)
            &&& far_high && far_low ==> r == (view, None::<bool>)
        }),
{
}

/// Motion towards the hand corrects by the pull, where that lies between the
/// catch-up and the limit and does not pass the hand; a weaker pull catches up,
/// a stronger one is limited.
pub proof fn pull_is_used_as_it_is(offset: Number, pull: Number, limit: Number, catch_up: Number)
    requires
        number::num(0).at_most(catch_up),
        catch_up.at_most(limit),
        limit.at_most(offset),
        number::num(0).at_most(pull),
    ensures
        catch_up.at_most(pull) && pull.at_most(limit) ==> healed(
            offset,
            true,
            pull,
            limit,
            catch_up,
        ) == pull,
        pull.below(catch_up) ==> healed(offset, true, pull, limit, catch_up) == catch_up,
        limit.below(pull) ==> healed(offset, true, pull, limit, catch_up) == limit,
        healed(offset, false, pull, limit, catch_up) == number::num(0),
{
}

/// The other way round it corrects the other way: a view that lies behind the
/// hand is pulled forward by as much.
pub proof fn pull_works_both_ways(offset: Number, pull: Number, limit: Number, catch_up: Number)
    requires
        number::num(0).below(catch_up),
        catch_up.at_most(limit),
        offset.at_most(limit.opposite()),
        pull.below(number::num(0)),
    ensures
        pull.at_most(catch_up.opposite()) && limit.opposite().at_most(pull) ==> healed(
            offset,
            true,
            pull,
            limit,
            catch_up,
        ) == pull,
        catch_up.opposite().below(pull) ==> healed(offset, true, pull, limit, catch_up)
            == catch_up.opposite(),
        pull.below(limit.opposite()) ==> healed(offset, true, pull, limit, catch_up)
            == limit.opposite(),
{
}

} // verus!
