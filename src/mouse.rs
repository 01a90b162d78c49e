//! The pointer driver's arithmetic: pixel steps per speed tier, relative
//! targets, and keeping a target on its screen.

use vstd::prelude::*;

use crate::error::{MouseError, MouseResult};
use crate::models::{InteractionMode, MovementSpeed, Position, ScreenBounds, ScrollDirection};
use vstd::string::StringExecFns;

verus! {

pub open spec fn pixels_for(speed: MovementSpeed) -> int {
    match speed {
        MovementSpeed::Slow => 5,
        MovementSpeed::Normal => 15,
        MovementSpeed::Fast => 30,
    }
}

/// Pixels per unit of relative movement at a speed tier.
pub fn speed_to_pixels(speed: MovementSpeed) -> (r: i32)
    ensures
        r == pixels_for(speed),
{
    match speed {
        MovementSpeed::Slow => 5,
        MovementSpeed::Normal => 15,
        MovementSpeed::Fast => 30,
    }
}

/// `v` held to the range of `i32`.
pub open spec fn saturate_i32(v: int) -> int {
    if v < i32::MIN {
        i32::MIN as int
    } else if v > i32::MAX {
        i32::MAX as int
    } else {
        v
    }
}

fn saturating_i32(v: i64) -> (r: i32)
    ensures
        r == saturate_i32(v as int),
{
    if v < i32::MIN as i64 {
        i32::MIN
    } else if v > i32::MAX as i64 {
        i32::MAX
    } else {
        v as i32
    }
}

/// Where a relative move of `(dx, dy)` units at a speed tier leads from
/// `current`; coordinates beyond the range of `i32` are held at its ends.
pub fn relative_target(current: Position, dx: i32, dy: i32, speed: MovementSpeed) -> (r: Position)
    ensures
        r.x == saturate_i32(current.x + dx * pixels_for(speed)),
        r.y == saturate_i32(current.y + dy * pixels_for(speed)),
        r.screen_id is None,
{
    let pixels = speed_to_pixels(speed) as i64;
    let x = saturating_i32(current.x as i64 + dx as i64 * pixels);
    let y = saturating_i32(current.y as i64 + dy as i64 * pixels);
    Position::new(x, y)
}

/// `v` held to `[lo, hi]`.
pub open spec fn clamp(v: int, lo: int, hi: int) -> int {
    if v < lo {
        lo
    } else if v > hi {
        hi
    } else {
        v
    }
}

/// The screen a target position refers to: the one its id names, or the
/// primary one; the first such in the list.
pub open spec fn target_screen(screens: Seq<ScreenBounds>, position: Position, i: int) -> bool {
    0 <= i < screens.len() && match position.screen_id {
        Some(id) => screens[i].id == id && forall|j: int| 0 <= j < i ==> (#[trigger] screens[j]).id != id,
        None => screens[i].is_primary && forall|j: int| 0 <= j < i ==> !(#[trigger] screens[j]).is_primary,
    }
}

/// Screens of at least one pixel whose far edges `i32` can hold.
pub open spec fn usable_screens(screens: Seq<ScreenBounds>) -> bool {
    forall|i: int|
        0 <= i < screens.len() ==> (#[trigger] screens[i]).width > 0 && screens[i].height > 0
            && crate::models::screen_in_range(screens[i])
}

/// Keeps a target on its screen: the position, clamped into the bounds of
/// the screen it refers to and tagged with that screen's id.
pub fn validate_position(screens: &Vec<ScreenBounds>, position: Position) -> (r: MouseResult<Position>)
    requires
        usable_screens(screens@),
    ensures
        match r {
            Ok(p) => exists|i: int|
                target_screen(screens@, position, i) && p.x == clamp(
                    position.x as int,
                    screens@[i].x as int,
                    screens@[i].x + screens@[i].width - 1,
                ) && p.y == clamp(position.y as int, screens@[i].y as int, screens@[i].y + screens@[i].height - 1)
                    && p.screen_id == Some(screens@[i].id),
            Err(e) => (forall|i: int| !target_screen(screens@, position, i)) && e is ScreenDetectionFailed,
        },
{
    let mut i: usize = 0;
    while i < screens.len()
        invariant
            usable_screens(screens@),
            i <= screens@.len(),
            forall|j: int|
                0 <= j < i ==> match position.screen_id {
                    Some(id) => (#[trigger] screens@[j]).id != id,
                    None => !(#[trigger] screens@[j]).is_primary,
                },
        decreases screens@.len() - i,
    {
        let s = screens[i];
        let hit = match position.screen_id {
            Some(id) => s.id == id,
            None => s.is_primary,
        };
        if hit {
            proof {
                assert(target_screen(screens@, position, i as int));
                assert(screens@[i as int].width > 0 && crate::models::screen_in_range(screens@[i as int]));
            }
            let right = (s.x as i64 + s.width as i64 - 1) as i32;
            let bottom = (s.y as i64 + s.height as i64 - 1) as i32;
            let x = if position.x < s.x { s.x } else if position.x > right { right } else { position.x };
            let y = if position.y < s.y { s.y } else if position.y > bottom { bottom } else { position.y };
            return Ok(Position { x, y, screen_id: Some(s.id) });
        }
        i = i + 1;
    }
    proof {
        assert forall|k: int| !target_screen(screens@, position, k) by {
            if 0 <= k < screens@.len() {
                assert(match position.screen_id {
                    Some(id) => screens@[k].id != id,
                    None => !screens@[k].is_primary,
                });
            }
        }
    }
    Err(MouseError::ScreenDetectionFailed { reason: String::from_str("Screen not found for position") })
}


/// The wheel a scroll turns.
#[derive(Debug, Clone, Copy, PartialEq, Eq, Structural)]
pub enum ScrollAxis {
    Vertical,
    Horizontal,
}

/// `-v`, with the one value that has no negation held at `i32::MAX`.
pub open spec fn negated(v: i32) -> i32 {
    if v == i32::MIN {
        i32::MAX
    } else {
        (-v) as i32
    }
}

/// How a scroll command turns the wheels: up and right by `amount`, down
/// and left by its negation.
pub fn scroll_motion(direction: ScrollDirection, amount: i32) -> (r: (i32, ScrollAxis))
    ensures
        r == match direction {
            ScrollDirection::Up => (amount, ScrollAxis::Vertical),
            ScrollDirection::Down => (negated(amount), ScrollAxis::Vertical),
            ScrollDirection::Left => (negated(amount), ScrollAxis::Horizontal),
            ScrollDirection::Right => (amount, ScrollAxis::Horizontal),
        },
{
    let negative = if amount == i32::MIN {
        i32::MAX
    } else {
        -amount
    };
    match direction {
        ScrollDirection::Up => (amount, ScrollAxis::Vertical),
        ScrollDirection::Down => (negative, ScrollAxis::Vertical),
        ScrollDirection::Left => (negative, ScrollAxis::Horizontal),
        ScrollDirection::Right => (amount, ScrollAxis::Horizontal),
    }
}


/// Whether a mode reports moves as offsets from the pointer (basic movement)
/// rather than as places on the screen (grid and area targets).
pub open spec fn moves_are_offsets(mode: Option<InteractionMode>) -> bool {
    match mode {
        Some(InteractionMode::Grid) | Some(InteractionMode::Area) => false,
        _ => true,
    }
}

/// Where a move requested in `mode` takes the pointer that is at `current`:
/// offsets are added to the current position (held to the range of `i32`),
/// places are taken as they are.
pub fn resolve_move(mode: Option<InteractionMode>, current: Position, requested: Position) -> (r: Position)
    ensures
        r == if moves_are_offsets(mode) && requested.screen_id is None {
            Position {
                x: saturate_i32(current.x + requested.x) as i32,
                y: saturate_i32(current.y + requested.y) as i32,
                screen_id: None,
            }
        } else {
            requested
        },
{
    let offsets = match mode {
        Some(InteractionMode::Grid) | Some(InteractionMode::Area) => false,
        _ => true,
    };
    if offsets && requested.screen_id.is_none() {
        Position::new(
            saturating_i32(current.x as i64 + requested.x as i64),
            saturating_i32(current.y as i64 + requested.y as i64),
        )
    } else {
        requested
    }
}

} // verus!
