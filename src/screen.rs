//! Screen lookup: the detected screens, the primary one, the one holding a
//! position, and the desktop rectangle that spans them all.

use vstd::prelude::*;

use crate::error::{MouseError, MouseResult};
use crate::models::{Position, ScreenBounds};
use crate::text::push_decimal;
use vstd::string::StringExecFns;

verus! {

/// The one 1920x1080 screen assumed where the platform reports none.
pub open spec fn default_screen() -> ScreenBounds {
    ScreenBounds { id: 0, x: 0, y: 0, width: 1920, height: 1080, is_primary: true }
}

/// The screens that detection reports.
pub open spec fn detected_screens() -> Seq<ScreenBounds> {
    seq![default_screen()]
}

/// The standard layout with, optionally, a second 1920x1080 screen to the
/// right of the first.
pub open spec fn standard_layout(multi_monitor: bool) -> Seq<ScreenBounds> {
    if multi_monitor {
        seq![default_screen(), ScreenBounds { id: 1, x: 1920, y: 0, width: 1920, height: 1080, is_primary: false }]
    } else {
        seq![default_screen()]
    }
}

/// `s[i]` is the first screen of `s` with the given property.
pub open spec fn first_with(s: Seq<ScreenBounds>, i: int, p: spec_fn(ScreenBounds) -> bool) -> bool {
    0 <= i < s.len() && p(s[i]) && forall|j: int| 0 <= j < i ==> !p(#[trigger] s[j])
}

pub open spec fn none_with(s: Seq<ScreenBounds>, p: spec_fn(ScreenBounds) -> bool) -> bool {
    forall|j: int| 0 <= j < s.len() ==> !p(#[trigger] s[j])
}

fn screen_error(reason: &str) -> (r: MouseError)
    ensures
        r is ScreenDetectionFailed,
{
    MouseError::ScreenDetectionFailed { reason: String::from_str(reason) }
}

fn screen_id_error(id: u64) -> (r: MouseError)
    ensures
        r is ScreenDetectionFailed,
{
    let mut reason = String::from_str("Screen with ID ");
    push_decimal(&mut reason, id);
    reason.append(" not found");
    MouseError::ScreenDetectionFailed { reason }
}

/// The first primary screen of the list.
fn find_primary(screens: &Vec<ScreenBounds>) -> (r: Option<ScreenBounds>)
    ensures
        match r {
            Some(sb) => exists|i: int| first_with(screens@, i, |b: ScreenBounds| b.is_primary) && screens@[i] == sb,
            None => none_with(screens@, |b: ScreenBounds| b.is_primary),
        },
{
    let mut i: usize = 0;
    while i < screens.len()
        invariant
            i <= screens@.len(),
            forall|j: int| 0 <= j < i ==> !(#[trigger] screens@[j]).is_primary,
        decreases screens@.len() - i,
    {
        if screens[i].is_primary {
            assert(first_with(screens@, i as int, |b: ScreenBounds| b.is_primary));
            return Some(screens[i]);
        }
        i = i + 1;
    }
    None
}

/// The first screen of the list with the given id.
fn find_by_id(screens: &Vec<ScreenBounds>, id: u32) -> (r: Option<ScreenBounds>)
    ensures
        match r {
            Some(sb) => exists|i: int| first_with(screens@, i, |b: ScreenBounds| b.id == id) && screens@[i] == sb,
            None => none_with(screens@, |b: ScreenBounds| b.id == id),
        },
{
    let mut i: usize = 0;
    while i < screens.len()
        invariant
            i <= screens@.len(),
            forall|j: int| 0 <= j < i ==> (#[trigger] screens@[j]).id != id,
        decreases screens@.len() - i,
    {
        if screens[i].id == id {
            assert(first_with(screens@, i as int, |b: ScreenBounds| b.id == id));
            return Some(screens[i]);
        }
        i = i + 1;
    }
    None
}

/// The first screen of the list that contains the position.
fn find_containing(screens: &Vec<ScreenBounds>, position: Position) -> (r: Option<ScreenBounds>)
    ensures
        match r {
            Some(sb) => exists|i: int|
                first_with(screens@, i, |b: ScreenBounds| b.contains_spec(position)) && screens@[i] == sb,
            None => none_with(screens@, |b: ScreenBounds| b.contains_spec(position)),
        },
{
    let mut i: usize = 0;
    while i < screens.len()
        invariant
            i <= screens@.len(),
            forall|j: int| 0 <= j < i ==> !(#[trigger] screens@[j]).contains_spec(position),
        decreases screens@.len() - i,
    {
        if screens[i].contains(position) {
            assert(first_with(screens@, i as int, |b: ScreenBounds| b.contains_spec(position)));
            return Some(screens[i]);
        }
        i = i + 1;
    }
    None
}

/// Screen detection and lookup.
pub struct ScreenManager;

impl ScreenManager {
    /// The connected screens. Without a platform query, this is the one
    /// default screen.
    pub fn detect_screens() -> (r: MouseResult<Vec<ScreenBounds>>)
        ensures
            r matches Ok(v) && v@ == detected_screens(),
    {
        Self::detect_screens_fallback()
    }

    /// The standard layout, with a second screen when `multi_monitor` is set.
    pub fn detect_screens_macos(multi_monitor: bool) -> (r: MouseResult<Vec<ScreenBounds>>)
        ensures
            r matches Ok(v) && v@ == standard_layout(multi_monitor),
    {
        let mut screens: Vec<ScreenBounds> = Vec::new();
        screens.push(ScreenBounds { id: 0, x: 0, y: 0, width: 1920, height: 1080, is_primary: true });
        if multi_monitor {
            screens.push(ScreenBounds { id: 1, x: 1920, y: 0, width: 1920, height: 1080, is_primary: false });
        }
        proof {
            assert(screens@ =~= standard_layout(multi_monitor));
        }
        Ok(screens)
    }

    /// One 1920x1080 primary screen at the origin.
    pub fn detect_screens_fallback() -> (r: MouseResult<Vec<ScreenBounds>>)
        ensures
            r matches Ok(v) && v@ == detected_screens(),
    {
        let screens = vec![ScreenBounds { id: 0, x: 0, y: 0, width: 1920, height: 1080, is_primary: true }];
        proof {
            assert(screens@ =~= detected_screens());
        }
        Ok(screens)
    }

    /// The first primary screen.
    pub fn get_primary_screen() -> (r: MouseResult<ScreenBounds>)
        ensures
            match r {
                Ok(sb) => exists|i: int|
                    first_with(detected_screens(), i, |b: ScreenBounds| b.is_primary) && detected_screens()[i] == sb,
                Err(e) => none_with(detected_screens(), |b: ScreenBounds| b.is_primary) && e is ScreenDetectionFailed,
            },
    {
        let screens = Self::detect_screens()?;
        match find_primary(&screens) {
            Some(sb) => Ok(sb),
            None => Err(screen_error("No primary screen found")),
        }
    }

    /// The screen a position belongs to: the one its screen id names, or
    /// else the first that contains it, or else the primary screen.
    pub fn find_screen_for_position(position: Position) -> (r: MouseResult<ScreenBounds>)
        ensures
            match position.screen_id {
                Some(id) => match r {
                    Ok(sb) => exists|i: int|
                        first_with(detected_screens(), i, |b: ScreenBounds| b.id == id) && detected_screens()[i] == sb,
                    Err(e) => none_with(detected_screens(), |b: ScreenBounds| b.id == id) && e is ScreenDetectionFailed,
                },
                None => match r {
                    Ok(sb) => (exists|i: int|
                        first_with(detected_screens(), i, |b: ScreenBounds| b.contains_spec(position))
                            && detected_screens()[i] == sb) || (none_with(
                        detected_screens(),
                        |b: ScreenBounds| b.contains_spec(position),
                    ) && exists|i: int|
                        first_with(detected_screens(), i, |b: ScreenBounds| b.is_primary) && detected_screens()[i]
                            == sb),
                    Err(e) => none_with(detected_screens(), |b: ScreenBounds| b.contains_spec(position)) && none_with(
                        detected_screens(),
                        |b: ScreenBounds| b.is_primary,
                    ) && e is ScreenDetectionFailed,
                },
            },
    {
        let screens = Self::detect_screens()?;
        match position.screen_id {
            Some(id) => match find_by_id(&screens, id) {
                Some(sb) => Ok(sb),
                None => Err(screen_id_error(id as u64)),
            },
            None => match find_containing(&screens, position) {
                Some(sb) => Ok(sb),
                None => match find_primary(&screens) {
                    Some(sb) => Ok(sb),
                    None => Err(screen_error("No suitable screen found for position")),
                },
            },
        }
    }

    /// The first screen with the given id.
    pub fn get_screen_by_id(screen_id: u32) -> (r: MouseResult<ScreenBounds>)
        ensures
            match r {
                Ok(sb) => exists|i: int|
                    first_with(detected_screens(), i, |b: ScreenBounds| b.id == screen_id) && detected_screens()[i] == sb,
                Err(e) => none_with(detected_screens(), |b: ScreenBounds| b.id == screen_id) && e is ScreenDetectionFailed,
            },
    {
        let screens = Self::detect_screens()?;
        match find_by_id(&screens, screen_id) {
            Some(sb) => Ok(sb),
            None => Err(screen_id_error(screen_id as u64)),
        }
    }

    /// The smallest rectangle holding every screen, as `(x, y, width, height)`.
    pub fn get_desktop_bounds() -> (r: MouseResult<(i32, i32, u32, u32)>)
        ensures
            r matches Ok((x, y, w, h)) && {
                let s = detected_screens();
                &&& forall|i: int| 0 <= i < s.len() ==> x <= #[trigger] s[i].x && y <= s[i].y
                &&& exists|i: int| 0 <= i < s.len() && x == #[trigger] s[i].x
                &&& exists|i: int| 0 <= i < s.len() && y == #[trigger] s[i].y
                &&& forall|i: int| 0 <= i < s.len() ==> #[trigger] s[i].x + s[i].width <= x + w && s[i].y + s[i].height <= y + h
                &&& exists|i: int| 0 <= i < s.len() && #[trigger] s[i].x + s[i].width == x + w
                &&& exists|i: int| 0 <= i < s.len() && #[trigger] s[i].y + s[i].height == y + h
            },
    {
        let screens = Self::detect_screens()?;
        if screens.len() == 0 {
            return Err(screen_error("No screens detected"));
        }
        let mut min_x: i64 = screens[0].x as i64;
        let mut min_y: i64 = screens[0].y as i64;
        let mut max_x: i64 = screens[0].x as i64 + screens[0].width as i64;
        let mut max_y: i64 = screens[0].y as i64 + screens[0].height as i64;
        let mut i: usize = 1;
        while i < screens.len()
            invariant
                screens@ == detected_screens(),
                1 <= i <= screens@.len(),
                forall|j: int| 0 <= j < i ==> min_x <= #[trigger] screens@[j].x && min_y <= screens@[j].y,
                exists|j: int| 0 <= j < i && min_x == #[trigger] screens@[j].x,
                exists|j: int| 0 <= j < i && min_y == #[trigger] screens@[j].y,
                forall|j: int|
                    0 <= j < i ==> #[trigger] screens@[j].x + screens@[j].width <= max_x && screens@[j].y
                        + screens@[j].height <= max_y,
                exists|j: int| 0 <= j < i && #[trigger] screens@[j].x + screens@[j].width == max_x,
                exists|j: int| 0 <= j < i && #[trigger] screens@[j].y + screens@[j].height == max_y,
            decreases screens@.len() - i,
        {
            let s = screens[i];
            if (s.x as i64) < min_x {
                min_x = s.x as i64;
            }
            if (s.y as i64) < min_y {
                min_y = s.y as i64;
            }
            if s.x as i64 + s.width as i64 > max_x {
                max_x = s.x as i64 + s.width as i64;
            }
            if s.y as i64 + s.height as i64 > max_y {
                max_y = s.y as i64 + s.height as i64;
            }
            i = i + 1;
        }
        Ok((min_x as i32, min_y as i32, (max_x - min_x) as u32, (max_y - min_y) as u32))
    }

    /// The id of screen number `n`, counted from 1 in detection order.
    pub fn map_screen_number_to_id(screen_number: u8) -> (r: MouseResult<u32>)
        ensures
            match r {
                Ok(id) => 1 <= screen_number <= detected_screens().len() && id == detected_screens()[screen_number - 1].id,
                Err(e) => (screen_number == 0 || screen_number > detected_screens().len()) && e is ScreenDetectionFailed,
            },
    {
        let screens = Self::detect_screens()?;
        if screen_number == 0 || screen_number as usize > screens.len() {
            let mut reason = String::from_str("Invalid screen number: ");
            push_decimal(&mut reason, screen_number as u64);
            return Err(MouseError::ScreenDetectionFailed { reason });
        }
        Ok(screens[(screen_number - 1) as usize].id)
    }

    /// The center of the screen with the given id.
    pub fn get_screen_center(screen_id: u32) -> (r: MouseResult<Position>)
        ensures
            match r {
                Ok(p) => exists|i: int|
                    first_with(detected_screens(), i, |b: ScreenBounds| b.id == screen_id) && p.x
                        == detected_screens()[i].x + detected_screens()[i].width / 2 && p.y == detected_screens()[i].y
                        + detected_screens()[i].height / 2 && p.screen_id == Some(screen_id),
                Err(e) => none_with(detected_screens(), |b: ScreenBounds| b.id == screen_id) && e is ScreenDetectionFailed,
            },
    {
        let screen = Self::get_screen_by_id(screen_id)?;
        Ok(screen.center())
    }
}

} // verus!
