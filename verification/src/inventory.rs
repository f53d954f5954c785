//! The inventory of windows that other applications show on screen.
//!
//! The window server describes each window by a bag of optional properties.
//! [`get_external_windows`] turns those records into [`ExternalWindow`]
//! values and leaves out what a note cannot be anchored to.

use vstd::prelude::*;
use crate::geometry::{Rect, UNITS_PER_PIXEL};

verus! {

/// The stacking layer of ordinary application windows.
pub const NORMAL_LAYER: i64 = 0;

/// Smallest width and height, in logical pixels, of a window worth anchoring to.
pub const MIN_TARGET_SIZE: i64 = 50;

/// The bounds of a window as the window server reports them, in logical pixels.
#[derive(Clone, Copy, Debug, PartialEq, Eq, Structural)]
pub struct RawBounds {
    pub x: Option<i64>,
    pub y: Option<i64>,
    pub width: Option<i64>,
    pub height: Option<i64>,
}

/// One record of the window server's list. A property that the server left
/// out, or that is not a number, is `None`.
#[derive(Clone, Debug, PartialEq, Eq)]
pub struct RawWindow {
    pub layer: Option<i64>,
    pub owner_pid: Option<i64>,
    pub number: Option<i64>,
    /// Name of the owning application; empty where the server gives none.
    pub owner_name: String,
    pub bounds: Option<RawBounds>,
}

/// A window of another application, as of one query of the window server.
///
/// The `id` is the server's handle. It may be reused for another window once
/// this one is closed, so two queries that show the same `id` need not show
/// the same window.
#[derive(Clone, Debug, PartialEq, Eq)]
pub struct ExternalWindow {
    pub id: u32,
    pub x: i32,
    pub y: i32,
    pub width: i32,
    pub height: i32,
    pub owner_name: String,
}

impl ExternalWindow {
    /// The frame of the window.
    pub open spec fn rect(self) -> Rect {
        Rect { x: self.x, y: self.y, width: self.width, height: self.height }
    }

    /// The frame of the window.
    pub fn frame(&self) -> (frame: Rect)
        ensures
            frame == self.rect(),
    {
        Rect { x: self.x, y: self.y, width: self.width, height: self.height }
    }
}

/// A length in logical pixels as coordinate units. Lengths beyond what an
/// `i32` holds in units stop at the nearest bound.
pub open spec fn units_of(pixels: int) -> int {
    let scaled = pixels * UNITS_PER_PIXEL;
    if scaled > i32::MAX {
        i32::MAX as int
    } else if scaled < i32::MIN {
        i32::MIN as int
    } else {
        scaled
    }
}

/// Converts logical pixels to coordinate units, see [`units_of`].
pub fn pixels_to_units(pixels: i64) -> (units: i32)
    ensures
        units == units_of(pixels as int),
{
    if pixels > 2_147_483 {
        i32::MAX
    } else if pixels < -2_147_483 {
        i32::MIN
    } else {
        let unit: i64 = UNITS_PER_PIXEL as i64;
        assert(unit == 1000);
        let scaled: i64 = pixels * unit;
        scaled as i32
    }
}

/// A property that is missing counts as zero.
pub open spec fn or_zero(value: Option<i64>) -> int {
    match value {
        Some(v) => v as int,
        None => 0,
    }
}

/// The four numbers of a window's bounds: x, y, width, height, in logical
/// pixels. `None` where the record has no bounds at all.
pub open spec fn dict_bounds(window: RawWindow) -> Option<(int, int, int, int)> {
    match window.bounds {
        Some(b) => Some((or_zero(b.x), or_zero(b.y), or_zero(b.width), or_zero(b.height))),
        None => None,
    }
}

/// Reads the bounds of a record, see [`dict_bounds`].
pub fn get_dict_bounds(window: &RawWindow) -> (bounds: Option<(i64, i64, i64, i64)>)
    ensures
        match bounds {
            Some((x, y, w, h)) => dict_bounds(*window) == Some(
                (x as int, y as int, w as int, h as int),
            ),
            None => dict_bounds(*window).is_none(),
        },
{
    match &window.bounds {
        Some(b) => {
            let x: i64 = match b.x { Some(v) => v, None => 0 };
            let y: i64 = match b.y { Some(v) => v, None => 0 };
            let w: i64 = match b.width { Some(v) => v, None => 0 };
            let h: i64 = match b.height { Some(v) => v, None => 0 };
            Some((x, y, w, h))
        },
        None => None,
    }
}

/// Whether a record describes a window that a note can be anchored to: it
/// lies on the layer of ordinary windows, belongs to another process than
/// `own_pid`, has a number and bounds, and is at least `MIN_TARGET_SIZE`
/// pixels wide and high.
pub open spec fn is_listed(window: RawWindow, own_pid: u32) -> bool {
    &&& window.layer == Some(NORMAL_LAYER)
    &&& window.owner_pid != Some(own_pid as i64)
    &&& window.number.is_some()
    &&& match dict_bounds(window) {
        Some((_, _, w, h)) => w >= MIN_TARGET_SIZE && h >= MIN_TARGET_SIZE,
        None => false,
    }
}

/// The window that a listed record describes. The handle is the low 32 bits
/// of the record's number.
pub open spec fn listed_window(window: RawWindow) -> ExternalWindow
    recommends
        window.number.is_some(),
        dict_bounds(window).is_some(),
{
    let (x, y, w, h) = dict_bounds(window).unwrap();
    ExternalWindow {
        id: window.number.unwrap() as u32,
        x: units_of(x) as i32,
        y: units_of(y) as i32,
        width: units_of(w) as i32,
        height: units_of(h) as i32,
        owner_name: window.owner_name,
    }
}

/// What one record contributes to the inventory: its window where the record
/// is listed, nothing otherwise.
pub open spec fn listing(window: RawWindow, own_pid: u32) -> Option<ExternalWindow> {
    if is_listed(window, own_pid) {
        Some(listed_window(window))
    } else {
        None
    }
}

/// The inventory that a list of records yields: the windows of the listed
/// records, in the order of the list.
pub open spec fn inventory_of(records: Seq<RawWindow>, own_pid: u32) -> Seq<ExternalWindow> {
    records.filter_map(|window: RawWindow| listing(window, own_pid))
}

/// Converts one record, or passes it over, see [`is_listed`].
pub fn external_window_of(window: &RawWindow, own_pid: u32) -> (listed: Option<ExternalWindow>)
    ensures
        listed == listing(*window, own_pid),
{
    match window.layer {
        Some(layer) => {
            if layer != NORMAL_LAYER {
                return None;
            }
        },
        None => {
            return None;
        },
    }
    match window.owner_pid {
        Some(pid) => {
            if pid == own_pid as i64 {
                return None;
            }
        },
        None => {},
    }
    let id: u32 = match window.number {
        Some(number) => {
            #[verifier::truncate]
            (number as u32)
        },
        None => {
            return None;
        },
    };
    let (x, y, w, h): (i64, i64, i64, i64) = match get_dict_bounds(window) {
        Some(bounds) => bounds,
        None => {
            return None;
        },
    };
    if w < MIN_TARGET_SIZE || h < MIN_TARGET_SIZE {
        return None;
    }
    Some(
        ExternalWindow {
            id,
            x: pixels_to_units(x),
            y: pixels_to_units(y),
            width: pixels_to_units(w),
            height: pixels_to_units(h),
            owner_name: window.owner_name.clone(),
        },
    )
}

/// Builds the inventory from the window server's records.
///
/// `own_pid` is the process id of the running application, whose own windows
/// are left out. An empty list of records yields an empty inventory.
pub fn get_external_windows(own_pid: u32, records: &Vec<RawWindow>) -> (windows: Vec<
    ExternalWindow,
>)
    ensures
        windows@ == inventory_of(records@, own_pid),
{
    let mut windows: Vec<ExternalWindow> = Vec::new();
    let mut i: usize = 0;
    while i < records.len()
        invariant
            0 <= i <= records.len(),
            windows@ == inventory_of(records@.take(i as int), own_pid),
        decreases records.len() - i,
    {
        proof {
            records@.lemma_filter_map_take_succ(
                |window: RawWindow| listing(window, own_pid),
                i as int,
            );
        }
        match external_window_of(&records[i], own_pid) {
            Some(window) => {
                windows.push(window);
            },
            None => {},
        }
        i += 1;
    }
    proof {
        assert(records@.take(records.len() as int) == records@);
    }
    windows
}

} // verus!
