//! Sizing rules for the floating overlay.
//!
//! The width grows in tiers rather than one column per character, so that the
//! window does not visibly jump while the user types, and a small dead band
//! around the width that is already on screen suppresses flicker.

use vstd::prelude::*;

verus! {

/// Narrowest overlay the editor is ever asked to show.
pub const MIN_WIDTH: u32 = 20;

/// Widest overlay the editor is ever asked to show.
pub const MAX_WIDTH: u32 = 60;

/// Width used while the content is short.
pub const FLOOR_WIDTH: u32 = 30;

/// Content length up to which the floor width is kept.
pub const SHORT_CONTENT: usize = 20;

/// Content length up to which the slower of the two growth rates applies.
pub const MEDIUM_CONTENT: usize = 40;

/// Columns added around the content.
pub const WIDTH_PADDING: u32 = 2;

/// A new width closer than this to the displayed one is not applied.
pub const HYSTERESIS: u32 = 4;

/// Fewest rows of the overlay.
pub const MIN_HEIGHT: u32 = 3;

/// Most rows of the overlay.
pub const MAX_HEIGHT: u32 = 15;

/// Rows taken by a header line and its separator, or by the paging footer.
pub const BLOCK_HEIGHT: u32 = 2;

/// Width of the compact status indicator.
pub const COMPACT_WIDTH: u32 = 2;

/// Height of the compact status indicator.
pub const COMPACT_HEIGHT: u32 = 1;

/// `value` confined to `[lo, hi]`.
pub open spec fn clamp_spec(value: int, lo: int, hi: int) -> int {
    if value < lo {
        lo
    } else if value > hi {
        hi
    } else {
        value
    }
}

/// A count of tenths rounded to the nearest whole, halves upwards.
pub open spec fn round_tenths(tenths: int) -> int {
    (tenths + 5) / 10
}

/// The tiered growth curve: a fixed floor for short content, then eight
/// tenths of a column per extra character, then nine tenths.
pub open spec fn tiered_width(needed_len: int) -> int {
    if needed_len <= SHORT_CONTENT {
        FLOOR_WIDTH as int
    } else if needed_len <= MEDIUM_CONTENT {
        FLOOR_WIDTH + round_tenths(8 * (needed_len - SHORT_CONTENT))
    } else {
        46 + round_tenths(9 * (needed_len - MEDIUM_CONTENT))
    }
}

/// The tiered width plus padding, before the displayed width is looked at.
pub open spec fn raw_width(needed_len: int) -> int {
    tiered_width(needed_len) + WIDTH_PADDING
}

/// Distance between two widths.
pub open spec fn width_gap(a: int, b: int) -> int {
    if a >= b {
        a - b
    } else {
        b - a
    }
}

/// The dead band: a raw width that differs from the displayed one by less
/// than `HYSTERESIS` gives way to the displayed one.
pub open spec fn settled_width(raw: int, displayed: Option<u32>) -> int {
    match displayed {
        Some(shown) => if width_gap(raw, shown as int) < HYSTERESIS {
            shown as int
        } else {
            raw
        },
        None => raw,
    }
}

/// The width of the overlay for content of `needed_len` columns when
/// `displayed` is the width currently on screen, if any.
pub open spec fn window_width_spec(needed_len: int, displayed: Option<u32>) -> int {
    clamp_spec(
        settled_width(raw_width(needed_len), displayed),
        MIN_WIDTH as int,
        MAX_WIDTH as int,
    )
}

/// The height of the overlay: header rows, one row per candidate, footer
/// rows, confined to `[MIN_HEIGHT, MAX_HEIGHT]`.
pub open spec fn window_height_spec(header: bool, candidate_count: int, paging: bool) -> int {
    clamp_spec(
        (if header {
            BLOCK_HEIGHT as int
        } else {
            0
        }) + candidate_count + (if paging {
            BLOCK_HEIGHT as int
        } else {
            0
        }),
        MIN_HEIGHT as int,
        MAX_HEIGHT as int,
    )
}

/// Computes the padded tiered width for content of `needed_len` columns.
pub fn padded_width(needed_len: usize) -> (raw: u64)
    ensures
        raw == raw_width(needed_len as int),
{
    let wide: u128 = needed_len as u128;
    let tiered: u128 = if needed_len <= SHORT_CONTENT {
        FLOOR_WIDTH as u128
    } else if needed_len <= MEDIUM_CONTENT {
        FLOOR_WIDTH as u128 + (8 * (wide - SHORT_CONTENT as u128) + 5) / 10
    } else {
        46 + (9 * (wide - MEDIUM_CONTENT as u128) + 5) / 10
    };
    (tiered + WIDTH_PADDING as u128) as u64
}

/// Computes the overlay width for content of `needed_len` columns.
///
/// `displayed_width` is the width of the window that is on screen, or `None`
/// when there is none.
pub fn window_width(needed_len: usize, displayed_width: Option<u32>) -> (width: u32)
    ensures
        width == window_width_spec(needed_len as int, displayed_width),
        MIN_WIDTH <= width <= MAX_WIDTH,
{
    let raw: u64 = padded_width(needed_len);
    let settled: u64 = match displayed_width {
        Some(shown) => {
            let shown_wide: u64 = shown as u64;
            let gap: u64 = if raw >= shown_wide {
                raw - shown_wide
            } else {
                shown_wide - raw
            };
            if gap < HYSTERESIS as u64 {
                shown_wide
            } else {
                raw
            }
        },
        None => raw,
    };
    if settled < MIN_WIDTH as u64 {
        MIN_WIDTH
    } else if settled > MAX_WIDTH as u64 {
        MAX_WIDTH
    } else {
        settled as u32
    }
}

/// Computes the overlay height.
///
/// `header` says whether a pre-edit or auxiliary line is shown, `paging`
/// whether the paging footer is.
pub fn window_height(header: bool, candidate_count: usize, paging: bool) -> (height: u32)
    ensures
        height == window_height_spec(header, candidate_count as int, paging),
        MIN_HEIGHT <= height <= MAX_HEIGHT,
{
    let fixed: u32 = (if header {
        BLOCK_HEIGHT
    } else {
        0
    }) + (if paging {
        BLOCK_HEIGHT
    } else {
        0
    });
    if candidate_count >= MAX_HEIGHT as usize {
        MAX_HEIGHT
    } else {
        let total: u32 = fixed + candidate_count as u32;
        if total < MIN_HEIGHT {
            MIN_HEIGHT
        } else if total > MAX_HEIGHT {
            MAX_HEIGHT
        } else {
            total
        }
    }
}

/// Whatever the content length and whatever is on screen, the width handed
/// to the editor lies between `MIN_WIDTH` and `MAX_WIDTH`; in particular the
/// width computed with nothing on screen does.
pub proof fn width_is_bounded(needed_len: nat, displayed: Option<u32>)
    ensures
        MIN_WIDTH <= window_width_spec(needed_len as int, displayed) <= MAX_WIDTH,
        MIN_WIDTH <= window_width_spec(needed_len as int, None) <= MAX_WIDTH,
{
}

/// Recomputing the width while a width `shown` within the permitted range is
/// on screen, from content whose raw width is less than `HYSTERESIS` away
/// from `shown`, gives `shown` again.
pub proof fn hysteresis_is_idempotent(needed_len: nat, shown: u32)
    requires
        MIN_WIDTH <= shown <= MAX_WIDTH,
        width_gap(raw_width(needed_len as int), shown as int) < HYSTERESIS,
    ensures
        window_width_spec(needed_len as int, Some(shown)) == shown,
{
}

/// The width never shrinks when the content grows and nothing is on screen.
pub proof fn width_is_monotonic(shorter: nat, longer: nat)
    requires
        shorter <= longer,
    ensures
        window_width_spec(shorter as int, None) <= window_width_spec(longer as int, None),
{
}

/// Content of 58 columns or more always gets the widest overlay, whatever is
/// on screen.
pub proof fn long_content_is_capped(needed_len: int, displayed: Option<u32>)
    requires
        needed_len >= 58,
    ensures
        window_width_spec(needed_len, displayed) == MAX_WIDTH,
{
}

/// The height handed to the editor lies between `MIN_HEIGHT` and
/// `MAX_HEIGHT`.
pub proof fn height_is_bounded(header: bool, candidate_count: nat, paging: bool)
    ensures
        MIN_HEIGHT <= window_height_spec(header, candidate_count as int, paging) <= MAX_HEIGHT,
{
}

} // verus!
