//! Cell geometry of the screen: where the court and the overlays go.
//!
//! Character cells are roughly twice as tall as they are wide, so a court
//! whose cell ratio `cols / rows` is ~14/3 shows up as ~7:3 on screen, the
//! proportions of the core field.
use vstd::prelude::*;

use crate::menu::{LOGO_HEIGHT, LOGO_WIDTH, MENU_BOX_HEIGHT, MENU_BOX_WIDTH};
use crate::protocol::TICKS_PER_SEC;

verus! {

/// A rectangle of terminal cells.
#[derive(Debug, Clone, Copy, PartialEq, Eq, Structural)]
pub struct Area {
    pub x: u16,
    pub y: u16,
    pub width: u16,
    pub height: u16,
}

/// The area does not run past the last addressable cell.
pub open spec fn area_is_addressable(area: Area) -> bool {
    area.x + area.width <= u16::MAX && area.y + area.height <= u16::MAX
}

/// `inner` lies within `outer`.
pub open spec fn area_within(inner: Area, outer: Area) -> bool {
    &&& outer.x <= inner.x
    &&& inner.x + inner.width <= outer.x + outer.width
    &&& outer.y <= inner.y
    &&& inner.y + inner.height <= outer.y + outer.height
}

/// The larger of `value` and one.
pub open spec fn at_least_one(value: int) -> int {
    if value < 1 {
        1
    } else {
        value
    }
}

/// The smaller of two integers.
pub open spec fn min_int(a: int, b: int) -> int {
    if a <= b {
        a
    } else {
        b
    }
}

/// Half of what is left of `total` after `used`, none if nothing is left.
pub open spec fn half_margin(total: int, used: int) -> int {
    if total >= used {
        (total - used) / 2
    } else {
        0
    }
}

/// The largest court that fits `available` with a cell ratio of at most
/// 14/3: rows as many as the width allows at that ratio (at most the
/// height), columns as many as those rows need (at most the width), never
/// fewer than one of each; centered in the available space.
pub open spec fn court_in(available: Area) -> Area {
    let rows = at_least_one(min_int(available.height as int, available.width * 3 / 14));
    let cols = at_least_one(min_int(available.width as int, rows * 14 / 3));
    Area {
        x: (available.x + half_margin(available.width as int, cols)) as u16,
        y: (available.y + half_margin(available.height as int, rows)) as u16,
        width: cols as u16,
        height: rows as u16,
    }
}

/// Chooses the largest court that fits `available` while keeping the
/// core field's on-screen proportions (~7:3 horizontal rectangle).
pub fn fit_court(available: Area) -> (court: Area)
    requires
        area_is_addressable(available),
    ensures
        court == court_in(available),
{
    let rows_by_width = (available.width as u32 * 3 / 14) as u16;
    let rows = if available.height < rows_by_width {
        available.height
    } else {
        rows_by_width
    };
    let rows = if rows < 1 {
        1
    } else {
        rows
    };
    let cols_by_rows = rows as u32 * 14 / 3;
    let cols = if (available.width as u32) < cols_by_rows {
        available.width
    } else {
        cols_by_rows as u16
    };
    let cols = if cols < 1 {
        1
    } else {
        cols
    };
    Area {
        x: available.x + available.width.saturating_sub(cols) / 2,
        y: available.y + available.height.saturating_sub(rows) / 2,
        width: cols,
        height: rows,
    }
}

/// A non-empty available space always holds its court, which is never
/// empty and keeps a cell ratio of at most 14/3.
pub proof fn lemma_court_fits(available: Area)
    requires
        area_is_addressable(available),
        available.width >= 1,
        available.height >= 1,
    ensures
        area_within(court_in(available), available),
        court_in(available).width >= 1,
        court_in(available).height >= 1,
        court_in(available).width * 3 <= court_in(available).height * 14,
{
}

/// The court is centered in the available space on both axes: the
/// margins on either side differ by at most one cell, the extra cell (if
/// any) going to the right or the bottom.
pub proof fn lemma_court_is_centered(available: Area)
    requires
        area_is_addressable(available),
        available.width >= 1,
        available.height >= 1,
    ensures
        court_in(available).x == available.x + (available.width - court_in(available).width) / 2,
        court_in(available).y == available.y + (available.height - court_in(available).height)
            / 2,
        ({
            let court = court_in(available);
            let left = court.x - available.x;
            let right = available.x + available.width - (court.x + court.width);
            let top = court.y - available.y;
            let bottom = available.y + available.height - (court.y + court.height);
            &&& 0 <= left <= right <= left + 1
            &&& 0 <= top <= bottom <= top + 1
        }),
{
}

/// `area` shrunk to at most `width` x `height` cells, centered.
pub open spec fn centered_in(area: Area, width: u16, height: u16) -> Area {
    let width = min_int(width as int, area.width as int);
    let height = min_int(height as int, area.height as int);
    Area {
        x: (area.x + (area.width - width) / 2) as u16,
        y: (area.y + (area.height - height) / 2) as u16,
        width: width as u16,
        height: height as u16,
    }
}

/// A `width` x `height` rectangle centered in `area`, shrunk to fit.
pub fn centered_area(area: Area, width: u16, height: u16) -> (centered: Area)
    requires
        area_is_addressable(area),
    ensures
        centered == centered_in(area, width, height),
        area_within(centered, area),
{
    let width = if width < area.width {
        width
    } else {
        area.width
    };
    let height = if height < area.height {
        height
    } else {
        area.height
    };
    Area {
        x: area.x + (area.width - width) / 2,
        y: area.y + (area.height - height) / 2,
        width,
        height,
    }
}

/// Rows between the logo and the options box.
pub const MENU_GAP: u16 = 1;

/// Where the start menu goes on screen: the giant logo above the options
/// box, the group vertically centered.
#[derive(Debug, Clone, Copy, PartialEq, Eq, Structural)]
pub struct MenuLayout {
    /// Row of the logo's first line.
    pub logo_top: u16,
    /// How many logo lines fit above the bottom of the screen.
    pub logo_rows: u16,
    /// Whether the screen is wide enough to double each logo cell
    /// horizontally (the marquee look).
    pub logo_doubled: bool,
    /// The options box, pinned right below the logo and centered
    /// horizontally on its own.
    pub options_box: Area,
}

/// The start menu's layout on `area`: the logo-plus-box group is
/// vertically centered (flush with the top when it does not fit); the
/// logo is doubled when the screen holds twice its width plus two
/// columns; logo lines below the screen are dropped; the box is at most
/// 50 x 7 cells, cut at the screen's right and bottom edges.
pub open spec fn menu_layout_in(area: Area) -> MenuLayout {
    let group_height = LOGO_HEIGHT + MENU_GAP + MENU_BOX_HEIGHT;
    let top = area.y + half_margin(area.height as int, group_height);
    let bottom = area.y + area.height;
    let box_top = min_int(top + LOGO_HEIGHT + MENU_GAP, u16::MAX as int);
    MenuLayout {
        logo_top: top as u16,
        logo_rows: min_int(LOGO_HEIGHT as int, bottom - top) as u16,
        logo_doubled: area.width >= 2 * LOGO_WIDTH + 2,
        options_box: Area {
            x: (area.x + half_margin(area.width as int, MENU_BOX_WIDTH as int)) as u16,
            y: box_top as u16,
            width: min_int(MENU_BOX_WIDTH as int, area.width as int) as u16,
            height: min_int(
                MENU_BOX_HEIGHT as int,
                if bottom >= box_top {
                    bottom - box_top
                } else {
                    0
                },
            ) as u16,
        },
    }
}

/// Lays the start menu out on `area`.
pub fn menu_layout(area: Area) -> (layout: MenuLayout)
    requires
        area_is_addressable(area),
    ensures
        layout == menu_layout_in(area),
{
    let group_height = LOGO_HEIGHT + MENU_GAP + MENU_BOX_HEIGHT;
    let top = area.y + area.height.saturating_sub(group_height) / 2;
    let bottom = area.y + area.height;
    let box_top = top.saturating_add(LOGO_HEIGHT + MENU_GAP);
    let logo_rows = if bottom - top < LOGO_HEIGHT {
        bottom - top
    } else {
        LOGO_HEIGHT
    };
    let box_width = if MENU_BOX_WIDTH < area.width {
        MENU_BOX_WIDTH
    } else {
        area.width
    };
    let room = bottom.saturating_sub(box_top);
    let box_height = if MENU_BOX_HEIGHT < room {
        MENU_BOX_HEIGHT
    } else {
        room
    };
    MenuLayout {
        logo_top: top,
        logo_rows,
        logo_doubled: area.width >= 2 * LOGO_WIDTH + 2,
        options_box: Area {
            x: area.x + area.width.saturating_sub(MENU_BOX_WIDTH) / 2,
            y: box_top,
            width: box_width,
            height: box_height,
        },
    }
}

/// The logo lines and the options box never leave the screen.
pub proof fn lemma_menu_stays_on_screen(area: Area)
    requires
        area_is_addressable(area),
    ensures
        menu_layout_in(area).logo_top + menu_layout_in(area).logo_rows <= area.y + area.height,
        area.y <= menu_layout_in(area).logo_top,
        area.x <= menu_layout_in(area).options_box.x,
        menu_layout_in(area).options_box.x + menu_layout_in(area).options_box.width <= area.x
            + area.width,
        menu_layout_in(area).options_box.y + menu_layout_in(area).options_box.height <= area.y
            + area.height || menu_layout_in(area).options_box.height == 0,
{
}

/// Whole seconds (rounded up) until a serve `ticks_left` ticks away.
pub open spec fn seconds_until(ticks_left: u16) -> int {
    (ticks_left + TICKS_PER_SEC - 1) / (TICKS_PER_SEC as int)
}

/// Whole seconds until the serve, as the countdown shows them.
pub fn serve_countdown_seconds(ticks_left: u16) -> (seconds: u16)
    ensures
        seconds == seconds_until(ticks_left),
{
    let per_sec = TICKS_PER_SEC as u16;
    let whole = ticks_left / per_sec;
    if ticks_left % per_sec == 0 {
        whole
    } else {
        whole + 1
    }
}

/// An overlay keeps its requested size when the area holds it (shrinking
/// only to the area's size) and sits centered, its margins differing by
/// at most one cell.
pub proof fn lemma_overlay_is_centered(area: Area, width: u16, height: u16)
    requires
        area_is_addressable(area),
    ensures
        centered_in(area, width, height).width == if width <= area.width {
            width
        } else {
            area.width
        },
        centered_in(area, width, height).height == if height <= area.height {
            height
        } else {
            area.height
        },
        ({
            let overlay = centered_in(area, width, height);
            let left = overlay.x - area.x;
            let right = area.x + area.width - (overlay.x + overlay.width);
            let top = overlay.y - area.y;
            let bottom = area.y + area.height - (overlay.y + overlay.height);
            &&& 0 <= left <= right <= left + 1
            &&& 0 <= top <= bottom <= top + 1
        }),
{
}

/// The menu group sits vertically centered when the screen holds it, the
/// logo right above the options box with one row between them, and the
/// options box is horizontally centered when the screen is wide enough.
pub proof fn lemma_menu_is_centered(area: Area)
    requires
        area_is_addressable(area),
    ensures
        ({
            let layout = menu_layout_in(area);
            let group = LOGO_HEIGHT + MENU_GAP + MENU_BOX_HEIGHT;
            &&& area.height >= group ==> {
                let above = layout.logo_top - area.y;
                let below = area.y + area.height - (layout.logo_top + group);
                &&& 0 <= above <= below <= above + 1
                &&& layout.logo_rows == LOGO_HEIGHT
                &&& layout.options_box.y == layout.logo_top + LOGO_HEIGHT + MENU_GAP
                &&& layout.options_box.height == MENU_BOX_HEIGHT
            }
            &&& area.height < group ==> layout.logo_top == area.y
            &&& area.width >= MENU_BOX_WIDTH ==> {
                let left = layout.options_box.x - area.x;
                let right = area.x + area.width - (layout.options_box.x + MENU_BOX_WIDTH);
                &&& layout.options_box.width == MENU_BOX_WIDTH
                &&& 0 <= left <= right <= left + 1
            }
        }),
{
}

/// The countdown shows whole seconds rounded up: the seconds shown cover
/// the ticks left, and one second less would not.
pub proof fn lemma_countdown_rounds_up(ticks_left: u16)
    ensures
        seconds_until(ticks_left) * TICKS_PER_SEC >= ticks_left,
        ticks_left > 0 ==> (seconds_until(ticks_left) - 1) * TICKS_PER_SEC < ticks_left,
        ticks_left == 0 ==> seconds_until(ticks_left) == 0,
{
}

} // verus!
