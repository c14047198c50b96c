//! Popups: where a popup sits on the screen and the text of a form popup.

use vstd::prelude::*;
use ratatui::layout::{Constraint, Direction, Layout, Rect};
use crate::domain::text::{cat, owned};

verus! {

/// An area of the screen: its top-left cell and its size in cells.
#[derive(Debug, Clone, Copy, PartialEq, Eq, Structural)]
pub struct Area {
    pub x: u16,
    pub y: u16,
    pub width: u16,
    pub height: u16,
}

/// `inner` lies within `outer`.
pub open spec fn within(inner: Area, outer: Area) -> bool {
    &&& outer.x <= inner.x
    &&& inner.x + inner.width <= outer.x + outer.width
    &&& outer.y <= inner.y
    &&& inner.y + inner.height <= outer.y + outer.height
}

/// What holds of a part that a split of `area` gives along one direction:
/// it keeps the area's extent across that direction and lies within it.
pub open spec fn is_split_part(part: Area, area: Area, vertical: bool) -> bool {
    &&& within(part, area)
    &&& if vertical {
        part.x == area.x && part.width == area.width
    } else {
        part.y == area.y && part.height == area.height
    }
}

/// The position of `a` along the split direction.
pub open spec fn along_start(a: Area, vertical: bool) -> int {
    if vertical { a.y as int } else { a.x as int }
}

/// The length of `a` along the split direction.
pub open spec fn along_len(a: Area, vertical: bool) -> int {
    if vertical { a.height as int } else { a.width as int }
}

/// `v` is `exact / 100` rounded to the nearest cell: `100 * v` is within
/// half a cell of `exact`.
pub open spec fn rounds_to(v: int, exact: int) -> bool {
    -50 <= 100 * v - exact <= 50
}

/// The middle of three parts of `area` sized `first` and `middle` percent
/// (and a last one): it starts `first` percent of the area's length from the
/// area's start and ends `first + middle` percent from it, each rounded to
/// the nearest cell.
pub open spec fn middle_placed(part: Area, area: Area, vertical: bool, first: u16, middle: u16) -> bool {
    let s0 = along_start(area, vertical);
    let len = along_len(area, vertical);
    &&& rounds_to(along_start(part, vertical) - s0, len * first)
    &&& rounds_to(along_start(part, vertical) + along_len(part, vertical) - s0, len * (first + middle))
}

/// `Layout::split` of ratatui on three `Constraint::Percentage` parts; the
/// middle part is returned. ratatui turns each part into a rectangle that
/// keeps the area's extent across the split, and its solver keeps every
/// edge inside the area (required constraints); rounding to cells keeps it
/// there. With the default `Flex::Start` the first spacer and the spacers
/// between parts are empty and each percentage is a strong equality on the
/// part's size, so when the three percentages add up to at most 100 they
/// are all met: the middle part starts at `first` percent of the length and
/// ends at `first + middle` percent, each rounded to the nearest cell, as
/// long as the area's end fits in a `u16` (ratatui saturates it otherwise).
/// When the percentages add up to more than 100 they conflict and only the
/// containment is stated.
#[verifier::external_body]
fn split_middle(vertical: bool, first: u16, middle: u16, last: u16, area: Area) -> (r: Area)
    ensures
        is_split_part(r, area, vertical),
        first + middle + last <= 100 && along_start(area, vertical) + along_len(area, vertical) <= u16::MAX
            ==> middle_placed(r, area, vertical, first, middle),
{
    let direction = if vertical { Direction::Vertical } else { Direction::Horizontal };
    let rect = Rect { x: area.x, y: area.y, width: area.width, height: area.height };
    let parts = Layout::default()
        .direction(direction)
        .constraints([Constraint::Percentage(first), Constraint::Percentage(middle), Constraint::Percentage(last)])
        .split(rect);
    Area { x: parts[1].x, y: parts[1].y, width: parts[1].width, height: parts[1].height }
}

/// The popup centred in `r` that takes `percent_x` percent of its width and
/// `percent_y` percent of its height: it lies within `r`, and along each
/// direction it starts after a side of `(100 - percent) / 2` percent and
/// ends `percent` percent later, each rounded to the nearest cell (for an
/// area whose end fits in a `u16`).
pub open spec fn centered_in(c: Area, r: Area, percent_x: u16, percent_y: u16) -> bool {
    let side_x = (100 - percent_x) / 2;
    let side_y = (100 - percent_y) / 2;
    &&& within(c, r)
    &&& r.y + r.height <= u16::MAX ==> rounds_to(c.y - r.y, r.height * side_y) && rounds_to(
        c.y + c.height - r.y,
        r.height * (side_y + percent_y),
    )
    &&& r.x + r.width <= u16::MAX ==> rounds_to(c.x - r.x, r.width * side_x) && rounds_to(
        c.x + c.width - r.x,
        r.width * (side_x + percent_x),
    )
}

/// Compute a centered rect: the middle row of a vertical three-way split by
/// `percent_y`, then the middle column of that row by `percent_x`.
pub fn centered_rect(percent_x: u16, percent_y: u16, r: Area) -> (c: Area)
    requires
        percent_x <= 100,
        percent_y <= 100,
    ensures
        centered_in(c, r, percent_x, percent_y),
{
    let side_y = (100 - percent_y) / 2;
    let row = split_middle(true, side_y, percent_y, side_y, r);
    let side_x = (100 - percent_x) / 2;
    let c = split_middle(false, side_x, percent_x, side_x, row);
    assert(row.x == r.x && row.width == r.width);
    assert(c.y == row.y && c.height == row.height);
    c
}

/// The height of a form popup with `n` fields on a screen `screen_height`
/// rows high: three rows a field and six more, but no more than the
/// screen less four rows.
pub open spec fn popup_height(n: nat, screen_height: u16) -> u16 {
    let want: int = (n * 3 + 6) as int;
    let room: int = if screen_height >= 4 { screen_height - 4 } else { 0 };
    (if want < room { want } else { room }) as u16
}

/// The height of a form popup with `n` fields, the count taken as a `u16`
/// (so wrapping around past `u16::MAX`).
pub fn form_popup_height(n: usize, screen_height: u16) -> (h: u16)
    requires
        (n as u16) * 3 + 6 <= u16::MAX,
    ensures
        h == popup_height((n as u16) as nat, screen_height),
{
    #[verifier::truncate]
    let count = n as u16;
    let want = count * 3 + 6;
    let room = screen_height.saturating_sub(4);
    if want < room { want } else { room }
}

/// One line of a form popup: an arrow in front of the focused field and a
/// cursor after its value.
pub open spec fn popup_line(label: Seq<char>, value: Seq<char>, focused: bool) -> Seq<char> {
    (if focused { "▸"@ } else { " "@ }) + " "@ + label + ": "@ + value + (if focused { "█"@ } else { Seq::empty() })
        + "\n"@
}

/// The text of a form popup showing the first `k` fields, with an empty
/// line between neighbours.
pub open spec fn popup_text(fields: Seq<(String, String)>, k: nat, focused: int) -> Seq<char>
    decreases k,
{
    if k == 0 {
        Seq::empty()
    } else {
        let prev = popup_text(fields, (k - 1) as nat, focused);
        let line = popup_line(fields[k - 1].0@, fields[k - 1].1@, k - 1 == focused);
        if k == 1 {
            line
        } else {
            prev + "\n"@ + line
        }
    }
}

/// The text of a form popup with the given labelled values.
pub fn form_popup_text(fields: &Vec<(String, String)>, focused: usize) -> (r: String)
    ensures
        r@ == popup_text(fields@, fields@.len(), focused as int),
{
    let mut r = String::new();
    let mut i: usize = 0;
    while i < fields.len()
        invariant
            i <= fields@.len(),
            r@ == popup_text(fields@, i as nat, focused as int) + if 0 < i < fields@.len() {
                "\n"@
            } else {
                Seq::empty()
            },
        decreases fields.len() - i,
    {
        let ghost before = popup_text(fields@, i as nat, focused as int);
        let on = i == focused;
        let start = r.clone();
        let mut line = if on { owned("▸") } else { owned(" ") };
        line = cat(line, " ");
        line = cat(line, fields[i].0.as_str());
        line = cat(line, ": ");
        line = cat(line, fields[i].1.as_str());
        if on {
            line = cat(line, "█");
        } else {
            proof {
                assert(line@ + Seq::<char>::empty() =~= line@);
            }
        }
        line = cat(line, "\n");
        r = cat(start, line.as_str());
        proof {
            assert(line@ == popup_line(fields@[i as int].0@, fields@[i as int].1@, i == focused));
            if i == 0 {
                assert(r@ =~= popup_text(fields@, 1, focused as int));
            } else {
                assert(r@ =~= popup_text(fields@, (i + 1) as nat, focused as int));
            }
        }
        if i + 1 < fields.len() {
            r = cat(r, "\n");
        }
        i = i + 1;
    }
    proof {
        assert(r@ =~= popup_text(fields@, fields@.len(), focused as int));
    }
    r
}

} // verus!
