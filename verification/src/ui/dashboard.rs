//! The dashboard screen: its menu and its separator lines.

use vstd::prelude::*;
use crate::domain::text::{cat, owned, push_char};

verus! {

/// The entries of the dashboard menu.
pub open spec fn menu_label(i: int) -> Seq<char> {
    if i == 0 { "Info Creator"@ } else { "Edit Existing Config"@ }
}

/// `n` box-drawing dashes.
pub open spec fn dashes(n: nat) -> Seq<char> {
    Seq::new(n, |i: int| '─')
}

/// A line of `n` dashes.
pub fn dash_line(n: usize) -> (r: String)
    ensures
        r@ == dashes(n as nat),
{
    let mut r = String::new();
    let mut i: usize = 0;
    while i < n
        invariant
            i <= n,
            r@ == dashes(i as nat),
        decreases n - i,
    {
        push_char(&mut r, '─');
        assert(r@ =~= dashes((i + 1) as nat));
        i = i + 1;
    }
    r
}

/// The dashes between the two diamonds of the separator of a screen
/// `width` cells wide: one diamond at each end.
pub fn separator_dashes(width: u16) -> (r: String)
    ensures
        r@ == dashes(if width >= 2 { (width - 2) as nat } else { 0 }),
{
    dash_line(width.saturating_sub(2) as usize)
}

/// One entry of the menu: the selected one is framed and underlined.
pub struct MenuEntry {
    pub selected: bool,
    pub text: String,
    pub underline: Option<String>,
}

/// How entry `i` of the menu reads when `selected` is the selected entry.
pub open spec fn menu_entry_ok(e: MenuEntry, i: int, selected: usize) -> bool {
    let label = menu_label(i);
    &&& e.selected == (i == selected)
    &&& if i == selected {
        &&& e.text@ == "▓▓▓  "@ + label + "  ▓▓▓"@
        &&& e.underline matches Some(u) && u@ == "     "@ + dashes(label.len()) + "     "@
    } else {
        &&& e.text@ == "    "@ + label + "    "@
        &&& e.underline is None
    }
}

fn menu_label_text(i: usize) -> (r: &'static str)
    ensures
        r@ == menu_label(i as int),
{
    if i == 0 { "Info Creator" } else { "Edit Existing Config" }
}

/// The two entries of the menu.
pub fn menu_entries(selected: usize) -> (r: Vec<MenuEntry>)
    ensures
        r@.len() == 2,
        forall|i: int| 0 <= i < 2 ==> menu_entry_ok(#[trigger] r@[i], i, selected),
{
    let mut r: Vec<MenuEntry> = Vec::new();
    let mut i: usize = 0;
    while i < 2
        invariant
            i <= 2,
            r@.len() == i,
            forall|j: int| 0 <= j < i ==> menu_entry_ok(#[trigger] r@[j], j, selected),
        decreases 2 - i,
    {
        let label = menu_label_text(i);
        proof {
            reveal_strlit("Info Creator");
            reveal_strlit("Edit Existing Config");
        }
        if i == selected {
            let text = cat(cat(owned("▓▓▓  "), label), "  ▓▓▓");
            let n: usize = if i == 0 { 12 } else { 20 };
            assert(n == label@.len());
            let under = cat(cat(owned("     "), dash_line(n).as_str()), "     ");
            r.push(MenuEntry { selected: true, text, underline: Some(under) });
        } else {
            let text = cat(cat(owned("    "), label), "    ");
            r.push(MenuEntry { selected: false, text, underline: None });
        }
        i = i + 1;
    }
    r
}

} // verus!
