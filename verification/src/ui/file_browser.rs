//! The file browser screen: its headings, the rows of the file list and
//! the text shown when there is no file.

use vstd::prelude::*;
use crate::app::mode::BrowserPurpose;
use crate::domain::text::{cat, decimal, owned, u64_to_text};
use crate::state::file_state::FileState;

verus! {

/// The heading of the browser.
pub open spec fn browser_heading(p: BrowserPurpose) -> Seq<char> {
    match p {
        BrowserPurpose::Create => "INFO JSON CREATOR"@,
        BrowserPurpose::Edit => "EDIT EXISTING CONFIG"@,
    }
}

/// The hint under the heading.
pub open spec fn browser_hint(p: BrowserPurpose) -> Seq<char> {
    match p {
        BrowserPurpose::Create => "Select existing file to continue editing, or press 'n' to create new"@,
        BrowserPurpose::Edit => "Select a file to load and edit"@,
    }
}

/// The label of the file list.
pub open spec fn browser_list_label(p: BrowserPurpose) -> Seq<char> {
    match p {
        BrowserPurpose::Create => "SCAN & LIST / CREATE"@,
        BrowserPurpose::Edit => "SELECT FILE TO EDIT"@,
    }
}

/// The heading, hint and list label of the browser for `p`.
pub fn browser_texts(p: BrowserPurpose) -> (r: (&'static str, &'static str, &'static str))
    ensures
        r.0@ == browser_heading(p),
        r.1@ == browser_hint(p),
        r.2@ == browser_list_label(p),
{
    match p {
        BrowserPurpose::Create => (
            "INFO JSON CREATOR",
            "Select existing file to continue editing, or press 'n' to create new",
            "SCAN & LIST / CREATE",
        ),
        BrowserPurpose::Edit => ("EDIT EXISTING CONFIG", "Select a file to load and edit", "SELECT FILE TO EDIT"),
    }
}

/// What the browser shows when there is no file.
pub open spec fn empty_browser(p: BrowserPurpose) -> Seq<char> {
    match p {
        BrowserPurpose::Create => "\n  No JSON files found in INFO_JSON/\n\n  "@ + browser_hint(p)
            + "\n\n  Press 'n' to create a new configuration.\n  Press Esc to go back."@,
        BrowserPurpose::Edit => "\n  No JSON files found in INFO_JSON/\n\n  Nothing to edit.\n  Press Esc to go back."@,
    }
}

/// What the browser shows when there is no file.
pub fn empty_browser_text(p: BrowserPurpose) -> (r: String)
    ensures
        r@ == empty_browser(p),
{
    match p {
        BrowserPurpose::Create => {
            let r = cat(owned("\n  No JSON files found in INFO_JSON/\n\n  "), browser_texts(p).1);
            cat(r, "\n\n  Press 'n' to create a new configuration.\n  Press Esc to go back.")
        },
        BrowserPurpose::Edit => owned("\n  No JSON files found in INFO_JSON/\n\n  Nothing to edit.\n  Press Esc to go back."),
    }
}

/// The title of the file list: its label and how many files were found.
pub open spec fn browser_list_title(p: BrowserPurpose, n: nat) -> Seq<char> {
    browser_list_label(p) + " ("@ + decimal(n) + " found)"@
}

/// The title of the file list.
pub fn browser_list_title_text(p: BrowserPurpose, n: usize) -> (r: String)
    ensures
        r@ == browser_list_title(p, n as nat),
{
    let r = cat(owned(browser_texts(p).2), " (");
    let r = cat(r, u64_to_text(n as u64).as_str());
    cat(r, " found)")
}

/// A row of the file list: an arrow on the selected file, a diamond on the
/// others.
pub open spec fn file_row(name: Seq<char>, selected: bool) -> Seq<char> {
    (if selected { "  ▸ "@ } else { "  ◇ "@ }) + name + "  "@
}

/// The rows of the file list, each with whether it is the selected one.
pub fn file_rows(fs: &FileState) -> (r: Vec<(bool, String)>)
    ensures
        r@.len() == fs.files@.len(),
        forall|i: int|
            0 <= i < r@.len() ==> (#[trigger] r@[i]).0 == (i == fs.selected) && r@[i].1@ == file_row(
                fs.files@[i].0@,
                i == fs.selected,
            ),
{
    let mut r: Vec<(bool, String)> = Vec::new();
    let mut i: usize = 0;
    while i < fs.files.len()
        invariant
            i <= fs.files@.len(),
            r@.len() == i,
            forall|j: int|
                0 <= j < i ==> (#[trigger] r@[j]).0 == (j == fs.selected) && r@[j].1@ == file_row(
                    fs.files@[j].0@,
                    j == fs.selected,
                ),
        decreases fs.files.len() - i,
    {
        let sel = i == fs.selected;
        let start = if sel { owned("  ▸ ") } else { owned("  ◇ ") };
        let row = cat(cat(start, fs.files[i].0.as_str()), "  ");
        r.push((sel, row));
        i = i + 1;
    }
    r
}

} // verus!
