//! File browser state: the listed configuration files and the selection.

use vstd::prelude::*;

verus! {

/// The files of the configuration directory, each as (name without
/// extension, path), and the index of the selected one.
pub struct FileState {
    pub files: Vec<(String, String)>,
    pub selected: usize,
}

impl FileState {
    /// The selection points into the list whenever the list is not empty.
    pub open spec fn selection_in_list(&self) -> bool {
        self.files@.len() > 0 ==> self.selected < self.files@.len()
    }

    /// No files, first entry selected.
    pub fn new() -> (r: Self)
        ensures
            r.files@.len() == 0,
            r.selected == 0,
    {
        Self { files: Vec::new(), selected: 0 }
    }

    /// The selected file, if the selection points into the list.
    pub fn selected_file(&self) -> (r: Option<&(String, String)>)
        ensures
            r == if self.selected < self.files@.len() {
                Some(&self.files@[self.selected as int])
            } else {
                None::<&(String, String)>
            },
    {
        if self.selected < self.files.len() {
            Some(&self.files[self.selected])
        } else {
            None
        }
    }

    /// Moves the selection one down, stopping at the last file; nothing
    /// changes when there are no files.
    pub fn select_next(&mut self)
        requires
            old(self).files@.len() > 0 ==> old(self).selected < usize::MAX,
        ensures
            final(self).files == old(self).files,
            final(self).selected == if old(self).files@.len() == 0 {
                old(self).selected as int
            } else if old(self).selected + 1 < old(self).files@.len() {
                old(self).selected + 1
            } else {
                old(self).files@.len() - 1
            },
            old(self).selection_in_list() ==> final(self).selection_in_list(),
    {
        if self.files.len() > 0 {
            let next = self.selected + 1;
            let last = self.files.len() - 1;
            self.selected = if next < last {
                next
            } else {
                last
            };
        }
    }

    /// Moves the selection one up, stopping at the first file.
    pub fn select_prev(&mut self)
        ensures
            final(self).files == old(self).files,
            final(self).selected == if old(self).selected > 0 {
                old(self).selected - 1
            } else {
                0
            },
            old(self).selection_in_list() ==> final(self).selection_in_list(),
    {
        if self.selected > 0 {
            self.selected = self.selected - 1;
        }
    }
}

} // verus!
