//! The state of the file picker: the directory shown, its listing and the cursor.
use vstd::prelude::*;
use crate::text::{chars_of, same_chars, ends_with_chars, ends_with};

verus! {

#[derive(Clone)]
pub struct FileExplorer {
    pub current_dir: String,
    pub files: Vec<String>,
    pub selected_index: usize,
}

/// What choosing the entry under the cursor asks for.
pub enum Selection {
    /// The listing is empty.
    Nothing,
    /// The entry leads to the parent directory.
    Parent,
    /// The entry is a directory to show.
    Directory(String),
    /// The entry is a file: the choice is made.
    File(String),
}

/// The path's last component is `..`.
pub open spec fn is_parent_link(p: Seq<char>) -> bool {
    p == ".."@ || ends_with(p, "/.."@)
}

impl FileExplorer {
    /// The cursor lies on an entry, or at the start of an empty listing.
    pub open spec fn wf(&self) -> bool {
        if self.files@.len() == 0 {
            self.selected_index == 0
        } else {
            self.selected_index < self.files@.len()
        }
    }

    /// A picker on `current_dir` whose listing is not read yet.
    pub fn new(current_dir: String) -> (r: Self)
        ensures
            r.current_dir@ == current_dir@,
            r.files@.len() == 0,
            r.selected_index == 0,
            r.wf(),
    {
        FileExplorer { current_dir, files: Vec::new(), selected_index: 0 }
    }

    /// Replaces the listing: the link to the parent directory where there is one, then
    /// the directories, then the files, each in the order given; the cursor goes to the
    /// top.
    pub fn set_listing(&mut self, parent: Option<String>, dirs: Vec<String>, files: Vec<String>)
        ensures
            final(self).files@ == (match parent {
                Some(p) => seq![p],
                None => Seq::empty(),
            }) + dirs@ + files@,
            final(self).selected_index == 0,
            final(self).current_dir == old(self).current_dir,
            final(self).wf(),
    {
        let mut all: Vec<String> = Vec::new();
        if let Some(p) = parent {
            all.push(p);
        }
        let mut d = dirs;
        let mut f = files;
        all.append(&mut d);
        all.append(&mut f);
        self.files = all;
        self.selected_index = 0;
    }

    /// Moves the cursor down, from the last entry back to the first.
    pub fn next(&mut self)
        requires
            old(self).wf(),
        ensures
            final(self).wf(),
            final(self).files == old(self).files,
            final(self).current_dir == old(self).current_dir,
            old(self).files@.len() > 0 ==> final(self).selected_index == (old(self).selected_index
                + 1) % (old(self).files@.len() as int),
            old(self).files@.len() == 0 ==> final(self).selected_index == old(self).selected_index,
    {
        if self.files.len() > 0 {
            self.selected_index = (self.selected_index + 1) % self.files.len();
        }
    }

    /// Moves the cursor up, from the first entry round to the last.
    pub fn previous(&mut self)
        requires
            old(self).wf(),
        ensures
            final(self).wf(),
            final(self).files == old(self).files,
            final(self).current_dir == old(self).current_dir,
            old(self).files@.len() > 0 && old(self).selected_index == 0 ==> final(self).selected_index
                == old(self).files@.len() - 1,
            old(self).selected_index > 0 ==> final(self).selected_index == old(self).selected_index
                - 1,
            old(self).files@.len() == 0 ==> final(self).selected_index == old(self).selected_index,
    {
        if self.files.len() > 0 {
            if self.selected_index == 0 {
                self.selected_index = self.files.len() - 1;
            } else {
                self.selected_index -= 1;
            }
        }
    }

    /// The entry under the cursor.
    pub fn selected(&self) -> (r: Option<&String>)
        requires
            self.files@.len() == 0 || self.selected_index < self.files@.len(),
        ensures
            self.files@.len() == 0 <==> r is None,
            r matches Some(p) ==> *p == self.files@[self.selected_index as int],
    {
        if self.files.len() == 0 {
            None
        } else {
            Some(&self.files[self.selected_index])
        }
    }

    /// Chooses the entry under the cursor; `selected_is_dir` tells whether it is a
    /// directory.
    pub fn select(&self, selected_is_dir: bool) -> (r: Selection)
        requires
            self.files@.len() == 0 || self.selected_index < self.files@.len(),
        ensures
            self.files@.len() == 0 <==> r is Nothing,
            self.files@.len() > 0 ==> {
                let p = self.files@[self.selected_index as int];
                if is_parent_link(p@) {
                    r is Parent
                } else if selected_is_dir {
                    r matches Selection::Directory(d) && d@ == p@
                } else {
                    r matches Selection::File(f) && f@ == p@
                }
            },
    {
        if self.files.len() == 0 {
            return Selection::Nothing;
        }
        let p = &self.files[self.selected_index];
        let c = chars_of(p.as_str());
        if same_chars(&c, &chars_of("..")) || ends_with_chars(&c, &chars_of("/..")) {
            Selection::Parent
        } else if selected_is_dir {
            Selection::Directory(p.clone())
        } else {
            Selection::File(p.clone())
        }
    }
}

} // verus!
