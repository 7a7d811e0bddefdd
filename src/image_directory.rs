//! The images of one directory, the one on display, and how file-system
//! changes reach that list.
use vstd::prelude::*;

verus! {

/// An image file: its path, and its file name as shown to the user.
#[derive(Clone, Debug)]
pub struct ImageEntry {
    pub path: String,
    pub name: String,
}

/// A change of the directory that bears on its image files.
#[derive(Clone, Debug)]
pub enum Change {
    Create(ImageEntry),
    Remove(String),
    FileChange(String),
    Rename(String, ImageEntry),
}

/// The first position in `children` whose path is `path`.
pub open spec fn position_spec(children: Seq<ImageEntry>, path: Seq<char>) -> Option<int> {
    if exists|i: int| 0 <= i < children.len() && #[trigger] children[i].path@ == path {
        let i = choose|i: int|
            0 <= i < children.len() && #[trigger] children[i].path@ == path && forall|j: int|
                0 <= j < i ==> children[j].path@ != path;
        Some(i)
    } else {
        None
    }
}

fn position(children: &Vec<ImageEntry>, path: &String) -> (r: Option<usize>)
    ensures
        r is None <==> position_spec(children@, path@) is None,
        r matches Some(i) ==> position_spec(children@, path@) == Some(i as int) && i < children@.len(),
{
    let mut i: usize = 0;
    while i < children.len()
        invariant
            i <= children@.len(),
            forall|j: int| 0 <= j < i ==> children@[j].path@ != path@,
        decreases children@.len() - i,
    {
        if children[i].path.eq(path) {
            proof {
                let k = i as int;
                assert(0 <= k < children@.len() && children@[k].path@ == path@);
                let c = choose|c: int|
                    0 <= c < children@.len() && #[trigger] children@[c].path@ == path@ && forall|j: int|
                        0 <= j < c ==> children@[j].path@ != path@;
                assert(c == k) by {
                    if c < k {
                        assert(children@[c].path@ != path@);
                    }
                    if c > k {
                        assert(children@[k].path@ != path@);
                    }
                }
            }
            return Some(i);
        }
        i += 1;
    }
    None
}

/// The images of a directory and the one shown.
pub struct ImageDirectory {
    name: String,
    index: usize,
    children: Vec<ImageEntry>,
}

impl ImageDirectory {
    pub closed spec fn name_spec(&self) -> Seq<char> {
        self.name@
    }

    pub closed spec fn index_spec(&self) -> int {
        self.index as int
    }

    pub closed spec fn children_spec(&self) -> Seq<ImageEntry> {
        self.children@
    }

    /// The index points into the list, or the list is empty.
    pub closed spec fn wf(&self) -> bool {
        self.index < self.children@.len() || (self.index == 0 && self.children@.len() == 0)
    }

    /// The directory of `children` showing the image at `image_path`; `None`
    /// when no child has that path.
    pub fn new(children: Vec<ImageEntry>, image_path: &String) -> (r: Option<ImageDirectory>)
        ensures
            r is None <==> position_spec(children@, image_path@) is None,
            r matches Some(d) ==> {
                &&& d.wf()
                &&& d.children_spec() == children@
                &&& Some(d.index_spec()) == position_spec(children@, image_path@)
                &&& d.name_spec() == children@[d.index_spec()].name@
            },
    {
        match position(&children, image_path) {
            Some(index) => {
                let name = children[index].name.clone();
                Some(ImageDirectory { name, index, children })
            },
            None => None,
        }
    }

    /// The file name of the image shown.
    pub fn image_name(&self) -> (r: &String)
        ensures
            r@ == self.name_spec(),
    {
        &self.name
    }

    pub fn image_index(&self) -> (r: usize)
        ensures
            r == self.index_spec(),
    {
        self.index
    }

    pub fn count(&self) -> (r: usize)
        ensures
            r == self.children_spec().len(),
    {
        self.children.len()
    }

    /// The path of the image shown.
    pub fn current_image_path(&self) -> (r: &String)
        requires
            self.wf(),
            self.children_spec().len() > 0,
        ensures
            r@ == self.children_spec()[self.index_spec()].path@,
    {
        &self.children[self.index].path
    }

    /// Moves to the next image, from the last back to the first.
    pub fn next_image(&mut self) -> (r: &String)
        requires
            old(self).wf(),
            old(self).children_spec().len() > 0,
        ensures
            final(self).wf(),
            final(self).children_spec() == old(self).children_spec(),
            final(self).index_spec() == if old(self).index_spec() + 1 == old(self).children_spec().len() {
                0
            } else {
                old(self).index_spec() + 1
            },
            final(self).name_spec() == final(self).children_spec()[final(self).index_spec()].name@,
            r@ == final(self).children_spec()[final(self).index_spec()].path@,
    {
        if self.index == self.children.len() - 1 {
            self.index = 0;
        } else {
            self.index += 1;
        }
        self.name = self.children[self.index].name.clone();
        &self.children[self.index].path
    }

    /// Moves to the previous image, from the first back to the last.
    pub fn previous_image(&mut self) -> (r: &String)
        requires
            old(self).wf(),
            old(self).children_spec().len() > 0,
        ensures
            final(self).wf(),
            final(self).children_spec() == old(self).children_spec(),
            final(self).index_spec() == if old(self).index_spec() == 0 {
                old(self).children_spec().len() - 1
            } else {
                old(self).index_spec() - 1
            },
            final(self).name_spec() == final(self).children_spec()[final(self).index_spec()].name@,
            r@ == final(self).children_spec()[final(self).index_spec()].path@,
    {
        if self.index == 0 {
            self.index = self.children.len() - 1;
        } else {
            self.index -= 1;
        }
        self.name = self.children[self.index].name.clone();
        &self.children[self.index].path
    }

    /// Applies a change of the directory, if one came; returns whether the
    /// image shown has to be loaded again.
    ///
    /// A new file joins the end of the list; a removed one leaves it, and the
    /// position moves back one place when the removed file stood at or before
    /// it (the first place stays); a renamed one takes its new path and name
    /// in its place. A change of the image shown, or its removal, asks for a
    /// reload; a change that names a file not in the list (or a new file
    /// already in it) leaves the list as it is.
    pub fn check_for_changes(&mut self, change: Option<Change>) -> (reload: bool)
        requires
            old(self).wf(),
        ensures
            final(self).wf(),
            match change {
                None => {
                    &&& !reload
                    &&& final(self).children_spec() == old(self).children_spec()
                    &&& final(self).index_spec() == old(self).index_spec()
                    &&& final(self).name_spec() == old(self).name_spec()
                },
                Some(Change::Create(entry)) => {
                    &&& final(self).index_spec() == old(self).index_spec()
                    &&& final(self).name_spec() == old(self).name_spec()
                    &&& match position_spec(old(self).children_spec(), entry.path@) {
                        Some(i) => reload == (i == old(self).index_spec()) && final(self).children_spec()
                            == old(self).children_spec(),
                        None => !reload && final(self).children_spec() == old(self).children_spec().push(entry),
                    }
                },
                Some(Change::Remove(path)) => {
                    &&& final(self).name_spec() == old(self).name_spec()
                    &&& match position_spec(old(self).children_spec(), path@) {
                        Some(i) => {
                            &&& reload == (i == old(self).index_spec())
                            &&& final(self).children_spec() == old(self).children_spec().remove(i)
                            &&& final(self).index_spec() == if i <= old(self).index_spec() && old(self).index_spec() > 0 {
                                old(self).index_spec() - 1
                            } else {
                                old(self).index_spec()
                            }
                        },
                        None => {
                            &&& !reload
                            &&& final(self).children_spec() == old(self).children_spec()
                            &&& final(self).index_spec() == old(self).index_spec()
                        },
                    }
                },
                Some(Change::FileChange(path)) => {
                    &&& reload == (position_spec(old(self).children_spec(), path@) == Some(old(self).index_spec()))
                    &&& final(self).children_spec() == old(self).children_spec()
                    &&& final(self).index_spec() == old(self).index_spec()
                    &&& final(self).name_spec() == old(self).name_spec()
                },
                Some(Change::Rename(from, to)) => {
                    &&& !reload
                    &&& final(self).index_spec() == old(self).index_spec()
                    &&& match position_spec(old(self).children_spec(), from@) {
                        Some(i) => {
                            &&& final(self).children_spec() == old(self).children_spec().update(i, to)
                            &&& final(self).name_spec() == if i == old(self).index_spec() {
                                to.name@
                            } else {
                                old(self).name_spec()
                            }
                        },
                        None => {
                            &&& final(self).children_spec() == old(self).children_spec()
                            &&& final(self).name_spec() == old(self).name_spec()
                        },
                    }
                },
            },
    {
        match change {
            None => false,
            Some(Change::Create(entry)) => {
                match position(&self.children, &entry.path) {
                    Some(index) => index == self.index,
                    None => {
                        self.children.push(entry);
                        false
                    },
                }
            },
            Some(Change::Remove(path)) => {
                match position(&self.children, &path) {
                    Some(index) => {
                        self.children.remove(index);
                        let reload = index == self.index;
                        if index <= self.index && self.index > 0 {
                            self.index -= 1;
                        }
                        reload
                    },
                    None => false,
                }
            },
            Some(Change::FileChange(path)) => {
                match position(&self.children, &path) {
                    Some(index) => index == self.index,
                    None => false,
                }
            },
            Some(Change::Rename(from, to)) => {
                match position(&self.children, &from) {
                    Some(index) => {
                        if index == self.index {
                            self.name = to.name.clone();
                        }
                        self.children.set(index, to);
                        false
                    },
                    None => false,
                }
            },
        }
    }
}

} // verus!
