//! Adapts files from a reference testcase into something testable with the
//! target compiler and the downstream runner. The adaptation is currently
//! the identity: files are handed on unchanged, in discovery order.

use vstd::prelude::*;

use crate::text::string_views;

verus! {

/// A cursor over a batch of discovered files being adapted.
pub struct FileAdaptor {
    /// The files being handed out, in order.
    pub files: Vec<String>,
    /// How many files have been handed out so far.
    pub pos: usize,
}

impl FileAdaptor {
    /// Hands out the next adapted file, or nothing once the batch is done.
    pub fn next(&mut self) -> (r: Option<String>)
        ensures
            match r {
                Some(f) => old(self).pos < old(self).files@.len()
                    && f@ == old(self).files@[old(self).pos as int]@
                    && final(self).pos == old(self).pos + 1
                    && final(self).files == old(self).files,
                None => old(self).pos >= old(self).files@.len() && *final(self) == *old(self),
            },
    {
        if self.pos < self.files.len() {
            let f = self.files[self.pos].clone();
            self.pos = self.pos + 1;
            Some(f)
        } else {
            None
        }
    }
}

/// Anything that stands for a batch of discovered files can be adapted.
pub trait FileAdaptorExt: Sized {
    /// The files this value stands for, in order.
    spec fn spec_files(self) -> Seq<Seq<char>>;

    /// Wraps the batch for adaptation, starting at its first file.
    fn adapt(self) -> (r: FileAdaptor)
        ensures
            string_views(r.files@) == self.spec_files(),
            r.pos == 0,
    ;
}

impl FileAdaptorExt for Vec<String> {
    open spec fn spec_files(self) -> Seq<Seq<char>> {
        string_views(self@)
    }

    fn adapt(self) -> (r: FileAdaptor) {
        FileAdaptor { files: self, pos: 0 }
    }
}

} // verus!
