//! The two request shapes that carry paths. A path is taken as written: it
//! is neither normalised nor resolved, and it may be empty.

use vstd::prelude::*;

verus! {

/// Request to move one file or directory to the trash.
#[derive(Debug, PartialEq, Eq)]
pub struct TrashFileParams {
    /// Path of the entry.
    pub path: String,
}

impl View for TrashFileParams {
    type V = Seq<char>;

    /// The path, as text.
    open spec fn view(&self) -> Seq<char> {
        self.path@
    }
}

/// Request to move several files or directories to the trash.
#[derive(Debug, PartialEq, Eq)]
pub struct TrashFilesParams {
    /// Paths of the entries in the order asked for; one may occur twice.
    pub paths: Vec<String>,
}

impl View for TrashFilesParams {
    type V = Seq<Seq<char>>;

    /// The paths, as texts, in request order.
    open spec fn view(&self) -> Seq<Seq<char>> {
        self.paths.deep_view()
    }
}

} // verus!
