//! Files as the launcher names them: by directory and file name. The
//! embedding program joins the two when it touches the file system; the
//! library never looks into either.

use vstd::prelude::*;

verus! {

/// The file called `name` in the directory `dir`.
#[derive(Debug, Clone, PartialEq, Eq)]
pub struct FilePath {
    pub dir: String,
    pub name: String,
}

/// Mathematical value of a [`FilePath`].
pub struct FilePathView {
    pub dir: Seq<char>,
    pub name: Seq<char>,
}

impl View for FilePath {
    type V = FilePathView;

    open spec fn view(&self) -> FilePathView {
        FilePathView { dir: self.dir@, name: self.name@ }
    }
}

impl DeepView for FilePath {
    type V = FilePathView;

    open spec fn deep_view(&self) -> FilePathView {
        self@
    }
}

} // verus!
