//! A model of the file system that the memo operations act on: which files
//! there are and what they hold, and which directories there are.

use vstd::prelude::*;

verus! {

/// The files and directories of a disk, by path.
pub struct Disk {
    pub files: Map<Seq<char>, Seq<char>>,
    pub dirs: Set<Seq<char>>,
}

/// What became of creating a file that must not exist yet.
#[derive(Debug, Clone, Copy, PartialEq, Eq)]
pub enum FileCreation {
    /// The file was absent and now holds the content.
    Created,
    /// A file of that name exists; it was left alone.
    Exists,
    /// The file could not be created; nothing was written.
    Failed,
}

impl Disk {
    /// Whether something stands at `path`.
    pub open spec fn has(self, path: Seq<char>) -> bool {
        self.files.contains_key(path) || self.dirs.contains(path)
    }

    /// Whether every file of `self` is still there in `later`, with the
    /// content it had.
    pub open spec fn kept_by(self, later: Disk) -> bool {
        forall|p: Seq<char>| #[trigger]
            self.files.contains_key(p) ==> later.files.contains_key(p) && later.files[p]
                == self.files[p]
    }

    /// Whether `outcome` can be what creating the new file `path` on this
    /// disk comes to: it succeeds only where nothing stands at `path`, and
    /// reports an existing file only where one is.
    pub open spec fn creation_answers(self, path: Seq<char>, outcome: FileCreation) -> bool {
        match outcome {
            FileCreation::Created => !self.has(path),
            FileCreation::Exists => self.has(path),
            FileCreation::Failed => true,
        }
    }

    /// The disk after creating the new file `path` with `content` came to
    /// `outcome`: only a success changes it.
    pub open spec fn after_creation(
        self,
        path: Seq<char>,
        content: Seq<char>,
        outcome: FileCreation,
    ) -> Disk {
        match outcome {
            FileCreation::Created => Disk { files: self.files.insert(path, content), ..self },
            _ => self,
        }
    }
}

} // verus!
