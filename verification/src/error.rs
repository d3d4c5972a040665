//! The ways in which a memo operation can fail.

use vstd::prelude::*;

verus! {

/// Why no configuration could be produced.
#[derive(Debug, Clone, Copy, PartialEq, Eq)]
pub enum ConfigFault {
    /// The home directory could not be determined.
    HomeMissing,
    /// The home directory is known, but its path is not valid Unicode.
    HomeNotText,
    /// The configuration file could not be read.
    Unreadable,
    /// The configuration file does not hold a configuration record.
    Unparsable,
    /// The operation needs a selector command and none is configured.
    SelectorMissing,
}

/// An error of a memo operation.
#[derive(Debug, Clone, PartialEq, Eq)]
pub enum MemoError {
    /// A file or directory could not be read, written or created.
    Io { path: String },
    /// The configuration is missing or cannot be used.
    Config { fault: ConfigFault },
    /// A memo of that name already exists.
    AlreadyExists { path: String },
    /// The memo directory or file is absent.
    NotFound { path: String },
    /// A command could not be started, or was killed.
    Process { command: String },
}

/// A `MemoError` with its texts as sequences.
pub enum MemoErrorView {
    Io { path: Seq<char> },
    Config { fault: ConfigFault },
    AlreadyExists { path: Seq<char> },
    NotFound { path: Seq<char> },
    Process { command: Seq<char> },
}

impl View for MemoError {
    type V = MemoErrorView;

    open spec fn view(&self) -> MemoErrorView {
        match *self {
            MemoError::Io { path } => MemoErrorView::Io { path: path@ },
            MemoError::Config { fault } => MemoErrorView::Config { fault },
            MemoError::AlreadyExists { path } => MemoErrorView::AlreadyExists { path: path@ },
            MemoError::NotFound { path } => MemoErrorView::NotFound { path: path@ },
            MemoError::Process { command } => MemoErrorView::Process { command: command@ },
        }
    }
}

impl MemoError {
    /// A second error with the same texts.
    pub fn duplicate(&self) -> (copy: MemoError)
        ensures
            copy@ == self@,
    {
        match self {
            MemoError::Io { path } => MemoError::Io { path: path.clone() },
            MemoError::Config { fault } => MemoError::Config { fault: *fault },
            MemoError::AlreadyExists { path } => MemoError::AlreadyExists { path: path.clone() },
            MemoError::NotFound { path } => MemoError::NotFound { path: path.clone() },
            MemoError::Process { command } => MemoError::Process { command: command.clone() },
        }
    }
}

} // verus!
