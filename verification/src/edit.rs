//! Editing a memo that the user picks from a list. The library decides; its
//! caller looks at the disk and runs the shell, and reports back.

use vstd::prelude::*;
use vstd::string::*;
use crate::config::{Config, ConfigView};
use crate::create::CommandRun;
use crate::disk::Disk;
use crate::error::{ConfigFault, MemoError, MemoErrorView};

verus! {

/// The shell line that lists the memos of `memo_dir`, lets `selector` pick
/// one, and hands the pick to `editor`.
pub open spec fn pipeline_of(memo_dir: Seq<char>, selector: Seq<char>, editor: Seq<char>) -> Seq<
    char,
> {
    "ls "@ + memo_dir + "/*.md | "@ + selector + " | xargs "@ + editor
}

/// The shell line that lists the memos of `memo_dir`, lets `selector` pick
/// one, and hands the pick to `editor`.
pub fn selector_pipeline(memo_dir: &str, selector: &str, editor: &str) -> (line: String)
    ensures
        line@ == pipeline_of(memo_dir@, selector@, editor@),
{
    let mut line = String::from_str("ls ");
    line.append(memo_dir);
    line.append("/*.md | ");
    line.append(selector);
    line.append(" | xargs ");
    line.append(editor);
    line
}

/// How an editing session ended, where it did not fail.
#[derive(Debug, Clone, Copy, PartialEq, Eq)]
pub enum EditEnd {
    /// The pipeline ran to its end.
    Edited,
    /// The pipeline gave up with this code, as it does when the user leaves
    /// the selector without a pick.
    Cancelled { code: i32 },
}

/// What the caller reports back to an editing session.
#[derive(Debug, Clone, Copy, PartialEq, Eq)]
pub enum EditEvent {
    /// Whether the memo directory is there.
    DirChecked { exists: bool },
    /// What became of the shell.
    Shell(CommandRun),
}

/// What an editing session asks of its caller next.
#[derive(Debug, PartialEq, Eq)]
pub enum EditAction {
    /// Tell whether the directory `path` is there.
    CheckDir { path: String },
    /// Run the shell on `line` in the foreground and wait for it.
    RunShell { line: String },
    /// Nothing more: the session has ended.
    Finish { outcome: Result<EditEnd, MemoError> },
}

/// An `EditAction` with its texts as sequences.
pub enum EditActionView {
    CheckDir { path: Seq<char> },
    RunShell { line: Seq<char> },
    Finish { outcome: Result<EditEnd, MemoErrorView> },
}

/// The outcome of a session with its texts as sequences.
pub open spec fn end_view(outcome: Result<EditEnd, MemoError>) -> Result<EditEnd, MemoErrorView> {
    match outcome {
        Ok(end) => Ok(end),
        Err(e) => Err(e@),
    }
}

impl View for EditAction {
    type V = EditActionView;

    open spec fn view(&self) -> EditActionView {
        match *self {
            EditAction::CheckDir { path } => EditActionView::CheckDir { path: path@ },
            EditAction::RunShell { line } => EditActionView::RunShell { line: line@ },
            EditAction::Finish { outcome } => EditActionView::Finish { outcome: end_view(outcome) },
        }
    }
}

/// An editing session: how far it has come.
#[derive(Debug, PartialEq, Eq)]
pub enum EditSession {
    /// Waiting to hear whether the memo directory `memo_dir` is there; after
    /// that `pipeline` is to run, if there is a selector to make one with.
    Checking { memo_dir: String, pipeline: Option<String> },
    /// Waiting for the shell to end with `line`.
    Running { line: String },
    /// Ended.
    Finished { outcome: Result<EditEnd, MemoError> },
}

/// An `EditSession` with its texts as sequences.
pub enum EditSessionView {
    Checking { memo_dir: Seq<char>, pipeline: Option<Seq<char>> },
    Running { line: Seq<char> },
    Finished { outcome: Result<EditEnd, MemoErrorView> },
}

impl View for EditSession {
    type V = EditSessionView;

    open spec fn view(&self) -> EditSessionView {
        match *self {
            EditSession::Checking { memo_dir, pipeline } => EditSessionView::Checking {
                memo_dir: memo_dir@,
                pipeline: match pipeline {
                    Some(l) => Some(l@),
                    None => None,
                },
            },
            EditSession::Running { line } => EditSessionView::Running { line: line@ },
            EditSession::Finished { outcome } => EditSessionView::Finished {
                outcome: end_view(outcome),
            },
        }
    }
}

/// The session for `config`, before anything has happened.
pub open spec fn opened(config: ConfigView) -> EditSessionView {
    EditSessionView::Checking {
        memo_dir: config.memo_dir,
        pipeline: match config.selector_command {
            Some(selector) => Some(
                pipeline_of(config.memo_dir, selector, config.editor_command),
            ),
            None => None,
        },
    }
}

impl EditSessionView {
    /// What the session asks of its caller in this state.
    pub open spec fn pending(self) -> EditActionView {
        match self {
            EditSessionView::Checking { memo_dir, pipeline } => EditActionView::CheckDir {
                path: memo_dir,
            },
            EditSessionView::Running { line } => EditActionView::RunShell { line },
            EditSessionView::Finished { outcome } => EditActionView::Finish { outcome },
        }
    }

    /// The state that follows when the caller reports `event`. An event
    /// that does not answer the pending action changes nothing.
    pub open spec fn next(self, event: EditEvent) -> EditSessionView {
        match (self, event) {
            (
                EditSessionView::Checking { memo_dir, pipeline },
                EditEvent::DirChecked { exists },
            ) => if !exists {
                EditSessionView::Finished {
                    outcome: Err(MemoErrorView::NotFound { path: memo_dir }),
                }
            } else {
                match pipeline {
                    Some(line) => EditSessionView::Running { line },
                    None => EditSessionView::Finished {
                        outcome: Err(
                            MemoErrorView::Config { fault: ConfigFault::SelectorMissing },
                        ),
                    },
                }
            },
            (EditSessionView::Running { line }, EditEvent::Shell(run)) => match run {
                CommandRun::Exited { code } => EditSessionView::Finished {
                    outcome: Ok(
                        if code == 0 {
                            EditEnd::Edited
                        } else {
                            EditEnd::Cancelled { code }
                        },
                    ),
                },
                _ => EditSessionView::Finished {
                    outcome: Err(MemoErrorView::Process { command: line }),
                },
            },
            _ => self,
        }
    }
}

impl EditSession {
    /// What the session asks of its caller in this state.
    pub fn pending(&self) -> (action: EditAction)
        ensures
            action@ == self@.pending(),
    {
        match self {
            EditSession::Checking { memo_dir, pipeline } => EditAction::CheckDir {
                path: memo_dir.clone(),
            },
            EditSession::Running { line } => EditAction::RunShell { line: line.clone() },
            EditSession::Finished { outcome } => EditAction::Finish {
                outcome: match outcome {
                    Ok(end) => Ok(*end),
                    Err(e) => Err(e.duplicate()),
                },
            },
        }
    }

    /// Takes the caller's report and moves on.
    pub fn step(self, event: EditEvent) -> (after: EditSession)
        ensures
            after@ == self@.next(event),
    {
        match (self, event) {
            (EditSession::Checking { memo_dir, pipeline }, EditEvent::DirChecked { exists }) => {
                if !exists {
                    EditSession::Finished { outcome: Err(MemoError::NotFound { path: memo_dir }) }
                } else {
                    match pipeline {
                        Some(line) => EditSession::Running { line },
                        None => EditSession::Finished {
                            outcome: Err(
                                MemoError::Config { fault: ConfigFault::SelectorMissing },
                            ),
                        },
                    }
                }
            },
            (EditSession::Running { line }, EditEvent::Shell(run)) => match run {
                CommandRun::Exited { code } => EditSession::Finished {
                    outcome: Ok(
                        if code == 0 {
                            EditEnd::Edited
                        } else {
                            EditEnd::Cancelled { code }
                        },
                    ),
                },
                _ => EditSession::Finished { outcome: Err(MemoError::Process { command: line }) },
            },
            (session, _) => session,
        }
    }
}

/// Opens an editing session for `config`.
pub fn edit_memo(config: &Config) -> (session: EditSession)
    ensures
        session@ == opened(config@),
{
    let pipeline = match &config.selector_command {
        Some(selector) => Some(
            selector_pipeline(
                config.memo_dir.as_str(),
                selector.as_str(),
                config.editor_command.as_str(),
            ),
        ),
        None => None,
    };
    EditSession::Checking { memo_dir: config.memo_dir.clone(), pipeline }
}

/// Whether `event` can be what a caller that acts on `disk` reports on
/// `action`.
pub open spec fn edit_answer(disk: Disk, action: EditActionView, event: EditEvent) -> bool {
    match (action, event) {
        (EditActionView::CheckDir { path }, EditEvent::DirChecked { exists }) => exists
            == disk.has(path),
        (EditActionView::RunShell { line }, EditEvent::Shell(run)) => true,
        _ => false,
    }
}

/// Without the memo directory an editing session ends with `NotFound`, and
/// no command runs: the one action before the end is the look at the
/// directory.
pub proof fn lemma_missing_dir_runs_nothing(config: ConfigView, disk: Disk, event: EditEvent)
    requires
        !disk.has(config.memo_dir),
        edit_answer(disk, opened(config).pending(), event),
    ensures
        opened(config).pending() == (EditActionView::CheckDir { path: config.memo_dir }),
        opened(config).next(event) == (EditSessionView::Finished {
            outcome: Err(MemoErrorView::NotFound { path: config.memo_dir }),
        }),
        opened(config).next(event).pending() == (EditActionView::Finish {
            outcome: Err(MemoErrorView::NotFound { path: config.memo_dir }),
        }),
{
}

} // verus!
