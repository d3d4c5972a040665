//! Creating a memo, step by step. The library decides; its caller touches
//! the disk and runs the editor, and reports back what happened.

use vstd::prelude::*;
use crate::clock::local_time_text;
use crate::config::{Config, ConfigView};
use crate::disk::{Disk, FileCreation};
use crate::error::{MemoError, MemoErrorView};
use crate::memo::{bare_heading, memo_path, memo_path_of, seed_content, seeded};

verus! {

/// What became of reading the template.
#[derive(Debug, Clone, PartialEq, Eq)]
pub enum TemplateRead {
    /// There is no file at the template's path.
    Missing,
    /// The template's text.
    Text(String),
    /// The file is there but could not be read.
    Failed,
}

/// A `TemplateRead` with its text as a sequence.
pub enum TemplateReadView {
    Missing,
    Text(Seq<char>),
    Failed,
}

impl View for TemplateRead {
    type V = TemplateReadView;

    open spec fn view(&self) -> TemplateReadView {
        match *self {
            TemplateRead::Missing => TemplateReadView::Missing,
            TemplateRead::Text(t) => TemplateReadView::Text(t@),
            TemplateRead::Failed => TemplateReadView::Failed,
        }
    }
}

/// What became of running a command in the foreground.
#[derive(Debug, Clone, Copy, PartialEq, Eq)]
pub enum CommandRun {
    /// The command could not be started.
    NotStarted,
    /// The command was started, but waiting for it failed.
    Lost,
    /// A signal ended the command.
    Killed,
    /// The command ran and exited by itself with this code.
    Exited { code: i32 },
}

/// What the caller reports back to a memo creation.
#[derive(Debug, Clone, PartialEq, Eq)]
pub enum MemoEvent {
    /// Whether something stands at the memo's path.
    Probed { exists: bool },
    /// The template, as far as it could be read.
    Template(TemplateRead),
    /// What became of creating the memo's file.
    Creation(FileCreation),
    /// What became of the editor.
    Editor(CommandRun),
}

/// A `MemoEvent` with its text as a sequence.
pub enum MemoEventView {
    Probed { exists: bool },
    Template(TemplateReadView),
    Creation(FileCreation),
    Editor(CommandRun),
}

impl View for MemoEvent {
    type V = MemoEventView;

    open spec fn view(&self) -> MemoEventView {
        match *self {
            MemoEvent::Probed { exists } => MemoEventView::Probed { exists },
            MemoEvent::Template(t) => MemoEventView::Template(t@),
            MemoEvent::Creation(c) => MemoEventView::Creation(c),
            MemoEvent::Editor(r) => MemoEventView::Editor(r),
        }
    }
}

/// What a memo creation asks of its caller next.
#[derive(Debug, PartialEq, Eq)]
pub enum MemoAction {
    /// Tell whether something stands at `path`.
    Probe { path: String },
    /// Read the template at `path`.
    ReadTemplate { path: String },
    /// Create the file `path` with `content` in one step, and only if no
    /// such file exists.
    CreateFile { path: String, content: String },
    /// Run `command` with `argument` as its only argument, in the
    /// foreground, and wait for it.
    LaunchEditor { command: String, argument: String },
    /// Nothing more: the creation has ended, with the memo's path or an
    /// error.
    Finish { outcome: Result<String, MemoError> },
}

/// A `MemoAction` with its texts as sequences.
pub enum MemoActionView {
    Probe { path: Seq<char> },
    ReadTemplate { path: Seq<char> },
    CreateFile { path: Seq<char>, content: Seq<char> },
    LaunchEditor { command: Seq<char>, argument: Seq<char> },
    Finish { outcome: Result<Seq<char>, MemoErrorView> },
}

/// The outcome of a creation with its texts as sequences.
pub open spec fn outcome_view(outcome: Result<String, MemoError>) -> Result<
    Seq<char>,
    MemoErrorView,
> {
    match outcome {
        Ok(path) => Ok(path@),
        Err(e) => Err(e@),
    }
}

impl View for MemoAction {
    type V = MemoActionView;

    open spec fn view(&self) -> MemoActionView {
        match *self {
            MemoAction::Probe { path } => MemoActionView::Probe { path: path@ },
            MemoAction::ReadTemplate { path } => MemoActionView::ReadTemplate { path: path@ },
            MemoAction::CreateFile { path, content } => MemoActionView::CreateFile {
                path: path@,
                content: content@,
            },
            MemoAction::LaunchEditor { command, argument } => MemoActionView::LaunchEditor {
                command: command@,
                argument: argument@,
            },
            MemoAction::Finish { outcome } => MemoActionView::Finish {
                outcome: outcome_view(outcome),
            },
        }
    }
}

/// How far a memo creation has come.
#[derive(Debug, PartialEq, Eq)]
pub enum Stage {
    /// Waiting to hear whether the memo exists already.
    Probing,
    /// Waiting for the template.
    Seeding,
    /// Waiting for the memo's file to be created with `content`.
    Writing { content: String },
    /// Waiting for the editor to end.
    Editing,
    /// Ended.
    Finished { outcome: Result<String, MemoError> },
}

/// A `Stage` with its texts as sequences.
pub enum StageView {
    Probing,
    Seeding,
    Writing { content: Seq<char> },
    Editing,
    Finished { outcome: Result<Seq<char>, MemoErrorView> },
}

impl View for Stage {
    type V = StageView;

    open spec fn view(&self) -> StageView {
        match *self {
            Stage::Probing => StageView::Probing,
            Stage::Seeding => StageView::Seeding,
            Stage::Writing { content } => StageView::Writing { content: content@ },
            Stage::Editing => StageView::Editing,
            Stage::Finished { outcome } => StageView::Finished { outcome: outcome_view(outcome) },
        }
    }
}

/// The creation of one memo: what it is about and how far it has come.
#[derive(Debug, PartialEq, Eq)]
pub struct MemoCreation {
    pub stage: Stage,
    /// The memo's path.
    pub path: String,
    /// The path of the template.
    pub template_path: String,
    /// The editor command.
    pub editor: String,
    /// The title as the user gave it.
    pub title: String,
    /// The moment of writing, as the template shows it.
    pub stamp: String,
}

/// A `MemoCreation` with its texts as sequences.
pub struct MemoCreationView {
    pub stage: StageView,
    pub path: Seq<char>,
    pub template_path: Seq<char>,
    pub editor: Seq<char>,
    pub title: Seq<char>,
    pub stamp: Seq<char>,
}

impl View for MemoCreation {
    type V = MemoCreationView;

    open spec fn view(&self) -> MemoCreationView {
        MemoCreationView {
            stage: self.stage@,
            path: self.path@,
            template_path: self.template_path@,
            editor: self.editor@,
            title: self.title@,
            stamp: self.stamp@,
        }
    }
}

/// The creation of the memo `title` on the day `date` at the moment `stamp`,
/// before anything has happened.
pub open spec fn planned(
    config: ConfigView,
    title: Seq<char>,
    date: Seq<char>,
    stamp: Seq<char>,
) -> MemoCreationView {
    MemoCreationView {
        stage: StageView::Probing,
        path: memo_path_of(config.memo_dir, date, title),
        template_path: config.template_path,
        editor: config.editor_command,
        title,
        stamp,
    }
}

/// The template as far as it seeds a memo.
pub open spec fn template_text(read: TemplateReadView) -> Option<Seq<char>> {
    match read {
        TemplateReadView::Text(t) => Some(t),
        _ => None,
    }
}

impl MemoCreationView {
    /// What the creation asks of its caller in this state.
    pub open spec fn pending(self) -> MemoActionView {
        match self.stage {
            StageView::Probing => MemoActionView::Probe { path: self.path },
            StageView::Seeding => MemoActionView::ReadTemplate { path: self.template_path },
            StageView::Writing { content } => MemoActionView::CreateFile {
                path: self.path,
                content,
            },
            StageView::Editing => MemoActionView::LaunchEditor {
                command: self.editor,
                argument: self.path,
            },
            StageView::Finished { outcome } => MemoActionView::Finish { outcome },
        }
    }

    /// The creation at another stage.
    pub open spec fn at(self, stage: StageView) -> MemoCreationView {
        MemoCreationView { stage, ..self }
    }

    /// The creation ended with `error`.
    pub open spec fn failed(self, error: MemoErrorView) -> MemoCreationView {
        self.at(StageView::Finished { outcome: Err(error) })
    }

    /// The state that follows when the caller reports `event`. An event
    /// that does not answer the pending action changes nothing.
    pub open spec fn next(self, event: MemoEventView) -> MemoCreationView {
        match (self.stage, event) {
            (StageView::Probing, MemoEventView::Probed { exists }) => if exists {
                self.failed(MemoErrorView::AlreadyExists { path: self.path })
            } else {
                self.at(StageView::Seeding)
            },
            (StageView::Seeding, MemoEventView::Template(read)) => match read {
                TemplateReadView::Failed => self.failed(
                    MemoErrorView::Io { path: self.template_path },
                ),
                _ => self.at(
                    StageView::Writing {
                        content: seeded(template_text(read), self.title, self.stamp),
                    },
                ),
            },
            (StageView::Writing { content }, MemoEventView::Creation(outcome)) => match outcome {
                FileCreation::Created => self.at(StageView::Editing),
                FileCreation::Exists => self.failed(
                    MemoErrorView::AlreadyExists { path: self.path },
                ),
                FileCreation::Failed => self.failed(MemoErrorView::Io { path: self.path }),
            },
            (StageView::Editing, MemoEventView::Editor(run)) => match run {
                CommandRun::Exited { code } => self.at(
                    StageView::Finished { outcome: Ok(self.path) },
                ),
                _ => self.failed(MemoErrorView::Process { command: self.editor }),
            },
            _ => self,
        }
    }
}

impl MemoCreation {
    /// Plans the creation of the memo `title` on the day `date` at the
    /// moment `stamp`.
    pub fn plan(config: &Config, title: &str, date: &str, stamp: &str) -> (creation: MemoCreation)
        ensures
            creation@ == planned(config@, title@, date@, stamp@),
    {
        MemoCreation {
            stage: Stage::Probing,
            path: memo_path(config.memo_dir.as_str(), date, title),
            template_path: config.template_path.clone(),
            editor: config.editor_command.clone(),
            title: title.to_owned(),
            stamp: stamp.to_owned(),
        }
    }

    /// What the creation asks of its caller in this state.
    pub fn pending(&self) -> (action: MemoAction)
        ensures
            action@ == self@.pending(),
    {
        match &self.stage {
            Stage::Probing => MemoAction::Probe { path: self.path.clone() },
            Stage::Seeding => MemoAction::ReadTemplate { path: self.template_path.clone() },
            Stage::Writing { content } => MemoAction::CreateFile {
                path: self.path.clone(),
                content: content.clone(),
            },
            Stage::Editing => MemoAction::LaunchEditor {
                command: self.editor.clone(),
                argument: self.path.clone(),
            },
            Stage::Finished { outcome } => MemoAction::Finish {
                outcome: match outcome {
                    Ok(path) => Ok(path.clone()),
                    Err(e) => Err(e.duplicate()),
                },
            },
        }
    }

    /// Takes the caller's report and moves on.
    pub fn step(self, event: MemoEvent) -> (after: MemoCreation)
        ensures
            after@ == self@.next(event@),
    {
        let MemoCreation { stage, path, template_path, editor, title, stamp } = self;
        let stage = match (stage, event) {
            (Stage::Probing, MemoEvent::Probed { exists }) => if exists {
                Stage::Finished { outcome: Err(MemoError::AlreadyExists { path: path.clone() }) }
            } else {
                Stage::Seeding
            },
            (Stage::Seeding, MemoEvent::Template(read)) => match read {
                TemplateRead::Failed => Stage::Finished {
                    outcome: Err(MemoError::Io { path: template_path.clone() }),
                },
                TemplateRead::Text(t) => Stage::Writing {
                    content: seed_content(Some(t.as_str()), title.as_str(), stamp.as_str()),
                },
                TemplateRead::Missing => Stage::Writing {
                    content: seed_content(None, title.as_str(), stamp.as_str()),
                },
            },
            (Stage::Writing { content }, MemoEvent::Creation(outcome)) => match outcome {
                FileCreation::Created => Stage::Editing,
                FileCreation::Exists => Stage::Finished {
                    outcome: Err(MemoError::AlreadyExists { path: path.clone() }),
                },
                FileCreation::Failed => Stage::Finished {
                    outcome: Err(MemoError::Io { path: path.clone() }),
                },
            },
            (Stage::Editing, MemoEvent::Editor(run)) => match run {
                CommandRun::Exited { code } => Stage::Finished { outcome: Ok(path.clone()) },
                _ => Stage::Finished {
                    outcome: Err(MemoError::Process { command: editor.clone() }),
                },
            },
            (stage, _) => stage,
        };
        MemoCreation { stage, path, template_path, editor, title, stamp }
    }
}

/// Begins the creation of a memo with this title: reads the clock for the
/// day and the moment of writing, and plans the creation with them. The
/// day is whatever the clock said; all else is fixed by the arguments.
pub fn create_memo(config: &Config, title: &str) -> (creation: MemoCreation)
    ensures
        exists|date: Seq<char>| creation@ == planned(config@, title@, date, creation@.stamp),
{
    let date = local_time_text("%Y-%m-%d");
    let stamp = local_time_text("%Y-%m-%d %H:%M:%S");
    let creation = MemoCreation::plan(config, title, date.as_str(), stamp.as_str());
    assert(creation@ == planned(config@, title@, date@, creation@.stamp));
    creation
}

/// Whether `event` can be what a caller that acts on `disk` reports on
/// `action`.
pub open spec fn memo_answer(disk: Disk, action: MemoActionView, event: MemoEventView) -> bool {
    match (action, event) {
        (MemoActionView::Probe { path }, MemoEventView::Probed { exists }) => exists == disk.has(
            path,
        ),
        (MemoActionView::ReadTemplate { path }, MemoEventView::Template(read)) => match read {
            TemplateReadView::Missing => !disk.has(path),
            TemplateReadView::Text(t) => disk.files.contains_key(path) && disk.files[path] == t,
            TemplateReadView::Failed => disk.has(path),
        },
        (
            MemoActionView::CreateFile { path, content },
            MemoEventView::Creation(outcome),
        ) => disk.creation_answers(path, outcome),
        (MemoActionView::LaunchEditor { command, argument }, MemoEventView::Editor(run)) => true,
        _ => false,
    }
}

/// Whether `later` can be the disk after a caller that acts on `disk` has
/// done `action` and reports `event`. What an editor that was started does
/// to the disk is open; all else is fixed.
pub open spec fn memo_effect(
    disk: Disk,
    action: MemoActionView,
    event: MemoEventView,
    later: Disk,
) -> bool {
    match (action, event) {
        (
            MemoActionView::CreateFile { path, content },
            MemoEventView::Creation(outcome),
        ) => later == disk.after_creation(path, content, outcome),
        (MemoActionView::LaunchEditor { command, argument }, MemoEventView::Editor(run)) => run
            !is NotStarted || later == disk,
        _ => later == disk,
    }
}

/// A creation changes no file that is there: until the editor runs, every
/// file keeps its content, whatever the caller reports.
pub proof fn lemma_creation_overwrites_nothing(
    creation: MemoCreationView,
    event: MemoEventView,
    disk: Disk,
    later: Disk,
)
    requires
        memo_answer(disk, creation.pending(), event),
        memo_effect(disk, creation.pending(), event, later),
        creation.stage !is Editing,
    ensures
        disk.kept_by(later),
{
}

/// The file of a memo that was created holds the seeded content: the
/// rendered template, or the bare heading where the template is missing or
/// empty.
pub proof fn lemma_created_memo_is_seeded(
    config: ConfigView,
    title: Seq<char>,
    date: Seq<char>,
    stamp: Seq<char>,
    read: TemplateReadView,
    disk: Disk,
    later: Disk,
)
    requires
        read !is Failed,
        ({
            let writing = planned(config, title, date, stamp).next(
                MemoEventView::Probed { exists: false },
            ).next(MemoEventView::Template(read));
            let created = MemoEventView::Creation(FileCreation::Created);
            memo_answer(disk, writing.pending(), created) && memo_effect(
                disk,
                writing.pending(),
                created,
                later,
            )
        }),
    ensures
        later.files.contains_key(memo_path_of(config.memo_dir, date, title)),
        later.files[memo_path_of(config.memo_dir, date, title)] == seeded(
            template_text(read),
            title,
            stamp,
        ),
        read is Missing ==> later.files[memo_path_of(config.memo_dir, date, title)]
            == bare_heading(),
        read == TemplateReadView::Text(Seq::empty()) ==> later.files[memo_path_of(
            config.memo_dir,
            date,
            title,
        )] == bare_heading(),
{
}

/// A second memo of the same title on the same day is refused: where the
/// memo's file exists, the creation ends at once with `AlreadyExists`, at
/// whatever moment it is tried, and the disk stays as it was.
pub proof fn lemma_same_title_same_day_is_refused(
    config: ConfigView,
    title: Seq<char>,
    date: Seq<char>,
    stamp: Seq<char>,
    disk: Disk,
    event: MemoEventView,
    later: Disk,
)
    requires
        disk.has(memo_path_of(config.memo_dir, date, title)),
        memo_answer(disk, planned(config, title, date, stamp).pending(), event),
        memo_effect(disk, planned(config, title, date, stamp).pending(), event, later),
    ensures
        planned(config, title, date, stamp).next(event).stage == (StageView::Finished {
            outcome: Err(
                MemoErrorView::AlreadyExists { path: memo_path_of(config.memo_dir, date, title) },
            ),
        }),
        later == disk,
{
}

/// Creating a memo twice with one title on one day: the second creation is
/// refused with `AlreadyExists` and leaves the disk as it found it. The
/// first creation wrote the memo's file; between the two the editor ran and
/// left a file in its place.
pub proof fn lemma_second_creation_is_refused(
    config: ConfigView,
    title: Seq<char>,
    date: Seq<char>,
    first_stamp: Seq<char>,
    second_stamp: Seq<char>,
    read: TemplateReadView,
    run: CommandRun,
    before: Disk,
    written: Disk,
    edited: Disk,
    event: MemoEventView,
    after: Disk,
)
    requires
        read !is Failed,
        ({
            let writing = planned(config, title, date, first_stamp).next(
                MemoEventView::Probed { exists: false },
            ).next(MemoEventView::Template(read));
            let created = MemoEventView::Creation(FileCreation::Created);
            let editing = writing.next(created);
            &&& memo_answer(before, writing.pending(), created)
            &&& memo_effect(before, writing.pending(), created, written)
            &&& memo_answer(written, editing.pending(), MemoEventView::Editor(run))
            &&& memo_effect(written, editing.pending(), MemoEventView::Editor(run), edited)
        }),
        edited.has(memo_path_of(config.memo_dir, date, title)),
        memo_answer(edited, planned(config, title, date, second_stamp).pending(), event),
        memo_effect(edited, planned(config, title, date, second_stamp).pending(), event, after),
    ensures
        written.files[memo_path_of(config.memo_dir, date, title)] == seeded(
            template_text(read),
            title,
            first_stamp,
        ),
        planned(config, title, date, second_stamp).next(event).pending()
            == (MemoActionView::Finish {
            outcome: Err(
                MemoErrorView::AlreadyExists { path: memo_path_of(config.memo_dir, date, title) },
            ),
        }),
        after == edited,
{
}

} // verus!
