//! Loading the configuration, step by step: the directory is made, a default
//! file is put there unless one exists, and the file's record is resolved.
//! The library decides; its caller touches the disk and reads the record.

use vstd::prelude::*;
use crate::config::{
    config_dir_of, config_dir_path, config_file_of, config_file_path, default_config_contents,
    default_contents, home_fault, lemma_resolved_is_placeholder_free, plain_home, resolve_config,
    resolved, Config, ConfigView, RawConfig, RawConfigView,
};
use crate::disk::{Disk, FileCreation};
use crate::error::{ConfigFault, MemoError, MemoErrorView};
use crate::home::{home_dir_lookup, HomeLookup, HomeLookupView};

verus! {

/// What became of reading the configuration file's record.
#[derive(Debug, Clone, PartialEq, Eq)]
pub enum RecordRead {
    /// The file could not be read.
    Unreadable,
    /// The file's text does not hold a record.
    Unparsable,
    /// The record that the file holds.
    Parsed(RawConfig),
}

/// A `RecordRead` with its texts as sequences.
pub enum RecordReadView {
    Unreadable,
    Unparsable,
    Parsed(RawConfigView),
}

impl View for RecordRead {
    type V = RecordReadView;

    open spec fn view(&self) -> RecordReadView {
        match *self {
            RecordRead::Unreadable => RecordReadView::Unreadable,
            RecordRead::Unparsable => RecordReadView::Unparsable,
            RecordRead::Parsed(raw) => RecordReadView::Parsed(raw@),
        }
    }
}

/// What the caller reports back to a loading.
#[derive(Debug, Clone, PartialEq, Eq)]
pub enum LoadEvent {
    /// Whether the directory is there now.
    DirEnsured { ok: bool },
    /// What became of creating the default file.
    Default(FileCreation),
    /// The record, as far as it could be read.
    Record(RecordRead),
}

/// A `LoadEvent` with its texts as sequences.
pub enum LoadEventView {
    DirEnsured { ok: bool },
    Default(FileCreation),
    Record(RecordReadView),
}

impl View for LoadEvent {
    type V = LoadEventView;

    open spec fn view(&self) -> LoadEventView {
        match *self {
            LoadEvent::DirEnsured { ok } => LoadEventView::DirEnsured { ok },
            LoadEvent::Default(c) => LoadEventView::Default(c),
            LoadEvent::Record(r) => LoadEventView::Record(r@),
        }
    }
}

/// What a loading asks of its caller next.
#[derive(Debug, PartialEq, Eq)]
pub enum LoadAction {
    /// Make the directory `path` with all its parents, unless it is there.
    EnsureDir { path: String },
    /// Create the file `path` with `contents` in one step, and only if no
    /// such file exists.
    CreateDefault { path: String, contents: String },
    /// Read the file `path` and the record that it holds.
    ReadRecord { path: String },
    /// Nothing more: the loading has ended.
    Finish { outcome: Result<Config, MemoError> },
}

/// A `LoadAction` with its texts as sequences.
pub enum LoadActionView {
    EnsureDir { path: Seq<char> },
    CreateDefault { path: Seq<char>, contents: Seq<char> },
    ReadRecord { path: Seq<char> },
    Finish { outcome: Result<ConfigView, MemoErrorView> },
}

/// The outcome of a loading with its texts as sequences.
pub open spec fn loaded_view(outcome: Result<Config, MemoError>) -> Result<
    ConfigView,
    MemoErrorView,
> {
    match outcome {
        Ok(config) => Ok(config@),
        Err(e) => Err(e@),
    }
}

impl View for LoadAction {
    type V = LoadActionView;

    open spec fn view(&self) -> LoadActionView {
        match *self {
            LoadAction::EnsureDir { path } => LoadActionView::EnsureDir { path: path@ },
            LoadAction::CreateDefault { path, contents } => LoadActionView::CreateDefault {
                path: path@,
                contents: contents@,
            },
            LoadAction::ReadRecord { path } => LoadActionView::ReadRecord { path: path@ },
            LoadAction::Finish { outcome } => LoadActionView::Finish {
                outcome: loaded_view(outcome),
            },
        }
    }
}

/// A loading of the configuration: how far it has come.
#[derive(Debug, PartialEq, Eq)]
pub enum ConfigLoading {
    /// Waiting for the configuration directory below `home`.
    MakingDir { home: String },
    /// Waiting for the default file to be created, or found in place.
    Seeding { home: String },
    /// Waiting for the file's record.
    Reading { home: String },
    /// Ended.
    Finished { outcome: Result<Config, MemoError> },
}

/// A `ConfigLoading` with its texts as sequences.
pub enum ConfigLoadingView {
    MakingDir { home: Seq<char> },
    Seeding { home: Seq<char> },
    Reading { home: Seq<char> },
    Finished { outcome: Result<ConfigView, MemoErrorView> },
}

impl View for ConfigLoading {
    type V = ConfigLoadingView;

    open spec fn view(&self) -> ConfigLoadingView {
        match *self {
            ConfigLoading::MakingDir { home } => ConfigLoadingView::MakingDir { home: home@ },
            ConfigLoading::Seeding { home } => ConfigLoadingView::Seeding { home: home@ },
            ConfigLoading::Reading { home } => ConfigLoadingView::Reading { home: home@ },
            ConfigLoading::Finished { outcome } => ConfigLoadingView::Finished {
                outcome: loaded_view(outcome),
            },
        }
    }
}

/// The configuration file of the user whose home directory is `home`.
pub open spec fn config_file_below(home: Seq<char>) -> Seq<char> {
    config_file_of(config_dir_of(home))
}

/// The loading for this outcome of the home lookup, before anything else
/// has happened: without a home directory it has ended already.
pub open spec fn begun(home: HomeLookupView) -> ConfigLoadingView {
    match home {
        HomeLookupView::Found(h) => ConfigLoadingView::MakingDir { home: h },
        _ => ConfigLoadingView::Finished {
            outcome: Err(MemoErrorView::Config { fault: home_fault(home) }),
        },
    }
}

impl ConfigLoadingView {
    /// What the loading asks of its caller in this state.
    pub open spec fn pending(self) -> LoadActionView {
        match self {
            ConfigLoadingView::MakingDir { home } => LoadActionView::EnsureDir {
                path: config_dir_of(home),
            },
            ConfigLoadingView::Seeding { home } => LoadActionView::CreateDefault {
                path: config_file_below(home),
                contents: default_contents(home),
            },
            ConfigLoadingView::Reading { home } => LoadActionView::ReadRecord {
                path: config_file_below(home),
            },
            ConfigLoadingView::Finished { outcome } => LoadActionView::Finish { outcome },
        }
    }

    /// The state that follows when the caller reports `event`. An event
    /// that does not answer the pending action changes nothing.
    pub open spec fn next(self, event: LoadEventView) -> ConfigLoadingView {
        match (self, event) {
            (ConfigLoadingView::MakingDir { home }, LoadEventView::DirEnsured { ok }) => if ok {
                ConfigLoadingView::Seeding { home }
            } else {
                ConfigLoadingView::Finished {
                    outcome: Err(MemoErrorView::Io { path: config_dir_of(home) }),
                }
            },
            (ConfigLoadingView::Seeding { home }, LoadEventView::Default(outcome)) => match outcome {
                FileCreation::Failed => ConfigLoadingView::Finished {
                    outcome: Err(MemoErrorView::Io { path: config_file_below(home) }),
                },
                _ => ConfigLoadingView::Reading { home },
            },
            (ConfigLoadingView::Reading { home }, LoadEventView::Record(read)) => match read {
                RecordReadView::Unreadable => ConfigLoadingView::Finished {
                    outcome: Err(MemoErrorView::Config { fault: ConfigFault::Unreadable }),
                },
                RecordReadView::Unparsable => ConfigLoadingView::Finished {
                    outcome: Err(MemoErrorView::Config { fault: ConfigFault::Unparsable }),
                },
                RecordReadView::Parsed(raw) => ConfigLoadingView::Finished {
                    outcome: Ok(resolved(raw, home)),
                },
            },
            _ => self,
        }
    }
}

impl ConfigLoading {
    /// The loading for this outcome of the home lookup.
    pub fn begin(home: HomeLookup) -> (loading: ConfigLoading)
        ensures
            loading@ == begun(home@),
    {
        match home {
            HomeLookup::Found(h) => ConfigLoading::MakingDir { home: h },
            HomeLookup::NotText => ConfigLoading::Finished {
                outcome: Err(MemoError::Config { fault: ConfigFault::HomeNotText }),
            },
            HomeLookup::Missing => ConfigLoading::Finished {
                outcome: Err(MemoError::Config { fault: ConfigFault::HomeMissing }),
            },
        }
    }

    /// What the loading asks of its caller in this state.
    pub fn pending(&self) -> (action: LoadAction)
        ensures
            action@ == self@.pending(),
    {
        match self {
            ConfigLoading::MakingDir { home } => LoadAction::EnsureDir {
                path: config_dir_path(home.as_str()),
            },
            ConfigLoading::Seeding { home } => {
                let dir = config_dir_path(home.as_str());
                LoadAction::CreateDefault {
                    path: config_file_path(dir.as_str()),
                    contents: default_config_contents(home.as_str()),
                }
            },
            ConfigLoading::Reading { home } => {
                let dir = config_dir_path(home.as_str());
                LoadAction::ReadRecord { path: config_file_path(dir.as_str()) }
            },
            ConfigLoading::Finished { outcome } => LoadAction::Finish {
                outcome: match outcome {
                    Ok(config) => Ok(config.duplicate()),
                    Err(e) => Err(e.duplicate()),
                },
            },
        }
    }

    /// Takes the caller's report and moves on.
    pub fn step(self, event: LoadEvent) -> (after: ConfigLoading)
        ensures
            after@ == self@.next(event@),
    {
        match (self, event) {
            (ConfigLoading::MakingDir { home }, LoadEvent::DirEnsured { ok }) => {
                if ok {
                    ConfigLoading::Seeding { home }
                } else {
                    ConfigLoading::Finished {
                        outcome: Err(MemoError::Io { path: config_dir_path(home.as_str()) }),
                    }
                }
            },
            (ConfigLoading::Seeding { home }, LoadEvent::Default(outcome)) => match outcome {
                FileCreation::Failed => {
                    let dir = config_dir_path(home.as_str());
                    ConfigLoading::Finished {
                        outcome: Err(MemoError::Io { path: config_file_path(dir.as_str()) }),
                    }
                },
                _ => ConfigLoading::Reading { home },
            },
            (ConfigLoading::Reading { home }, LoadEvent::Record(read)) => match read {
                RecordRead::Unreadable => ConfigLoading::Finished {
                    outcome: Err(MemoError::Config { fault: ConfigFault::Unreadable }),
                },
                RecordRead::Unparsable => ConfigLoading::Finished {
                    outcome: Err(MemoError::Config { fault: ConfigFault::Unparsable }),
                },
                RecordRead::Parsed(raw) => {
                    let found = HomeLookup::Found(home);
                    ConfigLoading::Finished { outcome: resolve_config(&raw, &found) }
                },
            },
            (loading, _) => loading,
        }
    }
}

/// Begins loading the configuration of the current user: looks up the home
/// directory and takes it from there. Which home directory that is, or
/// whether there is one, is for the environment to say.
pub fn load_config() -> (loading: ConfigLoading)
    ensures
        exists|home: HomeLookupView| loading@ == begun(home),
{
    let home = home_dir_lookup();
    let loading = ConfigLoading::begin(home);
    assert(loading@ == begun(home@));
    loading
}

/// How a file's text is read as a record: the record that the text holds,
/// if it holds one.
pub type Reading = spec_fn(Seq<char>) -> Option<RawConfigView>;

/// Whether `event` can be what a caller that acts on `disk`, and reads
/// records as `reading` says, reports on `action`.
pub open spec fn load_answer(
    disk: Disk,
    reading: Reading,
    action: LoadActionView,
    event: LoadEventView,
) -> bool {
    match (action, event) {
        (LoadActionView::EnsureDir { path }, LoadEventView::DirEnsured { ok }) => true,
        (
            LoadActionView::CreateDefault { path, contents },
            LoadEventView::Default(outcome),
        ) => disk.creation_answers(path, outcome),
        (LoadActionView::ReadRecord { path }, LoadEventView::Record(read)) => match read {
            RecordReadView::Unreadable => true,
            RecordReadView::Unparsable => disk.files.contains_key(path) && reading(
                disk.files[path],
            ) is None,
            RecordReadView::Parsed(raw) => disk.files.contains_key(path) && reading(
                disk.files[path],
            ) == Some(raw),
        },
        _ => false,
    }
}

/// Whether `later` can be the disk after a caller that acts on `disk` has
/// done `action` and reports `event`. Making the directory adds at most
/// the directory and those above it; only creating the default file touches
/// the files.
pub open spec fn load_effect(
    disk: Disk,
    action: LoadActionView,
    event: LoadEventView,
    later: Disk,
) -> bool {
    match (action, event) {
        (LoadActionView::EnsureDir { path }, LoadEventView::DirEnsured { ok }) => {
            &&& later.files == disk.files
            &&& disk.dirs.subset_of(later.dirs)
            &&& forall|p: Seq<char>| #[trigger]
                later.dirs.contains(p) && !disk.dirs.contains(p) ==> p.is_prefix_of(path)
        },
        (
            LoadActionView::CreateDefault { path, contents },
            LoadEventView::Default(outcome),
        ) => later == disk.after_creation(path, contents, outcome),
        _ => later == disk,
    }
}

/// One loading from its begin to its end, as a caller that acts on a disk
/// goes through it: the three reports and the disk after each.
pub struct LoadRun {
    pub start: Disk,
    pub dir_event: LoadEventView,
    pub after_dir: Disk,
    pub default_event: LoadEventView,
    pub after_default: Disk,
    pub record_event: LoadEventView,
    pub end: Disk,
}

impl LoadRun {
    /// The state after the directory was made.
    pub open spec fn seeding(self, home: Seq<char>) -> ConfigLoadingView {
        begun(HomeLookupView::Found(home)).next(self.dir_event)
    }

    /// The state after the default file was created or found.
    pub open spec fn reading(self, home: Seq<char>) -> ConfigLoadingView {
        self.seeding(home).next(self.default_event)
    }

    /// The state in which the run ends.
    pub open spec fn ended(self, home: Seq<char>) -> ConfigLoadingView {
        self.reading(home).next(self.record_event)
    }

    /// Whether this is a run of the loading for `home`: each report answers
    /// the action that was pending, and each disk follows from the one
    /// before.
    pub open spec fn fits(self, home: Seq<char>, reading: Reading) -> bool {
        let s0 = begun(HomeLookupView::Found(home));
        let s1 = self.seeding(home);
        let s2 = self.reading(home);
        &&& load_answer(self.start, reading, s0.pending(), self.dir_event)
        &&& load_effect(self.start, s0.pending(), self.dir_event, self.after_dir)
        &&& load_answer(self.after_dir, reading, s1.pending(), self.default_event)
        &&& load_effect(self.after_dir, s1.pending(), self.default_event, self.after_default)
        &&& load_answer(self.after_default, reading, s2.pending(), self.record_event)
        &&& load_effect(self.after_default, s2.pending(), self.record_event, self.end)
    }
}

/// A loading changes no file that is there: every file keeps its content,
/// whatever the caller reports.
pub proof fn lemma_loading_overwrites_nothing(
    loading: ConfigLoadingView,
    reading: Reading,
    event: LoadEventView,
    disk: Disk,
    later: Disk,
)
    requires
        load_answer(disk, reading, loading.pending(), event),
        load_effect(disk, loading.pending(), event, later),
    ensures
        disk.kept_by(later),
{
}

/// A fresh configuration file holds the defaults for the home directory,
/// and one that is there is left as it is.
pub proof fn lemma_first_loading_seeds_defaults(home: Seq<char>, reading: Reading, run: LoadRun)
    requires
        run.fits(home, reading),
    ensures
        run.end.has(config_file_below(home)),
        run.start.files.contains_key(config_file_below(home)) ==> run.end.files == run.start.files,
        !run.start.has(config_file_below(home)) ==> run.end.files == run.start.files.insert(
            config_file_below(home),
            default_contents(home),
        ),
{
    let dir = config_dir_of(home);
    let file = config_file_below(home);
    assert(!file.is_prefix_of(dir)) by {
        reveal_strlit("config.yaml");
        assert(file.len() > dir.len());
    }
}

/// A loading for a plain home directory that reads a record ends with a
/// configuration in which no placeholder is left.
pub proof fn lemma_loaded_config_is_placeholder_free(home: Seq<char>, raw: RawConfigView)
    requires
        plain_home(home),
    ensures
        (ConfigLoadingView::Reading { home }).next(
            LoadEventView::Record(RecordReadView::Parsed(raw)),
        ) matches ConfigLoadingView::Finished { outcome: Ok(config) } && config.placeholder_free(),
{
    lemma_resolved_is_placeholder_free(raw, home);
}

/// Loading twice in a row gives the same twice: the second loading leaves
/// every file as the first left it, and where both end with a
/// configuration it is the same one.
pub proof fn lemma_loading_twice_is_loading_once(
    home: Seq<char>,
    reading: Reading,
    first: LoadRun,
    second: LoadRun,
)
    requires
        first.fits(home, reading),
        second.fits(home, reading),
        second.start == first.end,
    ensures
        second.end.files == first.end.files,
        first.ended(home) matches ConfigLoadingView::Finished { outcome: Ok(one) } ==> (
        second.ended(home) matches ConfigLoadingView::Finished { outcome: Ok(other) } ==> one
            == other),
{
    lemma_first_loading_seeds_defaults(home, reading, first);
}

} // verus!
