//! The invoking user's home directory.

use vstd::prelude::*;

verus! {

/// What became of looking up the home directory.
#[derive(Debug, Clone, PartialEq, Eq)]
pub enum HomeLookup {
    /// The home directory, as text.
    Found(String),
    /// There is a home directory, but its path is not valid Unicode.
    NotText,
    /// No home directory could be determined.
    Missing,
}

/// A `HomeLookup` with its text as a sequence.
pub enum HomeLookupView {
    Found(Seq<char>),
    NotText,
    Missing,
}

impl View for HomeLookup {
    type V = HomeLookupView;

    open spec fn view(&self) -> HomeLookupView {
        match *self {
            HomeLookup::Found(home) => HomeLookupView::Found(home@),
            HomeLookup::NotText => HomeLookupView::NotText,
            HomeLookup::Missing => HomeLookupView::Missing,
        }
    }
}

/// Asks `dirs::home_dir` for the home directory of the current user and
/// hands its path on as text. The answer depends on the environment and on
/// the user database, so nothing is claimed of it: `Missing` stands for the
/// crate's `None`, `NotText` for a path that `Path::to_str` cannot give as
/// Unicode.
#[verifier::external_body]
pub(crate) fn home_dir_lookup() -> (home: HomeLookup) {
    match dirs::home_dir() {
        Some(path) => match path.to_str() {
            Some(text) => HomeLookup::Found(text.to_string()),
            None => HomeLookup::NotText,
        },
        None => HomeLookup::Missing,
    }
}

} // verus!
