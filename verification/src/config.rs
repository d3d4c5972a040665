//! The configuration record, as the file holds it and as the memo operations
//! use it, and the expansion of the home placeholder that leads from the one
//! to the other.

use vstd::prelude::*;
use vstd::string::*;
use crate::error::{ConfigFault, MemoError, MemoErrorView};
use crate::home::{HomeLookup, HomeLookupView};
use crate::text::{
    lemma_replaced_leaves_none, lemma_replaced_without_occurrence, occurs_in, replace_text,
    replaced,
};

verus! {

/// The placeholder that stands for the home directory in a configured value.
pub open spec fn home_token() -> Seq<char> {
    "$HOME"@
}

/// `value` with every home placeholder replaced by `home`.
pub open spec fn expanded(value: Seq<char>, home: Seq<char>) -> Seq<char> {
    replaced(value, home_token(), home)
}

/// Whether `home` can stand in for the placeholder without making a new
/// one: it is not empty, holds no `$`, and does not begin with a letter of
/// the placeholder. The path of a home directory that begins with a
/// separator and holds no `$` is of this kind.
pub open spec fn plain_home(home: Seq<char>) -> bool {
    &&& home.len() > 0
    &&& !home.contains('$')
    &&& home[0] != 'H'
    &&& home[0] != 'O'
    &&& home[0] != 'M'
    &&& home[0] != 'E'
}

/// `dir` and `name` as one path: a separator is put between them unless
/// `dir` is empty or already ends in one.
pub open spec fn joined(dir: Seq<char>, name: Seq<char>) -> Seq<char> {
    if dir.len() == 0 || dir.last() == '/' {
        dir + name
    } else {
        dir + seq!['/'] + name
    }
}

/// The directory that holds the configuration file, below `home`.
pub open spec fn config_dir_of(home: Seq<char>) -> Seq<char> {
    joined(home, ".config/memo-cho"@)
}

/// The configuration file inside `dir`.
pub open spec fn config_file_of(dir: Seq<char>) -> Seq<char> {
    joined(dir, "config.yaml"@)
}

/// What a fresh configuration file holds for the home directory `home`.
pub open spec fn default_contents(home: Seq<char>) -> Seq<char> {
    "memodir: "@ + home + "\ntemplate: "@ + home
        + "/template.md\neditor: nano\ncmdselector: fzf\n"@
}

/// The configuration as the file holds it, placeholders not yet expanded.
#[derive(Debug, Clone, PartialEq, Eq)]
pub struct RawConfig {
    pub memodir: String,
    pub template: String,
    pub editor: String,
    pub cmdselector: Option<String>,
}

/// A `RawConfig` with its texts as sequences.
pub struct RawConfigView {
    pub memodir: Seq<char>,
    pub template: Seq<char>,
    pub editor: Seq<char>,
    pub cmdselector: Option<Seq<char>>,
}

impl View for RawConfig {
    type V = RawConfigView;

    open spec fn view(&self) -> RawConfigView {
        RawConfigView {
            memodir: self.memodir@,
            template: self.template@,
            editor: self.editor@,
            cmdselector: match self.cmdselector {
                Some(s) => Some(s@),
                None => None,
            },
        }
    }
}

/// The configuration that the memo operations work with.
#[derive(Debug, Clone, PartialEq, Eq)]
pub struct Config {
    /// Where the memos live.
    pub memo_dir: String,
    /// The template that seeds a new memo; the file need not exist.
    pub template_path: String,
    /// The editor that opens a memo.
    pub editor_command: String,
    /// The command that lets the user pick one memo out of a list.
    pub selector_command: Option<String>,
}

/// A `Config` with its texts as sequences.
pub struct ConfigView {
    pub memo_dir: Seq<char>,
    pub template_path: Seq<char>,
    pub editor_command: Seq<char>,
    pub selector_command: Option<Seq<char>>,
}

impl View for Config {
    type V = ConfigView;

    open spec fn view(&self) -> ConfigView {
        ConfigView {
            memo_dir: self.memo_dir@,
            template_path: self.template_path@,
            editor_command: self.editor_command@,
            selector_command: match self.selector_command {
                Some(s) => Some(s@),
                None => None,
            },
        }
    }
}

impl ConfigView {
    /// Whether no field holds a home placeholder any more.
    pub open spec fn placeholder_free(self) -> bool {
        &&& !occurs_in(self.memo_dir, home_token())
        &&& !occurs_in(self.template_path, home_token())
        &&& !occurs_in(self.editor_command, home_token())
        &&& self.selector_command matches Some(s) ==> !occurs_in(s, home_token())
    }
}

impl Config {
    /// A second configuration with the same texts.
    pub fn duplicate(&self) -> (copy: Config)
        ensures
            copy@ == self@,
    {
        Config {
            memo_dir: self.memo_dir.clone(),
            template_path: self.template_path.clone(),
            editor_command: self.editor_command.clone(),
            selector_command: match &self.selector_command {
                Some(s) => Some(s.clone()),
                None => None,
            },
        }
    }
}

/// The configuration that `raw` stands for when the home directory is `home`.
pub open spec fn resolved(raw: RawConfigView, home: Seq<char>) -> ConfigView {
    ConfigView {
        memo_dir: expanded(raw.memodir, home),
        template_path: expanded(raw.template, home),
        editor_command: expanded(raw.editor, home),
        selector_command: match raw.cmdselector {
            Some(s) => Some(expanded(s, home)),
            None => None,
        },
    }
}

/// Expanding a value with a plain home directory leaves no placeholder in
/// it.
pub proof fn lemma_expanded_holds_no_placeholder(value: Seq<char>, home: Seq<char>)
    requires
        plain_home(home),
    ensures
        !occurs_in(expanded(value, home), home_token()),
{
    reveal_strlit("$HOME");
    let token = home_token();
    assert(!home.contains(token[0]));
    assert(!token.skip(1).contains(home[0])) by {
        assert forall|j: int| 0 <= j < token.skip(1).len() implies token.skip(1)[j] != home[0] by {
            assert(token.skip(1)[j] == token[j + 1]);
        }
    }
    lemma_replaced_leaves_none(value, token, home);
}

/// A value that holds no placeholder stands for itself, whatever the home
/// directory is.
pub proof fn lemma_expanded_without_placeholder(value: Seq<char>, home: Seq<char>)
    requires
        !occurs_in(value, home_token()),
    ensures
        expanded(value, home) == value,
{
    lemma_replaced_without_occurrence(value, home_token(), home);
}

/// Expanding once is enough: with a plain home directory, expanding what
/// was expanded changes nothing.
pub proof fn lemma_expanding_twice_is_expanding_once(value: Seq<char>, home: Seq<char>)
    requires
        plain_home(home),
    ensures
        expanded(expanded(value, home), home) == expanded(value, home),
{
    lemma_expanded_holds_no_placeholder(value, home);
    lemma_expanded_without_placeholder(expanded(value, home), home);
}

/// A configuration that was resolved with a plain home directory holds no
/// placeholder in any field.
pub proof fn lemma_resolved_is_placeholder_free(raw: RawConfigView, home: Seq<char>)
    requires
        plain_home(home),
    ensures
        resolved(raw, home).placeholder_free(),
{
    lemma_expanded_holds_no_placeholder(raw.memodir, home);
    lemma_expanded_holds_no_placeholder(raw.template, home);
    lemma_expanded_holds_no_placeholder(raw.editor, home);
    if let Some(s) = raw.cmdselector {
        lemma_expanded_holds_no_placeholder(s, home);
    }
}

/// The error that stands for a home directory that was not found as text.
pub open spec fn home_fault(home: HomeLookupView) -> ConfigFault {
    match home {
        HomeLookupView::NotText => ConfigFault::HomeNotText,
        _ => ConfigFault::HomeMissing,
    }
}

/// What resolving `raw` gives for each outcome of the home lookup.
pub open spec fn resolution(raw: RawConfigView, home: HomeLookupView) -> Result<
    ConfigView,
    MemoErrorView,
> {
    match home {
        HomeLookupView::Found(h) => Ok(resolved(raw, h)),
        _ => Err(MemoErrorView::Config { fault: home_fault(home) }),
    }
}

/// `dir` and `name` as one path.
pub fn join_path(dir: &str, name: &str) -> (path: String)
    ensures
        path@ == joined(dir@, name@),
{
    let n = dir.unicode_len();
    let mut path = String::from_str(dir);
    if n > 0 && dir.get_char(n - 1) != '/' {
        path.push('/');
    }
    path.append(name);
    path
}

/// The directory that holds the configuration file, below `home`.
pub fn config_dir_path(home: &str) -> (dir: String)
    ensures
        dir@ == config_dir_of(home@),
{
    join_path(home, ".config/memo-cho")
}

/// The configuration file inside `dir`.
pub fn config_file_path(dir: &str) -> (file: String)
    ensures
        file@ == config_file_of(dir@),
{
    join_path(dir, "config.yaml")
}

/// What a fresh configuration file holds for the home directory `home`.
pub fn default_config_contents(home: &str) -> (contents: String)
    ensures
        contents@ == default_contents(home@),
{
    let mut contents = String::from_str("memodir: ");
    contents.append(home);
    contents.append("\ntemplate: ");
    contents.append(home);
    contents.append("/template.md\neditor: nano\ncmdselector: fzf\n");
    contents
}

/// Replaces every home placeholder in `path` by `home`.
pub fn replace_home_placeholder(path: &str, home: &str) -> (out: String)
    ensures
        out@ == expanded(path@, home@),
{
    replace_text(path, "$HOME", home)
}

/// Expands the placeholders of every field of `raw`. Without a home
/// directory nothing is expanded and the lookup's failure is the result.
pub fn resolve_config(raw: &RawConfig, home: &HomeLookup) -> (out: Result<Config, MemoError>)
    ensures
        out is Ok <==> home@ is Found,
        match out {
            Ok(config) => resolution(raw@, home@) == Ok::<ConfigView, MemoErrorView>(config@),
            Err(e) => resolution(raw@, home@) == Err::<ConfigView, MemoErrorView>(e@),
        },
        home@ matches HomeLookupView::Found(h) ==> (plain_home(h) ==> (out matches Ok(config)
            && config@.placeholder_free())),
{
    proof {
        if let HomeLookupView::Found(h) = home@ {
            if plain_home(h) {
                lemma_resolved_is_placeholder_free(raw@, h);
            }
        }
    }
    match home {
        HomeLookup::Found(h) => {
            let selector = match &raw.cmdselector {
                Some(s) => Some(replace_home_placeholder(s.as_str(), h.as_str())),
                None => None,
            };
            Ok(
                Config {
                    memo_dir: replace_home_placeholder(raw.memodir.as_str(), h.as_str()),
                    template_path: replace_home_placeholder(raw.template.as_str(), h.as_str()),
                    editor_command: replace_home_placeholder(raw.editor.as_str(), h.as_str()),
                    selector_command: selector,
                },
            )
        },
        HomeLookup::NotText => Err(MemoError::Config { fault: ConfigFault::HomeNotText }),
        HomeLookup::Missing => Err(MemoError::Config { fault: ConfigFault::HomeMissing }),
    }
}

} // verus!
