//! The name and the first content of a memo.

use vstd::prelude::*;
use vstd::string::*;
use crate::config::{join_path, joined};
use crate::text::{chars_of, replace_text, replaced, string_of};

verus! {

/// Whether `c` has the Unicode property Alphabetic, as `char::is_alphabetic`
/// tells it.
pub uninterp spec fn is_alphabetic(c: char) -> bool;

/// `char::is_alphabetic` is a function of the character alone.
pub assume_specification[ char::is_alphabetic ](c: char) -> (b: bool)
    ensures
        b == is_alphabetic(c),
;

/// First pass of sanitizing: what is neither a letter nor a space becomes a
/// hyphen.
pub open spec fn without_symbols(c: char, alphabetic: bool) -> char {
    if !alphabetic && c != ' ' {
        '-'
    } else {
        c
    }
}

/// Second pass of sanitizing: a space becomes a hyphen.
pub open spec fn without_space(c: char) -> char {
    if c == ' ' {
        '-'
    } else {
        c
    }
}

/// What stands for `c` in a memo's file name, `alphabetic` telling whether
/// `c` is a letter.
pub open spec fn sanitized_char(c: char, alphabetic: bool) -> char {
    without_space(without_symbols(c, alphabetic))
}

/// The title as it stands in a memo's file name.
pub open spec fn sanitized(title: Seq<char>) -> Seq<char> {
    title.map_values(|c: char| sanitized_char(c, is_alphabetic(c)))
}

/// The file name of the memo with this title, written on the day `date`.
pub open spec fn filename_of(date: Seq<char>, title: Seq<char>) -> Seq<char> {
    date + seq!['-'] + sanitized(title) + ".md"@
}

/// The path of the memo with this title, written on the day `date`, in the
/// directory `memo_dir`.
pub open spec fn memo_path_of(memo_dir: Seq<char>, date: Seq<char>, title: Seq<char>) -> Seq<
    char,
> {
    joined(memo_dir, filename_of(date, title))
}

/// The token of a template that stands for the memo's title.
pub open spec fn title_token() -> Seq<char> {
    "{{ title }}"@
}

/// The token of a template that stands for the moment of writing.
pub open spec fn date_token() -> Seq<char> {
    "{{ date }}"@
}

/// The template with the title put in for every title token, and then the
/// moment `stamp` for every date token.
pub open spec fn rendered(template: Seq<char>, title: Seq<char>, stamp: Seq<char>) -> Seq<char> {
    replaced(replaced(template, title_token(), title), date_token(), stamp)
}

/// What a memo holds when no template seeds it: a bare heading marker.
pub open spec fn bare_heading() -> Seq<char> {
    "# "@
}

/// The first content of a memo: the rendered template, or the bare heading
/// where there is no template or the template is empty.
pub open spec fn seeded(template: Option<Seq<char>>, title: Seq<char>, stamp: Seq<char>) -> Seq<
    char,
> {
    match template {
        Some(t) => if t.len() > 0 {
            rendered(t, title, stamp)
        } else {
            bare_heading()
        },
        None => bare_heading(),
    }
}

/// What stands for `c` in a memo's file name, `alphabetic` telling whether
/// `c` is a letter: the letter itself, and a hyphen for anything else.
pub fn sanitize_char(c: char, alphabetic: bool) -> (out: char)
    ensures
        out == sanitized_char(c, alphabetic),
        out == if alphabetic && c != ' ' { c } else { '-' },
{
    if alphabetic && c != ' ' {
        c
    } else {
        '-'
    }
}

/// The title as it stands in a memo's file name: character by character,
/// letters stay and everything else becomes a hyphen.
pub fn sanitize_title(title: &str) -> (out: String)
    ensures
        out@ == sanitized(title@),
        out@.len() == title@.len(),
        forall|i: int|
            0 <= i < title@.len() ==> #[trigger] out@[i] == if is_alphabetic(title@[i])
                && title@[i] != ' ' {
                title@[i]
            } else {
                '-'
            },
        !out@.contains(' '),
{
    let chars = chars_of(title);
    let mut out: Vec<char> = Vec::new();
    let mut i: usize = 0;
    while i < chars.len()
        invariant
            i <= chars.len(),
            chars@ == title@,
            out@ == sanitized(title@.subrange(0, i as int)),
        decreases chars.len() - i,
    {
        let c = chars[i];
        out.push(sanitize_char(c, c.is_alphabetic()));
        i = i + 1;
        assert(out@ =~= sanitized(title@.subrange(0, i as int)));
    }
    assert(title@.subrange(0, i as int) == title@);
    string_of(&out)
}

/// The file name of the memo with this title, written on the day `date`.
pub fn memo_filename(date: &str, title: &str) -> (name: String)
    ensures
        name@ == filename_of(date@, title@),
{
    let mut name = String::from_str(date);
    name.push('-');
    let clean = sanitize_title(title);
    name.append(clean.as_str());
    name.append(".md");
    name
}

/// The path of the memo with this title, written on the day `date`, in the
/// directory `memo_dir`.
pub fn memo_path(memo_dir: &str, date: &str, title: &str) -> (path: String)
    ensures
        path@ == memo_path_of(memo_dir@, date@, title@),
{
    let name = memo_filename(date, title);
    join_path(memo_dir, name.as_str())
}

/// Puts the title in for every title token of the template, and then the
/// moment `stamp` for every date token.
pub fn render_template(template: &str, title: &str, stamp: &str) -> (out: String)
    ensures
        out@ == rendered(template@, title@, stamp@),
{
    let with_title = replace_text(template, "{{ title }}", title);
    replace_text(with_title.as_str(), "{{ date }}", stamp)
}

/// The first content of a memo: the rendered template, or the bare heading
/// where there is no template or the template is empty.
pub fn seed_content(template: Option<&str>, title: &str, stamp: &str) -> (out: String)
    ensures
        out@ == seeded(
            match template {
                Some(t) => Some(t@),
                None => None,
            },
            title@,
            stamp@,
        ),
{
    match template {
        Some(t) => {
            if t.unicode_len() > 0 {
                render_template(t, title, stamp)
            } else {
                String::from_str("# ")
            }
        },
        None => String::from_str("# "),
    }
}

} // verus!
