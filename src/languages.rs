//! Classification of a document into a language by a table of file names,
//! extensions and patterns.
use vstd::prelude::*;
use crate::config::opt_view;
use crate::document::{file_name_of, url_decoded, Document};
use crate::text::str_eq;

verus! {

/// What a case-insensitive regular expression built from `pattern` says of
/// `text`: nothing where the pattern does not compile, else whether it
/// matches somewhere in the text.
pub uninterp spec fn regex_ci_match(pattern: Seq<char>, text: Seq<char>) -> Option<bool>;

/// Relies on `regex::RegexBuilder` with `case_insensitive(true)` to compile
/// the pattern and on `Regex::is_match` to search the text; both depend on
/// their arguments alone.
#[verifier::external_body]
fn regex_matches(pattern: &str, text: &str) -> (r: Option<bool>)
    ensures
        r == regex_ci_match(pattern@, text@),
{
    match regex::RegexBuilder::new(pattern).case_insensitive(true).build() {
        Ok(re) => Some(re.is_match(text)),
        Err(_) => None,
    }
}

/// The prefix that marks a table key as a pattern.
pub open spec fn pattern_prefix() -> Seq<char> {
    seq!['r', 'e', 'g', 'e', 'x', ':']
}

/// The pattern a key holds, where it is one.
pub open spec fn pattern_of(key: Seq<char>) -> Option<Seq<char>> {
    if key.len() >= 6 && key.subrange(0, 6) == pattern_prefix() {
        Some(key.subrange(6, key.len() as int))
    } else {
        None
    }
}

/// The language of the first entry at or after `i` whose key is `key`.
pub open spec fn exact_from(t: Seq<(String, String)>, key: Seq<char>, i: int) -> Option<Seq<char>>
    decreases t.len() - i,
{
    if i < 0 || i >= t.len() {
        None
    } else if t[i].0@ == key {
        Some(t[i].1@)
    } else {
        exact_from(t, key, i + 1)
    }
}

/// Whether the entry's key is a pattern that matches the file name or the
/// extension.
pub open spec fn entry_matches(key: Seq<char>, filename: Seq<char>, ext: Seq<char>) -> bool {
    match pattern_of(key) {
        Some(p) => regex_ci_match(p, filename) == Some(true) || regex_ci_match(p, ext) == Some(
            true,
        ),
        None => false,
    }
}

/// The language of the first entry at or after `i` whose pattern matches.
pub open spec fn pattern_from(
    t: Seq<(String, String)>,
    filename: Seq<char>,
    ext: Seq<char>,
    i: int,
) -> Option<Seq<char>>
    decreases t.len() - i,
{
    if i < 0 || i >= t.len() {
        None
    } else if entry_matches(t[i].0@, filename, ext) {
        Some(t[i].1@)
    } else {
        pattern_from(t, filename, ext, i + 1)
    }
}

/// The language for a file name and a dotted extension: an entry for the
/// exact file name, else the first pattern that matches either, else an
/// entry for the extension, else `text`.
pub open spec fn classify(t: Seq<(String, String)>, filename: Seq<char>, ext: Seq<char>) -> Seq<
    char,
> {
    match exact_from(t, filename, 0) {
        Some(l) => l,
        None => match pattern_from(t, filename, ext, 0) {
            Some(l) => l,
            None => match exact_from(t, ext, 0) {
                Some(l) => l,
                None => "text"@,
            },
        },
    }
}

/// The file name used for classification: the decoded one, or `unknown`.
pub open spec fn classified_name(path: Seq<char>) -> Seq<char> {
    match file_name_of(path) {
        Some(f) => match url_decoded(f) {
            Some(v) => v,
            None => "unknown"@,
        },
        None => "unknown"@,
    }
}

/// A table from file names (`Makefile`), dotted extensions (`.rs`) and
/// patterns (`regex:^dockerfile`) to language names, in order.
#[derive(Debug)]
pub struct LanguageTable {
    pub entries: Vec<(String, String)>,
}

impl LanguageTable {
    /// A table of the given entries.
    pub fn new(entries: Vec<(String, String)>) -> (r: LanguageTable)
        ensures
            r.entries@ == entries@,
    {
        LanguageTable { entries }
    }

    fn exact(&self, key: &str) -> (r: Option<String>)
        ensures
            opt_view(r) == exact_from(self.entries@, key@, 0),
    {
        let mut i: usize = 0;
        while i < self.entries.len()
            invariant
                0 <= i <= self.entries@.len(),
                exact_from(self.entries@, key@, 0) == exact_from(self.entries@, key@, i as int),
            decreases self.entries@.len() - i,
        {
            if str_eq(self.entries[i].0.as_str(), key) {
                return Some(self.entries[i].1.clone());
            }
            i = i + 1;
        }
        None
    }

    fn by_pattern(&self, filename: &str, ext: &str) -> (r: Option<String>)
        ensures
            opt_view(r) == pattern_from(self.entries@, filename@, ext@, 0),
    {
        proof {
            reveal_strlit("regex:");
        }
        assert("regex:"@ =~= pattern_prefix());
        let mut i: usize = 0;
        while i < self.entries.len()
            invariant
                "regex:"@ == pattern_prefix(),
                0 <= i <= self.entries@.len(),
                pattern_from(self.entries@, filename@, ext@, 0) == pattern_from(
                    self.entries@,
                    filename@,
                    ext@,
                    i as int,
                ),
            decreases self.entries@.len() - i,
        {
            let key = self.entries[i].0.as_str();
            let n = key.unicode_len();
            if n >= 6 && str_eq(key.substring_char(0, 6), "regex:") {
                let pattern = key.substring_char(6, n);
                let hit = match regex_matches(pattern, filename) {
                    Some(true) => true,
                    _ => match regex_matches(pattern, ext) {
                        Some(true) => true,
                        _ => false,
                    },
                };
                if hit {
                    return Some(self.entries[i].1.clone());
                }
            }
            i = i + 1;
        }
        None
    }

    /// The language for a file name and a dotted extension.
    pub fn classify(&self, filename: &str, ext: &str) -> (r: String)
        ensures
            r@ == classify(self.entries@, filename@, ext@),
    {
        match self.exact(filename) {
            Some(l) => l,
            None => match self.by_pattern(filename, ext) {
                Some(l) => l,
                None => match self.exact(ext) {
                    Some(l) => l,
                    None => String::from_str("text"),
                },
            },
        }
    }
}

/// The language of a document: classified by its decoded file name (or
/// `unknown`) and its extension with a leading dot.
pub fn get_language(table: &LanguageTable, document: &Document) -> (r: String)
    ensures
        r@ == classify(
            table.entries@,
            classified_name(document.path@),
            seq!['.'] + crate::document::doc_extension(document.path@),
        ),
{
    let filename = match document.get_filename() {
        Ok(f) => f,
        Err(_) => String::from_str("unknown"),
    };
    proof {
        reveal_strlit(".");
    }
    assert(filename@ == classified_name(document.path@));
    assert("."@ =~= seq!['.']);
    let ext = String::from_str(".").concat(document.get_extension().as_str());
    table.classify(filename.as_str(), ext.as_str())
}

} // verus!
