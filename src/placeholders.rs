//! Placeholder expansion for activity templates.
//!
//! A template may hold tokens `{name}`, `{name:u}` (first character
//! uppercased) and `{name:lo}` (all lowercased). Tokens are expanded in a
//! single left-to-right pass: text that an expansion inserts is never read
//! again, so a value that itself looks like a token stays as it is.
use vstd::prelude::*;
use crate::text::{
    capitalize_first_letter, capitalized, decimal, lower_of, lowercase, push_decimal,
};

verus! {

/// The names a template may refer to.
#[derive(Debug, Clone, Copy, PartialEq, Eq, Structural)]
pub enum PlaceholderName {
    Filename,
    Workspace,
    Language,
    BaseIconsUrl,
    RelativeFilePath,
    FolderAndFile,
    DirectoryName,
    FullDirectoryName,
    LineNumber,
    GitBranch,
    FileSize,
}

/// How a substituted value is cased.
#[derive(Debug, Clone, Copy, PartialEq, Eq, Structural)]
pub enum Casing {
    /// `{name}`: the value as it is.
    Raw,
    /// `{name:u}`: the first character uppercased.
    Upper,
    /// `{name:lo}`: every character lowercased.
    Lower,
}

/// The text of each name, as written between braces.
pub open spec fn name_text(n: PlaceholderName) -> Seq<char> {
    match n {
        PlaceholderName::Filename => seq!['f', 'i', 'l', 'e', 'n', 'a', 'm', 'e'],
        PlaceholderName::Workspace => seq!['w', 'o', 'r', 'k', 's', 'p', 'a', 'c', 'e'],
        PlaceholderName::Language => seq!['l', 'a', 'n', 'g', 'u', 'a', 'g', 'e'],
        PlaceholderName::BaseIconsUrl => seq![
            'b', 'a', 's', 'e', '_', 'i', 'c', 'o', 'n', 's', '_', 'u', 'r', 'l',
        ],
        PlaceholderName::RelativeFilePath => seq![
            'r', 'e', 'l', 'a', 't', 'i', 'v', 'e', '_', 'f', 'i', 'l', 'e', '_', 'p', 'a',
            't', 'h',
        ],
        PlaceholderName::FolderAndFile => seq![
            'f', 'o', 'l', 'd', 'e', 'r', '_', 'a', 'n', 'd', '_', 'f', 'i', 'l', 'e',
        ],
        PlaceholderName::DirectoryName => seq![
            'd', 'i', 'r', 'e', 'c', 't', 'o', 'r', 'y', '_', 'n', 'a', 'm', 'e',
        ],
        PlaceholderName::FullDirectoryName => seq![
            'f', 'u', 'l', 'l', '_', 'd', 'i', 'r', 'e', 'c', 't', 'o', 'r', 'y', '_', 'n',
            'a', 'm', 'e',
        ],
        PlaceholderName::LineNumber => seq![
            'l', 'i', 'n', 'e', '_', 'n', 'u', 'm', 'b', 'e', 'r',
        ],
        PlaceholderName::GitBranch => seq!['g', 'i', 't', '_', 'b', 'r', 'a', 'n', 'c', 'h'],
        PlaceholderName::FileSize => seq!['f', 'i', 'l', 'e', '_', 's', 'i', 'z', 'e'],
    }
}

/// The name that `body` spells, if any.
pub open spec fn lookup_name(body: Seq<char>) -> Option<PlaceholderName> {
    if body == name_text(PlaceholderName::Filename) {
        Some(PlaceholderName::Filename)
    } else if body == name_text(PlaceholderName::Workspace) {
        Some(PlaceholderName::Workspace)
    } else if body == name_text(PlaceholderName::Language) {
        Some(PlaceholderName::Language)
    } else if body == name_text(PlaceholderName::BaseIconsUrl) {
        Some(PlaceholderName::BaseIconsUrl)
    } else if body == name_text(PlaceholderName::RelativeFilePath) {
        Some(PlaceholderName::RelativeFilePath)
    } else if body == name_text(PlaceholderName::FolderAndFile) {
        Some(PlaceholderName::FolderAndFile)
    } else if body == name_text(PlaceholderName::DirectoryName) {
        Some(PlaceholderName::DirectoryName)
    } else if body == name_text(PlaceholderName::FullDirectoryName) {
        Some(PlaceholderName::FullDirectoryName)
    } else if body == name_text(PlaceholderName::LineNumber) {
        Some(PlaceholderName::LineNumber)
    } else if body == name_text(PlaceholderName::GitBranch) {
        Some(PlaceholderName::GitBranch)
    } else if body == name_text(PlaceholderName::FileSize) {
        Some(PlaceholderName::FileSize)
    } else {
        None
    }
}

/// The suffix that selects uppercasing of the first character.
pub open spec fn upper_suffix() -> Seq<char> {
    seq![':', 'u']
}

/// The suffix that selects lowercasing.
pub open spec fn lower_suffix() -> Seq<char> {
    seq![':', 'l', 'o']
}

/// Reads what stands between a pair of braces: a name, optionally followed
/// by `:u` or `:lo`.
pub open spec fn parse_body(body: Seq<char>) -> Option<(PlaceholderName, Casing)> {
    if lookup_name(body) is Some {
        Some((lookup_name(body)->Some_0, Casing::Raw))
    } else if body.len() >= 2 && body.subrange(body.len() - 2, body.len() as int)
        == upper_suffix() && lookup_name(body.subrange(0, body.len() - 2)) is Some {
        Some((lookup_name(body.subrange(0, body.len() - 2))->Some_0, Casing::Upper))
    } else if body.len() >= 3 && body.subrange(body.len() - 3, body.len() as int)
        == lower_suffix() && lookup_name(body.subrange(0, body.len() - 3)) is Some {
        Some((lookup_name(body.subrange(0, body.len() - 3))->Some_0, Casing::Lower))
    } else {
        None
    }
}

/// The first index `>= j` of `t` that holds a closing brace.
pub open spec fn close_index(t: Seq<char>, j: int) -> Option<int>
    decreases t.len() - j,
{
    if j < 0 || j >= t.len() {
        None
    } else if t[j] == '}' {
        Some(j)
    } else {
        close_index(t, j + 1)
    }
}

/// Whether a token starts at index `i` of `t`: an opening brace, then a body
/// up to the next closing brace that reads as a name.
pub open spec fn token_at(t: Seq<char>, i: int) -> Option<(int, PlaceholderName, Casing)> {
    if 0 <= i < t.len() && t[i] == '{' && close_index(t, i + 1) is Some {
        let j = close_index(t, i + 1)->Some_0;
        match parse_body(t.subrange(i + 1, j)) {
            Some((n, c)) => Some((j, n, c)),
            None => None,
        }
    } else {
        None
    }
}

/// Human-readable notation of a size in bytes.
pub open spec fn file_size_text(size: nat) -> Seq<char> {
    if size < 1024 {
        decimal(size) + if size == 1 {
            seq![' ', 'b', 'y', 't', 'e']
        } else {
            seq![' ', 'b', 'y', 't', 'e', 's']
        }
    } else if size < 1048576 {
        tenths_text(size, 1024) + seq![' ', 'K', 'B']
    } else {
        tenths_text(size, 1048576) + seq![' ', 'M', 'B']
    }
}

/// `size / unit` to one decimal place, halves rounded up.
pub open spec fn tenths_text(size: nat, unit: nat) -> Seq<char>
    recommends
        unit > 0,
{
    let tenths = (size * 10 + unit / 2) / unit;
    decimal(tenths / 10) + seq!['.'] + decimal(tenths % 10)
}

/// The values that templates draw on. A value that is absent stands for a
/// source that is not available (no open document, no branch).
#[derive(Debug, Clone)]
pub struct Placeholders {
    pub filename: Option<String>,
    pub workspace: String,
    pub language: Option<String>,
    pub base_icons_url: String,
    pub relative_file_path: Option<String>,
    pub folder_and_file: Option<String>,
    pub directory_name: Option<String>,
    pub full_directory_name: Option<String>,
    /// Zero-based line of the cursor.
    pub line_number: Option<u32>,
    pub git_branch: Option<String>,
    /// Size of the open file in bytes.
    pub file_size: Option<u64>,
}

/// The text of an optional value, or the name itself where it is absent.
pub open spec fn or_name(v: Option<String>, n: PlaceholderName) -> Seq<char> {
    match v {
        Some(s) => s@,
        None => name_text(n),
    }
}

/// The text a name stands for under `p`.
pub open spec fn value_of(p: Placeholders, n: PlaceholderName) -> Seq<char> {
    match n {
        PlaceholderName::Filename => or_name(p.filename, n),
        PlaceholderName::Workspace => p.workspace@,
        PlaceholderName::Language => or_name(p.language, n),
        PlaceholderName::BaseIconsUrl => p.base_icons_url@,
        PlaceholderName::RelativeFilePath => or_name(p.relative_file_path, n),
        PlaceholderName::FolderAndFile => or_name(p.folder_and_file, n),
        PlaceholderName::DirectoryName => or_name(p.directory_name, n),
        PlaceholderName::FullDirectoryName => or_name(p.full_directory_name, n),
        PlaceholderName::LineNumber => match p.line_number {
            Some(l) => decimal(l as nat + 1),
            None => seq!['0'],
        },
        PlaceholderName::GitBranch => or_name(p.git_branch, n),
        PlaceholderName::FileSize => match p.file_size {
            Some(s) => file_size_text(s as nat),
            None => name_text(n),
        },
    }
}

/// The text that replaces a token.
pub open spec fn expansion(p: Placeholders, n: PlaceholderName, c: Casing) -> Seq<char> {
    match c {
        Casing::Raw => value_of(p, n),
        Casing::Upper => capitalized(value_of(p, n)),
        Casing::Lower => lower_of(value_of(p, n)),
    }
}

/// The expansion of `t` from index `i` on.
pub open spec fn render_from(p: Placeholders, t: Seq<char>, i: int) -> Seq<char>
    decreases t.len() - i,
{
    if i < 0 || i >= t.len() {
        Seq::empty()
    } else {
        match token_at(t, i) {
            Some((j, n, c)) => if i < j < t.len() {
                expansion(p, n, c) + render_from(p, t, j + 1)
            } else {
                Seq::empty()
            },
            None => seq![t[i]] + render_from(p, t, i + 1),
        }
    }
}

/// The expansion of a whole template.
pub open spec fn render(p: Placeholders, t: Seq<char>) -> Seq<char> {
    render_from(p, t, 0)
}

/// A closing brace found from `j` on lies at or after `j`, inside `t`.
proof fn lemma_close_index_bounds(t: Seq<char>, j: int)
    ensures
        close_index(t, j) matches Some(k) ==> j <= k < t.len() && t[k] == '}',
    decreases t.len() - j,
{
    if 0 <= j < t.len() && t[j] != '}' {
        lemma_close_index_bounds(t, j + 1);
    }
}

/// Whether the characters of `t` from `lo` up to `hi` are exactly `s`.
fn chars_eq(t: &str, lo: usize, hi: usize, s: &str) -> (r: bool)
    requires
        lo <= hi <= t@.len(),
    ensures
        r == (t@.subrange(lo as int, hi as int) == s@),
{
    let n = s.unicode_len();
    if hi - lo != n {
        return false;
    }
    let mut k: usize = 0;
    while k < n
        invariant
            n == s@.len(),
            hi - lo == n,
            lo <= hi <= t@.len(),
            0 <= k <= n,
            forall|m: int| 0 <= m < k ==> t@[lo + m] == s@[m],
        decreases n - k,
    {
        if t.get_char(lo + k) != s.get_char(k) {
            assert(t@.subrange(lo as int, hi as int)[k as int] != s@[k as int]);
            return false;
        }
        k = k + 1;
    }
    assert(t@.subrange(lo as int, hi as int) =~= s@);
    true
}

/// The text of a name, as written between braces.
fn name_str(n: PlaceholderName) -> (r: &'static str)
    ensures
        r@ == name_text(n),
{
    match n {
        PlaceholderName::Filename => {
            proof { reveal_strlit("filename"); }
            assert("filename"@ =~= name_text(n));
            "filename"
        },
        PlaceholderName::Workspace => {
            proof { reveal_strlit("workspace"); }
            assert("workspace"@ =~= name_text(n));
            "workspace"
        },
        PlaceholderName::Language => {
            proof { reveal_strlit("language"); }
            assert("language"@ =~= name_text(n));
            "language"
        },
        PlaceholderName::BaseIconsUrl => {
            proof { reveal_strlit("base_icons_url"); }
            assert("base_icons_url"@ =~= name_text(n));
            "base_icons_url"
        },
        PlaceholderName::RelativeFilePath => {
            proof { reveal_strlit("relative_file_path"); }
            assert("relative_file_path"@ =~= name_text(n));
            "relative_file_path"
        },
        PlaceholderName::FolderAndFile => {
            proof { reveal_strlit("folder_and_file"); }
            assert("folder_and_file"@ =~= name_text(n));
            "folder_and_file"
        },
        PlaceholderName::DirectoryName => {
            proof { reveal_strlit("directory_name"); }
            assert("directory_name"@ =~= name_text(n));
            "directory_name"
        },
        PlaceholderName::FullDirectoryName => {
            proof { reveal_strlit("full_directory_name"); }
            assert("full_directory_name"@ =~= name_text(n));
            "full_directory_name"
        },
        PlaceholderName::LineNumber => {
            proof { reveal_strlit("line_number"); }
            assert("line_number"@ =~= name_text(n));
            "line_number"
        },
        PlaceholderName::GitBranch => {
            proof { reveal_strlit("git_branch"); }
            assert("git_branch"@ =~= name_text(n));
            "git_branch"
        },
        PlaceholderName::FileSize => {
            proof { reveal_strlit("file_size"); }
            assert("file_size"@ =~= name_text(n));
            "file_size"
        },
    }
}

/// The name spelled by the characters of `t` from `lo` up to `hi`.
fn lookup_name_in(t: &str, lo: usize, hi: usize) -> (r: Option<PlaceholderName>)
    requires
        lo <= hi <= t@.len(),
    ensures
        r == lookup_name(t@.subrange(lo as int, hi as int)),
{
    if chars_eq(t, lo, hi, name_str(PlaceholderName::Filename)) {
        Some(PlaceholderName::Filename)
    } else if chars_eq(t, lo, hi, name_str(PlaceholderName::Workspace)) {
        Some(PlaceholderName::Workspace)
    } else if chars_eq(t, lo, hi, name_str(PlaceholderName::Language)) {
        Some(PlaceholderName::Language)
    } else if chars_eq(t, lo, hi, name_str(PlaceholderName::BaseIconsUrl)) {
        Some(PlaceholderName::BaseIconsUrl)
    } else if chars_eq(t, lo, hi, name_str(PlaceholderName::RelativeFilePath)) {
        Some(PlaceholderName::RelativeFilePath)
    } else if chars_eq(t, lo, hi, name_str(PlaceholderName::FolderAndFile)) {
        Some(PlaceholderName::FolderAndFile)
    } else if chars_eq(t, lo, hi, name_str(PlaceholderName::DirectoryName)) {
        Some(PlaceholderName::DirectoryName)
    } else if chars_eq(t, lo, hi, name_str(PlaceholderName::FullDirectoryName)) {
        Some(PlaceholderName::FullDirectoryName)
    } else if chars_eq(t, lo, hi, name_str(PlaceholderName::LineNumber)) {
        Some(PlaceholderName::LineNumber)
    } else if chars_eq(t, lo, hi, name_str(PlaceholderName::GitBranch)) {
        Some(PlaceholderName::GitBranch)
    } else if chars_eq(t, lo, hi, name_str(PlaceholderName::FileSize)) {
        Some(PlaceholderName::FileSize)
    } else {
        None
    }
}

/// Reads the body between braces held by `t` from `lo` up to `hi`.
fn parse_body_in(t: &str, lo: usize, hi: usize) -> (r: Option<(PlaceholderName, Casing)>)
    requires
        lo <= hi <= t@.len(),
    ensures
        r == parse_body(t@.subrange(lo as int, hi as int)),
{
    let ghost body = t@.subrange(lo as int, hi as int);
    if let Some(n) = lookup_name_in(t, lo, hi) {
        return Some((n, Casing::Raw));
    }
    if hi - lo >= 2 {
        proof {
            reveal_strlit(":u");
        }
        assert(body.subrange(body.len() - 2, body.len() as int) =~= t@.subrange(
            hi - 2,
            hi as int,
        ));
        assert(body.subrange(0, body.len() - 2) =~= t@.subrange(lo as int, hi - 2));
        assert(":u"@ =~= upper_suffix());
        if chars_eq(t, hi - 2, hi, ":u") {
            if let Some(n) = lookup_name_in(t, lo, hi - 2) {
                return Some((n, Casing::Upper));
            }
        }
    }
    if hi - lo >= 3 {
        proof {
            reveal_strlit(":lo");
        }
        assert(body.subrange(body.len() - 3, body.len() as int) =~= t@.subrange(
            hi - 3,
            hi as int,
        ));
        assert(body.subrange(0, body.len() - 3) =~= t@.subrange(lo as int, hi - 3));
        assert(":lo"@ =~= lower_suffix());
        if chars_eq(t, hi - 3, hi, ":lo") {
            if let Some(n) = lookup_name_in(t, lo, hi - 3) {
                return Some((n, Casing::Lower));
            }
        }
    }
    None
}

/// The first closing brace of `t` at index `from` or later.
fn find_close(t: &str, len: usize, from: usize) -> (r: Option<usize>)
    requires
        len == t@.len(),
        from <= len,
    ensures
        r matches Some(j) ==> close_index(t@, from as int) == Some(j as int),
        r is None ==> close_index(t@, from as int) is None,
{
    let mut j = from;
    while j < len
        invariant
            len == t@.len(),
            from <= j <= len,
            close_index(t@, from as int) == close_index(t@, j as int),
        decreases len - j,
    {
        if t.get_char(j) == '}' {
            return Some(j);
        }
        j = j + 1;
    }
    None
}

/// `size / unit` to one decimal place, halves rounded up.
fn push_tenths(out: &mut String, size: u64, unit: u64)
    requires
        unit == 1024 || unit == 1048576,
    ensures
        final(out)@ == old(out)@ + tenths_text(size as nat, unit as nat),
{
    let wide = (size as u128) * 10 + (unit as u128) / 2;
    let tenths = wide / (unit as u128);
    assert(tenths <= u64::MAX) by (nonlinear_arith)
        requires
            tenths == wide / (unit as u128),
            wide == (size as u128) * 10 + (unit as u128) / 2,
            unit >= 1024,
            size <= u64::MAX,
    ;
    let tenths = tenths as u64;
    push_decimal(out, tenths / 10);
    proof {
        reveal_strlit(".");
    }
    out.append(".");
    push_decimal(out, tenths % 10);
    assert(final(out)@ =~= old(out)@ + tenths_text(size as nat, unit as nat));
}

/// Human-readable notation of a size in bytes: `"<n> byte"` or
/// `"<n> bytes"` below 1024, then kilobytes below 1048576, then megabytes,
/// both to one decimal place.
pub fn format_file_size(size: u64) -> (r: String)
    ensures
        r@ == file_size_text(size as nat),
{
    let mut out = String::new();
    if size < 1024 {
        push_decimal(&mut out, size);
        if size == 1 {
            proof {
                reveal_strlit(" byte");
            }
            out.append(" byte");
        } else {
            proof {
                reveal_strlit(" bytes");
            }
            out.append(" bytes");
        }
    } else if size < 1048576 {
        push_tenths(&mut out, size, 1024);
        proof {
            reveal_strlit(" KB");
        }
        out.append(" KB");
    } else {
        push_tenths(&mut out, size, 1048576);
        proof {
            reveal_strlit(" MB");
        }
        out.append(" MB");
    }
    assert(out@ =~= file_size_text(size as nat));
    out
}

/// The text of an optional value, or the name itself where it is absent.
fn value_or_name(v: &Option<String>, n: PlaceholderName) -> (r: String)
    ensures
        r@ == or_name(*v, n),
{
    match v {
        Some(s) => s.clone(),
        None => String::from_str(name_str(n)),
    }
}

impl Placeholders {
    /// The text that the name `n` stands for.
    pub fn value(&self, n: PlaceholderName) -> (r: String)
        ensures
            r@ == value_of(*self, n),
    {
        match n {
            PlaceholderName::Filename => value_or_name(&self.filename, n),
            PlaceholderName::Workspace => self.workspace.clone(),
            PlaceholderName::Language => value_or_name(&self.language, n),
            PlaceholderName::BaseIconsUrl => self.base_icons_url.clone(),
            PlaceholderName::RelativeFilePath => value_or_name(&self.relative_file_path, n),
            PlaceholderName::FolderAndFile => value_or_name(&self.folder_and_file, n),
            PlaceholderName::DirectoryName => value_or_name(&self.directory_name, n),
            PlaceholderName::FullDirectoryName => value_or_name(&self.full_directory_name, n),
            PlaceholderName::LineNumber => match self.line_number {
                Some(l) => {
                    let mut out = String::new();
                    push_decimal(&mut out, l as u64 + 1);
                    assert(out@ =~= decimal(l as nat + 1));
                    out
                },
                None => {
                    proof {
                        reveal_strlit("0");
                    }
                    assert("0"@ =~= seq!['0']);
                    String::from_str("0")
                },
            },
            PlaceholderName::GitBranch => value_or_name(&self.git_branch, n),
            PlaceholderName::FileSize => match self.file_size {
                Some(s) => format_file_size(s),
                None => String::from_str(name_str(n)),
            },
        }
    }

    /// The text that replaces a token of name `n` and casing `c`.
    pub fn expand(&self, n: PlaceholderName, c: Casing) -> (r: String)
        ensures
            r@ == expansion(*self, n, c),
    {
        let v = self.value(n);
        match c {
            Casing::Raw => v,
            Casing::Upper => capitalize_first_letter(v.as_str()),
            Casing::Lower => lowercase(v.as_str()),
        }
    }

    /// Expands every token of `text` in one left-to-right pass. A brace that
    /// does not open a recognised token is kept as it is.
    pub fn replace(&self, text: &str) -> (r: String)
        ensures
            r@ == render(*self, text@),
    {
        let len = text.unicode_len();
        let mut out = String::new();
        let mut i: usize = 0;
        while i < len
            invariant
                len == text@.len(),
                0 <= i <= len,
                out@ + render_from(*self, text@, i as int) == render(*self, text@),
            decreases len - i,
        {
            let ch = text.get_char(i);
            let mut token: Option<(usize, PlaceholderName, Casing)> = None;
            if ch == '{' {
                if let Some(j) = find_close(text, len, i + 1) {
                    proof {
                        lemma_close_index_bounds(text@, i + 1);
                    }
                    if let Some((n, c)) = parse_body_in(text, i + 1, j) {
                        token = Some((j, n, c));
                    }
                }
            }
            match token {
                Some((j, n, c)) => {
                    assert(token_at(text@, i as int) == Some((j as int, n, c)));
                    let piece = self.expand(n, c);
                    let ghost before = out@;
                    out.append(piece.as_str());
                    assert(out@ + render_from(*self, text@, j + 1) =~= before
                        + render_from(*self, text@, i as int));
                    i = j + 1;
                },
                None => {
                    assert(token_at(text@, i as int) is None);
                    let ghost before = out@;
                    out.append(text.substring_char(i, i + 1));
                    assert(out@ + render_from(*self, text@, i + 1) =~= before
                        + render_from(*self, text@, i as int));
                    i = i + 1;
                },
            }
        }
        out
    }
}

/// No character of `s` is a brace.
pub open spec fn brace_free(s: Seq<char>) -> bool {
    forall|k: int| 0 <= k < s.len() ==> #[trigger] s[k] != '{' && s[k] != '}'
}

/// From index `i` on, every brace of `t` belongs to a recognised token.
pub open spec fn only_tokens_from(t: Seq<char>, i: int) -> bool
    decreases t.len() - i,
{
    if i < 0 || i >= t.len() {
        true
    } else {
        match token_at(t, i) {
            Some((j, n, c)) => if i < j < t.len() {
                only_tokens_from(t, j + 1)
            } else {
                false
            },
            None => t[i] != '{' && t[i] != '}' && only_tokens_from(t, i + 1),
        }
    }
}

/// The template uses braces only to write recognised placeholders.
pub open spec fn uses_only_recognized(t: Seq<char>) -> bool {
    only_tokens_from(t, 0)
}

proof fn lemma_render_from_brace_free(p: Placeholders, t: Seq<char>, i: int)
    requires
        only_tokens_from(t, i),
        forall|n: PlaceholderName, c: Casing| brace_free(#[trigger] expansion(p, n, c)),
    ensures
        brace_free(render_from(p, t, i)),
    decreases t.len() - i,
{
    if 0 <= i < t.len() {
        match token_at(t, i) {
            Some((j, n, c)) => {
                lemma_render_from_brace_free(p, t, j + 1);
                let a = expansion(p, n, c);
                let b = render_from(p, t, j + 1);
                assert(brace_free(a));
                assert forall|k: int| 0 <= k < (a + b).len() implies #[trigger] (a + b)[k] != '{'
                    && (a + b)[k] != '}' by {
                    if k < a.len() {
                        assert((a + b)[k] == a[k]);
                    } else {
                        assert((a + b)[k] == b[k - a.len()]);
                    }
                }
            },
            None => {
                lemma_render_from_brace_free(p, t, i + 1);
                let a = seq![t[i]];
                let b = render_from(p, t, i + 1);
                assert forall|k: int| 0 <= k < (a + b).len() implies #[trigger] (a + b)[k] != '{'
                    && (a + b)[k] != '}' by {
                    if k < a.len() {
                        assert((a + b)[k] == a[k]);
                    } else {
                        assert((a + b)[k] == b[k - a.len()]);
                    }
                }
            },
        }
    }
}

/// A template that writes braces only as recognised placeholders expands
/// to text without braces, provided no substituted text holds a brace.
pub proof fn lemma_render_leaves_no_braces(p: Placeholders, t: Seq<char>)
    requires
        uses_only_recognized(t),
        forall|n: PlaceholderName, c: Casing| brace_free(#[trigger] expansion(p, n, c)),
    ensures
        brace_free(render(p, t)),
{
    lemma_render_from_brace_free(p, t, 0);
}

} // verus!
