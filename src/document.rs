//! A snapshot of the document being edited, and what its path says.
use vstd::prelude::*;
use crate::error::PresenceError;

verus! {

/// What `urlencoding::decode` yields: the percent-decoded text, or nothing
/// where the decoded bytes are not UTF-8.
pub uninterp spec fn url_decoded(s: Seq<char>) -> Option<Seq<char>>;

/// Relies on `urlencoding::decode`: percent-decoding that depends on the
/// text alone, which returns the text itself where it holds no `%`.
#[verifier::external_body]
fn url_decode(s: &str) -> (r: Option<String>)
    ensures
        r is None <==> url_decoded(s@) is None,
        r matches Some(v) ==> url_decoded(s@) == Some(v@),
        !s@.contains('%') ==> r is Some,
        r matches Some(v) ==> (!s@.contains('%') ==> v@ == s@),
{
    match urlencoding::decode(s) {
        Ok(v) => Some(v.into_owned()),
        Err(_) => None,
    }
}

/// The index of the last occurrence of `c` in `s`.
pub open spec fn last_index_of(s: Seq<char>, c: char) -> Option<int>
    decreases s.len(),
{
    if s.len() == 0 {
        None
    } else if s.last() == c {
        Some(s.len() - 1)
    } else {
        last_index_of(s.drop_last(), c)
    }
}

proof fn lemma_last_index_bounds(s: Seq<char>, c: char)
    ensures
        last_index_of(s, c) matches Some(k) ==> 0 <= k < s.len() && s[k] == c,
    decreases s.len(),
{
    if s.len() > 0 && s.last() != c {
        lemma_last_index_bounds(s.drop_last(), c);
    }
}

/// What follows the last `/` of `path` (all of it where there is none).
pub open spec fn last_segment(path: Seq<char>) -> Seq<char> {
    match last_index_of(path, '/') {
        Some(k) => path.subrange(k + 1, path.len() as int),
        None => path,
    }
}

/// What precedes the last `/` of `path` (nothing where there is none).
pub open spec fn parent_part(path: Seq<char>) -> Seq<char> {
    match last_index_of(path, '/') {
        Some(k) => path.subrange(0, k),
        None => Seq::empty(),
    }
}

/// The file name of a path: its last segment, where that is a name.
pub open spec fn file_name_of(path: Seq<char>) -> Option<Seq<char>> {
    let s = last_segment(path);
    if s.len() == 0 || s == seq!['.'] || s == seq!['.', '.'] {
        None
    } else {
        Some(s)
    }
}

/// The extension of a file name: what follows its last dot, where that dot
/// is not the first character.
pub open spec fn extension_of(name: Seq<char>) -> Seq<char> {
    match last_index_of(name, '.') {
        Some(k) => if k > 0 {
            name.subrange(k + 1, name.len() as int)
        } else {
            Seq::empty()
        },
        None => Seq::empty(),
    }
}

/// The extension of the file a path names; nothing where it names none.
pub open spec fn doc_extension(path: Seq<char>) -> Seq<char> {
    match file_name_of(path) {
        Some(f) => extension_of(f),
        None => Seq::empty(),
    }
}

/// The part of `path` below the directory `root`, where `path` lies inside it.
pub open spec fn relative_to(path: Seq<char>, root: Seq<char>) -> Option<Seq<char>> {
    if root.len() <= path.len() && path.subrange(0, root.len() as int) == root {
        let rest = path.subrange(root.len() as int, path.len() as int);
        if root.len() > 0 && root.last() == '/' {
            Some(rest)
        } else if rest.len() > 0 && rest[0] == '/' {
            Some(rest.subrange(1, rest.len() as int))
        } else {
            None
        }
    } else {
        None
    }
}

/// The document that an editor event is about. The path is the one of the
/// document's URI, still percent-encoded.
#[derive(Debug, Clone)]
pub struct Document {
    pub path: String,
    /// Path of the workspace's root directory, written as `path` is.
    pub workspace_root: String,
    /// Zero-based line of the cursor, where the editor reported one.
    pub line_number: Option<u32>,
    /// Size of the file in bytes, where it is known.
    pub file_size: Option<u64>,
}

/// The index of the last `c` in `s`, found by a scan from the end.
fn find_last(s: &str, len: usize, c: char) -> (r: Option<usize>)
    requires
        len == s@.len(),
    ensures
        r matches Some(k) ==> last_index_of(s@, c) == Some(k as int) && k < len,
        r is None ==> last_index_of(s@, c) is None,
{
    proof {
        lemma_last_index_bounds(s@, c);
    }
    assert(s@.subrange(0, len as int) =~= s@);
    let mut k = len;
    while k > 0
        invariant
            len == s@.len(),
            0 <= k <= len,
            last_index_of(s@, c) == last_index_of(s@.subrange(0, k as int), c),
        decreases k,
    {
        let ghost pre = s@.subrange(0, k as int);
        assert(pre.drop_last() =~= s@.subrange(0, k - 1));
        if s.get_char(k - 1) == c {
            return Some(k - 1);
        }
        k = k - 1;
    }
    assert(s@.subrange(0, 0) =~= Seq::<char>::empty());
    None
}

/// What follows the last `/` of `s`.
fn last_segment_of(s: &str) -> (r: &str)
    ensures
        r@ == last_segment(s@),
{
    let len = s.unicode_len();
    match find_last(s, len, '/') {
        Some(k) => s.substring_char(k + 1, len),
        None => s,
    }
}

/// What precedes the last `/` of `s`.
fn parent_of(s: &str) -> (r: &str)
    ensures
        r@ == parent_part(s@),
{
    let len = s.unicode_len();
    match find_last(s, len, '/') {
        Some(k) => s.substring_char(0, k),
        None => {
            assert(s@.subrange(0, 0) =~= Seq::<char>::empty());
            s.substring_char(0, 0)
        },
    }
}

/// The name of a workspace: the last segment of its root path.
pub fn workspace_name(root: &str) -> (r: String)
    ensures
        r@ == last_segment(root@),
{
    String::from_str(last_segment_of(root))
}

/// Decodes `s`, or reports `what` as a document error.
fn decode_or_error(s: &str, what: &str) -> (r: Result<String, PresenceError>)
    ensures
        r matches Ok(v) ==> url_decoded(s@) == Some(v@),
        r is Err <==> url_decoded(s@) is None,
        r matches Err(e) ==> e is Document,
{
    match url_decode(s) {
        Some(v) => Ok(v),
        None => Err(PresenceError::Document(String::from_str(what))),
    }
}

impl Document {
    /// A snapshot of the document at `path` in the workspace at
    /// `workspace_root`.
    pub fn new(
        path: &str,
        workspace_root: &str,
        line_number: Option<u32>,
        file_size: Option<u64>,
    ) -> (r: Document)
        ensures
            r.path@ == path@,
            r.workspace_root@ == workspace_root@,
            r.line_number == line_number,
            r.file_size == file_size,
    {
        Document {
            path: String::from_str(path),
            workspace_root: String::from_str(workspace_root),
            line_number,
            file_size,
        }
    }

    /// The raw, still encoded, file name.
    fn raw_file_name(&self) -> (r: Option<&str>)
        ensures
            r matches Some(v) ==> file_name_of(self.path@) == Some(v@),
            r is None <==> file_name_of(self.path@) is None,
    {
        let s = last_segment_of(self.path.as_str());
        let n = s.unicode_len();
        if n == 0 {
            return None;
        }
        if n <= 2 && s.get_char(0) == '.' && (n == 1 || s.get_char(1) == '.') {
            assert(s@ =~= seq!['.'] || s@ =~= seq!['.', '.']);
            return None;
        }
        assert(s@ != seq!['.'] && s@ != seq!['.', '.']) by {
            if n <= 2 {
                assert(s@[0] != '.' || (n == 2 && s@[1] != '.'));
            }
        }
        Some(s)
    }

    /// The decoded file name. Fails where the path ends in no name, or the
    /// name does not decode.
    pub fn get_filename(&self) -> (r: Result<String, PresenceError>)
        ensures
            r matches Ok(v) ==> file_name_of(self.path@) matches Some(f) && url_decoded(f)
                == Some(v@),
            r is Err <==> (file_name_of(self.path@) matches Some(f) ==> url_decoded(f) is None),
            r matches Err(e) ==> e is Document,
    {
        match self.raw_file_name() {
            Some(f) => decode_or_error(f, "Invalid filename encoding"),
            None => Err(PresenceError::Document(String::from_str("No filename found"))),
        }
    }

    /// The extension of the raw file name, or nothing where it has none.
    pub fn get_extension(&self) -> (r: String)
        ensures
            r@ == doc_extension(self.path@),
    {
        match self.raw_file_name() {
            Some(f) => {
                let n = f.unicode_len();
                match find_last(f, n, '.') {
                    Some(k) => if k > 0 {
                        String::from_str(f.substring_char(k + 1, n))
                    } else {
                        String::new()
                    },
                    None => String::new(),
                }
            },
            None => String::new(),
        }
    }

    /// The decoded path below the workspace root. Fails where the document
    /// lies outside the workspace, or the path does not decode.
    pub fn get_relative_path(&self) -> (r: Result<String, PresenceError>)
        ensures
            r matches Ok(v) ==> relative_to(self.path@, self.workspace_root@) matches Some(rel)
                && url_decoded(rel) == Some(v@),
            r is Err <==> (relative_to(self.path@, self.workspace_root@) matches Some(rel)
                ==> url_decoded(rel) is None),
    {
        let path = self.path.as_str();
        let root = self.workspace_root.as_str();
        let plen = path.unicode_len();
        let rlen = root.unicode_len();
        if rlen > plen {
            return Err(PresenceError::Document(String::from_str("Path outside workspace root")));
        }
        let mut k: usize = 0;
        while k < rlen
            invariant
                path@ == self.path@,
                root@ == self.workspace_root@,
                rlen == root@.len(),
                plen == path@.len(),
                rlen <= plen,
                0 <= k <= rlen,
                forall|m: int| 0 <= m < k ==> path@[m] == root@[m],
            decreases rlen - k,
        {
            if path.get_char(k) != root.get_char(k) {
                assert(path@.subrange(0, rlen as int)[k as int] != root@[k as int]);
                assert(path@.subrange(0, rlen as int) != root@);
                return Err(
                    PresenceError::Document(String::from_str("Path outside workspace root")),
                );
            }
            k = k + 1;
        }
        assert(path@.subrange(0, rlen as int) =~= root@);
        let rest = path.substring_char(rlen, plen);
        if rlen > 0 && root.get_char(rlen - 1) == '/' {
            decode_or_error(rest, "Invalid path encoding")
        } else if plen > rlen && path.get_char(rlen) == '/' {
            let inner = path.substring_char(rlen + 1, plen);
            assert(rest@.subrange(1, rest@.len() as int) =~= inner@);
            decode_or_error(inner, "Invalid path encoding")
        } else {
            Err(PresenceError::Document(String::from_str("Path outside workspace root")))
        }
    }

    /// The decoded path of the directory that holds the document.
    pub fn get_full_directory_name(&self) -> (r: Result<String, PresenceError>)
        ensures
            r matches Ok(v) ==> url_decoded(parent_part(self.path@)) == Some(v@),
            r is Err <==> url_decoded(parent_part(self.path@)) is None,
    {
        decode_or_error(parent_of(self.path.as_str()), "Invalid path encoding")
    }

    /// The decoded name of the directory that holds the document.
    pub fn get_directory_name(&self) -> (r: Result<String, PresenceError>)
        ensures
            r matches Ok(v) ==> url_decoded(last_segment(parent_part(self.path@))) == Some(v@),
            r is Err <==> url_decoded(last_segment(parent_part(self.path@))) is None,
    {
        decode_or_error(
            last_segment_of(parent_of(self.path.as_str())),
            "Invalid path encoding",
        )
    }
}

} // verus!
