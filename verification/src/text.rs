//! Text handling: UTF-16 decoding and names derived from paths.

use vstd::prelude::*;

verus! {

/// The text that the code units encode as UTF-16, or `None` where they hold
/// an unpaired surrogate.
pub uninterp spec fn utf16_text(units: Seq<u16>) -> Option<Seq<char>>;

/// The text that the code units encode as UTF-16, with U+FFFD in place of
/// each unpaired surrogate.
pub uninterp spec fn utf16_text_lossy(units: Seq<u16>) -> Seq<char>;

/// `String::from_utf16` of the standard library: the result is the decoded
/// text, and the call fails exactly where `utf16_text` has none.
#[verifier::external_body]
pub(crate) fn decode_utf16(units: &[u16]) -> (r: Option<String>)
    ensures
        text_of(r) == utf16_text(units@),
{
    String::from_utf16(units).ok()
}

/// `String::from_utf16_lossy` of the standard library: the result is the
/// decoded text with replacement characters.
#[verifier::external_body]
pub(crate) fn decode_utf16_lossy(units: &[u16]) -> (r: String)
    ensures
        r@ == utf16_text_lossy(units@),
{
    String::from_utf16_lossy(units)
}

/// The text of an optional string.
pub open spec fn text_of(s: Option<String>) -> Option<Seq<char>> {
    match s {
        Some(text) => Some(text@),
        None => None,
    }
}

/// The separator of path components.
pub const SEPARATOR: char = '\\';

/// Among the first `n` characters of `path`, the position just after the
/// last separator, or 0 where there is none.
pub open spec fn name_start(path: Seq<char>, n: int) -> int
    decreases n,
{
    if n <= 0 {
        0
    } else if path[n - 1] == SEPARATOR {
        n
    } else {
        name_start(path, n - 1)
    }
}

/// The last component of a path: what follows its last separator, or the
/// whole path where it holds none.
pub open spec fn file_name(path: Seq<char>) -> Seq<char> {
    path.subrange(name_start(path, path.len() as int), path.len() as int)
}

/// `name_start` is the one position that has a separator just before it, or
/// is 0, and no separator from it on.
pub proof fn lemma_name_start_unique(path: Seq<char>, n: int, start: int)
    requires
        0 <= start <= n <= path.len(),
        start == 0 || path[start - 1] == SEPARATOR,
        forall|j: int| start <= j < n ==> path[j] != SEPARATOR,
    ensures
        name_start(path, n) == start,
    decreases n - start,
{
    if n > start {
        lemma_name_start_unique(path, n - 1, start);
    } else if n > 0 {
    }
}

/// The file name is a suffix of the path without separator, and the longest
/// such suffix.
pub proof fn lemma_file_name_is_longest_plain_suffix(path: Seq<char>)
    ensures
        0 <= name_start(path, path.len() as int) <= path.len(),
        !file_name(path).contains(SEPARATOR),
        name_start(path, path.len() as int) > 0 ==> path[name_start(path, path.len() as int) - 1]
            == SEPARATOR,
{
    lemma_name_start_bounds(path, path.len() as int);
    let start = name_start(path, path.len() as int);
    let name = file_name(path);
    assert forall|k: int| 0 <= k < name.len() implies name[k] != SEPARATOR by {
        assert(name[k] == path[start + k]);
    }
}

/// Where `name_start` lies, and that no separator follows it.
pub proof fn lemma_name_start_bounds(path: Seq<char>, n: int)
    requires
        0 <= n <= path.len(),
    ensures
        0 <= name_start(path, n) <= n,
        name_start(path, n) > 0 ==> path[name_start(path, n) - 1] == SEPARATOR,
        forall|j: int| name_start(path, n) <= j < n ==> path[j] != SEPARATOR,
    decreases n,
{
    if n > 0 && path[n - 1] != SEPARATOR {
        lemma_name_start_bounds(path, n - 1);
    }
}

/// The last component of `path`.
pub fn path_file_name(path: &str) -> (name: String)
    ensures
        name@ == file_name(path@),
{
    let len: usize = path.unicode_len();
    let mut start: usize = len;
    while start > 0 && path.get_char(start - 1) != SEPARATOR
        invariant
            len == path@.len(),
            start <= len,
            forall|j: int| start <= j < len ==> path@[j] != SEPARATOR,
        decreases start,
    {
        start = start - 1;
    }
    proof {
        lemma_name_start_unique(path@, len as int, start as int);
    }
    path.substring_char(start, len).to_owned()
}

} // verus!
