//! Chart cell names from file paths.

use vstd::prelude::*;
use vstd::string::*;

verus! {

/// The file stem of a path (its last component without the extension), as
/// `std::path::Path::file_stem` gives it, where it is valid UTF-8.
pub uninterp spec fn file_stem_name(path: Seq<char>) -> Option<Seq<char>>;

/// Relies on `std::path::Path::file_stem` (std) for the last component of
/// the path without its extension; the result depends on the path alone.
#[verifier::external_body]
fn file_stem(path: &str) -> (r: Option<String>)
    ensures
        match r {
            Some(s) => file_stem_name(path@) == Some(s@),
            None => file_stem_name(path@) is None,
        },
{
    match std::path::Path::new(path).file_stem() {
        Some(stem) => match stem.to_str() {
            Some(text) => Some(text.to_string()),
            None => None,
        },
        None => None,
    }
}

/// The position of the first `.` in the text, or its length.
pub open spec fn first_dot(s: Seq<char>) -> int
    decreases s.len(),
{
    if s.len() == 0 || s[0] == '.' {
        0
    } else {
        1 + first_dot(s.drop_first())
    }
}

/// The chart name of a file stem: the text before its first `.`, or
/// `unknown` where the path has no usable stem.
pub open spec fn enc_name_of(stem: Option<Seq<char>>) -> Seq<char> {
    match stem {
        Some(s) => s.subrange(0, first_dot(s)),
        None => "unknown"@,
    }
}

proof fn lemma_first_dot(s: Seq<char>)
    ensures
        0 <= first_dot(s) <= s.len(),
        forall|j: int| 0 <= j < first_dot(s) ==> s[j] != '.',
        first_dot(s) < s.len() ==> s[first_dot(s)] == '.',
    decreases s.len(),
{
    if s.len() > 0 && s[0] != '.' {
        let t = s.drop_first();
        lemma_first_dot(t);
        assert forall|j: int| 0 <= j < first_dot(s) implies s[j] != '.' by {
            if j > 0 {
                assert(t[j - 1] == s[j]);
            }
        }
        if first_dot(t) < t.len() {
            assert(t[first_dot(t)] == s[first_dot(s)]);
        }
    }
}

proof fn lemma_first_dot_unique(s: Seq<char>, k: int)
    requires
        0 <= k <= s.len(),
        forall|j: int| 0 <= j < k ==> s[j] != '.',
        k < s.len() ==> s[k] == '.',
    ensures
        first_dot(s) == k,
{
    lemma_first_dot(s);
    let f = first_dot(s);
    if f < k {
        assert(s[f] == '.');
    } else if f > k {
        assert(s[k] == '.');
    }
}

/// The chart name of a file stem, as the text before its first `.`.
pub fn enc_name_from_stem(stem: Option<&str>) -> (r: String)
    ensures
        r@ == enc_name_of(match stem {
            Some(s) => Some(s@),
            None => None,
        }),
{
    match stem {
        Some(s) => {
            let n = s.unicode_len();
            let mut k: usize = 0;
            while k < n && s.get_char(k) != '.'
                invariant
                    n == s@.len(),
                    k <= n,
                    forall|j: int| 0 <= j < k ==> s@[j] != '.',
                decreases n - k,
            {
                k = k + 1;
            }
            proof {
                lemma_first_dot_unique(s@, k as int);
            }
            String::from_str(s.substring_char(0, k))
        },
        None => String::from_str("unknown"),
    }
}

/// A chart file with this extension is a base cell (`000`); update files
/// (`001` on) are applied by the chart reader and not read on their own.
pub fn is_base_chart_extension(ext: &str) -> (r: bool)
    ensures
        r == (ext@ == "000"@),
{
    crate::attrs::same_text(ext, "000")
}

/// The chart cell name of a chart file path: its file stem up to the first
/// `.`, or `unknown`.
pub fn enc_name_from_path(s57_path: &str) -> (r: String)
    ensures
        r@ == enc_name_of(file_stem_name(s57_path@)),
{
    match file_stem(s57_path) {
        Some(stem) => enc_name_from_stem(Some(stem.as_str())),
        None => enc_name_from_stem(None),
    }
}

} // verus!
