//! The image sequencer: an ordered list of image paths, shuffled when it is
//! loaded and again every time a traversal wraps past its last element.
//!
//! A directory listing is filtered down to the paths that name image files,
//! then shuffled.  Advancing past the last index returns to index zero and
//! reports the wrap, upon which the caller reshuffles, so that no two cycles
//! are forced to show the images in the same order.

use vstd::prelude::*;
use vstd::string::StrSliceExecFns;
use rand::seq::SliceRandom;

verus! {

/// Whether `p` ends in `suffix`.
pub open spec fn ends_with(p: Seq<char>, suffix: Seq<char>) -> bool {
    p.len() >= suffix.len() && p.subrange(p.len() - suffix.len(), p.len() as int) == suffix
}

/// Whether `suffix` — a dot followed by an extension — names the file
/// extension of `p`: the path ends in it, and the dot is preceded by at
/// least one character of the file name.  A hidden file whose only dot is
/// the first character of its name has no extension.
pub open spec fn suffix_names_extension(p: Seq<char>, suffix: Seq<char>) -> bool {
    &&& ends_with(p, suffix)
    &&& p.len() > suffix.len()
    &&& p[p.len() - suffix.len() - 1] != '/'
}

/// Whether a path names an image file: its file extension is one of the
/// accepted image-file extensions.
pub open spec fn is_image_path(p: Seq<char>) -> bool {
    ||| suffix_names_extension(p, ".gif"@)
    ||| suffix_names_extension(p, ".jpg"@)
    ||| suffix_names_extension(p, ".jpeg"@)
    ||| suffix_names_extension(p, ".png"@)
    ||| suffix_names_extension(p, ".bmp"@)
}

/// The subsequence of paths that name image files, in their original order.
pub open spec fn keep_image_paths(ps: Seq<String>) -> Seq<String>
    decreases ps.len(),
{
    if ps.len() == 0 {
        Seq::empty()
    } else {
        let rest = keep_image_paths(ps.drop_last());
        if is_image_path(ps.last()@) {
            rest.push(ps.last())
        } else {
            rest
        }
    }
}

/// The index shown after `id` in a list of `n` images: the following index,
/// or zero again past the last.
pub open spec fn next_image_id(id: int, n: int) -> int {
    if id + 1 < n {
        id + 1
    } else {
        0
    }
}

/// Whether advancing from `id` in a list of `n` images wraps past its end.
pub open spec fn advance_wraps(id: int, n: int) -> bool {
    !(id + 1 < n)
}

/// Whether `suffix` names the file extension of `s`, comparing character
/// by character.
fn str_has_extension(s: &str, suffix: &str) -> (r: bool)
    ensures
        r == suffix_names_extension(s@, suffix@),
{
    let n = s.unicode_len();
    let m = suffix.unicode_len();
    if n <= m {
        return false;
    }
    if s.get_char(n - m - 1) == '/' {
        return false;
    }
    let mut i: usize = 0;
    while i < m
        invariant
            i <= m,
            m < n,
            n == s@.len(),
            m == suffix@.len(),
            forall|k: int| 0 <= k < i ==> s@[n - m + k] == #[trigger] suffix@[k],
        decreases m - i,
    {
        if s.get_char(n - m + i) != suffix.get_char(i) {
            proof {
                assert(s@.subrange(n - m, n as int)[i as int] == s@[n - m + i]);
            }
            return false;
        }
        i += 1;
    }
    proof {
        assert(s@.subrange(n - m, n as int) =~= suffix@);
    }
    true
}

/// Whether this path names an image file.
pub fn has_image_extension(path: &String) -> (r: bool)
    ensures
        r == is_image_path(path@),
{
    let s = path.as_str();
    str_has_extension(s, ".gif") || str_has_extension(s, ".jpg") || str_has_extension(s, ".jpeg")
        || str_has_extension(s, ".png") || str_has_extension(s, ".bmp")
}

/// The paths of `paths` that name image files, in their original order.
pub fn filter_image_paths(paths: &Vec<String>) -> (r: Vec<String>)
    ensures
        r@ == keep_image_paths(paths@),
{
    let mut r: Vec<String> = Vec::new();
    let mut i: usize = 0;
    while i < paths.len()
        invariant
            i <= paths@.len(),
            r@ == keep_image_paths(paths@.subrange(0, i as int)),
        decreases paths@.len() - i,
    {
        proof {
            let pre = paths@.subrange(0, i as int);
            let post = paths@.subrange(0, i + 1);
            assert(post.drop_last() =~= pre);
            assert(post.last() == paths@[i as int]);
        }
        if has_image_extension(&paths[i]) {
            r.push(paths[i].clone());
        }
        i += 1;
    }
    proof {
        assert(paths@.subrange(0, paths@.len() as int) =~= paths@);
    }
    r
}

/// Relies on `rand::seq::SliceRandom::shuffle`, a Fisher–Yates shuffle: it
/// permutes the elements in place using the thread-local random source, so
/// every outcome holds the same paths with the same multiplicities, in an
/// order about which nothing is promised.
#[verifier::external_body]
pub(crate) fn shuffle_paths(v: &mut Vec<String>)
    ensures
        final(v)@.to_multiset() == old(v)@.to_multiset(),
        final(v)@.len() == old(v)@.len(),
{
    v.shuffle(&mut rand::thread_rng());
}

} // verus!
