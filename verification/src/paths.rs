//! Path handling over plain text.
//!
//! Paths are treated as `/`-separated strings, not as filesystem objects: the
//! parent of a path is everything before its last `/`, and relativization is
//! a plain string-prefix trim.  The trim deliberately removes *every* leading
//! repetition of the root, mirroring the transform's use of prefix trimming
//! in place of true path relativization; on case- or separator-mismatched
//! paths it simply leaves the file path unchanged.

use vstd::prelude::*;
use vstd::string::StrSliceExecFns;
use vstd::string::StringExecFns;

verus! {

/// The view of an optional string.
pub open spec fn view_opt_string(o: Option<String>) -> Option<Seq<char>> {
    match o {
        Some(s) => Some(s@),
        None => None,
    }
}

/// The index of the last `/` in `s`, or `-1` when none occurs.
pub open spec fn last_slash_index(s: Seq<char>) -> int
    decreases s.len(),
{
    if s.len() == 0 {
        -1
    } else if s.last() == '/' {
        s.len() - 1
    } else {
        last_slash_index(s.drop_last())
    }
}

/// The parent directory of a path: everything before the last `/`; the root
/// `/` itself when the only `/` is leading; nothing when no `/` occurs or the
/// path is just `/`.
pub open spec fn spec_parent_dir(s: Seq<char>) -> Option<Seq<char>> {
    let i = last_slash_index(s);
    if i > 0 {
        Some(s.take(i))
    } else if i == 0 && s.len() > 1 {
        Some(seq!['/'])
    } else {
        None
    }
}

/// Computes the parent directory of `p` as `spec_parent_dir` states.
pub fn parent_dir(p: &String) -> (r: Option<String>)
    ensures
        view_opt_string(r) == spec_parent_dir(p@),
{
    let n: usize = p.as_str().unicode_len();
    let mut i: usize = n;
    proof {
        assert(p@.take(n as int) =~= p@);
    }
    while i > 0
        invariant
            i <= n,
            n == p@.len(),
            last_slash_index(p@) == last_slash_index(p@.take(i as int)),
        decreases i,
    {
        if p.as_str().get_char(i - 1) == '/' {
            proof {
                assert(p@.take(i as int).last() == p@[i - 1]);
                assert(last_slash_index(p@.take(i as int)) == i - 1);
            }
            if i == 1 {
                if n > 1 {
                    let root = String::from_str("/");
                    proof {
                        reveal_strlit("/");
                        assert(root@ =~= seq!['/']);
                    }
                    return Some(root);
                } else {
                    return None;
                }
            } else {
                let d = p.as_str().substring_char(0, i - 1);
                proof {
                    assert(d@ =~= p@.take(i - 1));
                }
                return Some(String::from_str(d));
            }
        }
        proof {
            assert(p@.take(i as int).drop_last() =~= p@.take(i - 1));
        }
        i = i - 1;
    }
    proof {
        assert(p@.take(0).len() == 0);
        assert(last_slash_index(p@) == -1);
    }
    None
}

/// `s` with every leading repetition of `p` removed; `s` unchanged when `p`
/// is empty or is no prefix of `s`.
pub open spec fn spec_trim_prefix(s: Seq<char>, p: Seq<char>) -> Seq<char>
    decreases s.len(),
{
    if p.len() > 0 && p.len() <= s.len() && s.take(p.len() as int) == p {
        spec_trim_prefix(s.skip(p.len() as int), p)
    } else {
        s
    }
}

/// Whether `root` occurs in `file` starting at character `start`.
fn prefix_at(file: &String, root: &String, start: usize) -> (b: bool)
    requires
        start <= file@.len(),
    ensures
        b == (root@.len() > 0 && start + root@.len() <= file@.len() && file@.skip(
            start as int,
        ).take(root@.len() as int) == root@),
{
    let n: usize = file.as_str().unicode_len();
    let m: usize = root.as_str().unicode_len();
    if m == 0 || m > n || start > n - m {
        return false;
    }
    let mut j: usize = 0;
    while j < m
        invariant
            j <= m,
            m <= n,
            start <= n - m,
            n == file@.len(),
            m == root@.len(),
            forall|t: int| 0 <= t < j ==> file@[start + t] == #[trigger] root@[t],
        decreases m - j,
    {
        if file.as_str().get_char(start + j) != root.as_str().get_char(j) {
            proof {
                assert(file@.skip(start as int).take(m as int)[j as int] != root@[j as int]);
            }
            return false;
        }
        j = j + 1;
    }
    proof {
        assert(file@.skip(start as int).take(m as int) =~= root@);
    }
    true
}

/// The character index of `file` left after trimming every leading
/// repetition of `root`.
fn trim_start_index(file: &String, root: &String) -> (start: usize)
    ensures
        start <= file@.len(),
        file@.skip(start as int) == spec_trim_prefix(file@, root@),
{
    let n: usize = file.as_str().unicode_len();
    let m: usize = root.as_str().unicode_len();
    let mut start: usize = 0;
    let mut again: bool = prefix_at(file, root, 0);
    proof {
        assert(file@.skip(0) =~= file@);
    }
    while again
        invariant
            start <= n,
            n == file@.len(),
            m == root@.len(),
            spec_trim_prefix(file@.skip(start as int), root@) == spec_trim_prefix(file@, root@),
            again == (m > 0 && start + m <= file@.len() && file@.skip(start as int).take(
                m as int,
            ) == root@),
        decreases file@.len() - start,
    {
        let ghost prev: int = start as int;
        start = start + m;
        proof {
            assert(file@.skip(prev).skip(m as int) =~= file@.skip(start as int));
        }
        again = prefix_at(file, root, start);
    }
    start
}

/// The relative-path fragment for a file under a resolved root: the literal
/// `root` when the file is the root itself, else the plain string-prefix
/// trim of the root from the file path.
pub open spec fn spec_fragment(root: Seq<char>, file: Seq<char>) -> Seq<char> {
    if file == root {
        seq!['r', 'o', 'o', 't']
    } else {
        spec_trim_prefix(file, root)
    }
}

/// Computes the relative-path fragment as `spec_fragment` states.
pub fn relative_fragment(root: &String, file: &String) -> (r: String)
    ensures
        r@ == spec_fragment(root@, file@),
{
    if file.eq(root) {
        let s = String::from_str("root");
        proof {
            reveal_strlit("root");
            assert(s@ =~= seq!['r', 'o', 'o', 't']);
        }
        s
    } else {
        let start = trim_start_index(file, root);
        let n: usize = file.as_str().unicode_len();
        let frag = file.as_str().substring_char(start, n);
        proof {
            assert(frag@ =~= file@.skip(start as int));
        }
        String::from_str(frag)
    }
}

/// A file located exactly at its resolved root yields the fragment `root`,
/// never the empty string.
pub proof fn lemma_fragment_at_root(p: Seq<char>)
    ensures
        spec_fragment(p, p) == seq!['r', 'o', 'o', 't'],
        spec_fragment(p, p).len() == 4,
{
}

} // verus!
