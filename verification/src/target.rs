//! The watch target: a path decomposed into the directory to subscribe to and
//! the file name to filter events by.
//!
//! The decomposition follows Unix path syntax on raw bytes: trailing
//! separators are ignored, the final component is the file name, and the rest
//! — with its own trailing separators removed — is the parent directory. A
//! final component of `.` or `..` names no file, so it yields no file name; a
//! path with nothing left once trailing separators are gone (empty, or the
//! root alone) has no final component at all and yields no target. The parent
//! of a single-component relative path is the empty path, and the parent of
//! an entry directly under the root is the root itself.
use vstd::prelude::*;

verus! {

/// The byte value of the path separator `/`.
pub const SEPARATOR: u8 = 47;

/// A path with its trailing separator bytes removed.
pub open spec fn strip_trailing_separators(s: Seq<u8>) -> Seq<u8>
    decreases s.len(),
{
    if s.len() > 0 && s[s.len() - 1] == SEPARATOR {
        strip_trailing_separators(s.drop_last())
    } else {
        s
    }
}

/// The index of the last separator byte of a path, or -1 if it has none.
pub open spec fn last_separator_index(s: Seq<u8>) -> int
    decreases s.len(),
{
    if s.len() == 0 {
        -1
    } else if s[s.len() - 1] == SEPARATOR {
        s.len() - 1
    } else {
        last_separator_index(s.drop_last())
    }
}

/// The file-name component of a path: the final component once trailing
/// separators are ignored; none when nothing remains, and none when the final
/// component is `.` or `..`, which name no directory entry of their own.
pub open spec fn spec_file_name(path: Seq<u8>) -> Option<Seq<u8>> {
    let t = strip_trailing_separators(path);
    if t.len() == 0 {
        Option::None
    } else {
        let comp = t.subrange(last_separator_index(t) + 1, t.len() as int);
        if comp == seq![46u8] || comp == seq![46u8, 46u8] {
            Option::None
        } else {
            Option::Some(comp)
        }
    }
}

/// The parent of a path: everything before the final component, with its own
/// trailing separators removed; the empty path when the final component is
/// all there is, and the root when only the root precedes it.
pub open spec fn spec_parent(path: Seq<u8>) -> Seq<u8> {
    let t = strip_trailing_separators(path);
    let lsi = last_separator_index(t);
    if lsi < 0 {
        Seq::<u8>::empty()
    } else {
        let p = strip_trailing_separators(t.subrange(0, lsi + 1));
        if p.len() == 0 {
            seq![SEPARATOR]
        } else {
            p
        }
    }
}

/// Stripping trailing separators keeps exactly the prefix that ends at the
/// last non-separator byte.
proof fn lemma_strip_prefix(s: Seq<u8>, e: int)
    requires
        0 <= e <= s.len(),
        forall|j: int| e <= j < s.len() ==> s[j] == SEPARATOR,
        e > 0 ==> s[e - 1] != SEPARATOR,
    ensures
        strip_trailing_separators(s) == s.subrange(0, e),
    decreases s.len(),
{
    if e == s.len() {
        assert(strip_trailing_separators(s) =~= s.subrange(0, e));
    } else {
        assert(s[s.len() - 1] == SEPARATOR);
        lemma_strip_prefix(s.drop_last(), e);
        assert(s.drop_last().subrange(0, e) =~= s.subrange(0, e));
    }
}

/// A position `k` such that every byte from `k` on is no separator and the
/// byte before `k`, if any, is one, pins the last separator index at `k - 1`.
proof fn lemma_last_separator(s: Seq<u8>, k: int)
    requires
        0 <= k <= s.len(),
        forall|j: int| k <= j < s.len() ==> s[j] != SEPARATOR,
        k > 0 ==> s[k - 1] == SEPARATOR,
    ensures
        last_separator_index(s) == k - 1,
    decreases s.len(),
{
    if k < s.len() {
        lemma_last_separator(s.drop_last(), k);
    }
}

/// A copy of the bytes of `v` from `a` up to `b`.
fn sub_vec(v: &Vec<u8>, a: usize, b: usize) -> (r: Vec<u8>)
    requires
        a <= b <= v@.len(),
    ensures
        r@ == v@.subrange(a as int, b as int),
{
    let mut r: Vec<u8> = Vec::new();
    let mut i: usize = a;
    while i < b
        invariant
            a <= i <= b <= v@.len(),
            r@ == v@.subrange(a as int, i as int),
        decreases b - i,
    {
        r.push(v[i]);
        i += 1;
        proof {
            assert(r@ =~= v@.subrange(a as int, i as int));
        }
    }
    r
}

/// A watch target: the directory whose change events are subscribed to, and
/// the file name events are filtered against.
pub struct WatchTarget {
    /// The parent directory of the watched path; the subscription target.
    pub parent: Vec<u8>,
    /// The file-name component of the watched path; the event filter. `None`
    /// when the path has no usable final component: no event name then
    /// matches an entry, though an event that itself carries no name does.
    pub file_name: Option<Vec<u8>>,
}

impl WatchTarget {
    /// Decomposes a path into parent directory and file-name component.
    /// Returns `None` exactly when nothing remains of the path once trailing
    /// separators are gone — the empty path or the root — for which no parent
    /// exists and no watch can be set up.
    pub fn from_path(path: &Vec<u8>) -> (t: Option<WatchTarget>)
        ensures
            (t is Some) == (strip_trailing_separators(path@).len() > 0),
            t is Some ==> t->Some_0.parent@ == spec_parent(path@),
            t is Some ==> t->Some_0.file_name.deep_view() == spec_file_name(path@),
    {
        let ghost whole = path@;
        let mut e: usize = path.len();
        while e > 0 && path[e - 1] == SEPARATOR
            invariant
                0 <= e <= whole.len(),
                whole == path@,
                forall|j: int| e <= j < whole.len() ==> whole[j] == SEPARATOR,
            decreases e,
        {
            e -= 1;
        }
        proof {
            lemma_strip_prefix(whole, e as int);
        }
        let ghost t = strip_trailing_separators(whole);
        if e == 0 {
            return Option::None;
        }
        let mut k: usize = e;
        while k > 0 && path[k - 1] != SEPARATOR
            invariant
                0 <= k <= e <= whole.len(),
                whole == path@,
                forall|j: int| k <= j < e ==> whole[j] != SEPARATOR,
            decreases k,
        {
            k -= 1;
        }
        proof {
            assert forall|j: int| k <= j < t.len() implies t[j] != SEPARATOR by {
                assert(t[j] == whole[j]);
            }
            if k > 0 {
                assert(t[k - 1] == whole[k - 1]);
            }
            lemma_last_separator(t, k as int);
        }
        let comp = sub_vec(path, k, e);
        proof {
            assert(comp@ =~= t.subrange(last_separator_index(t) + 1, t.len() as int));
        }
        let is_dot = comp.len() == 1 && comp[0] == 46;
        let is_dot_dot = comp.len() == 2 && comp[0] == 46 && comp[1] == 46;
        let file_name: Option<Vec<u8>> = if is_dot || is_dot_dot {
            proof {
                if is_dot {
                    assert(comp@ =~= seq![46u8]);
                } else {
                    assert(comp@ =~= seq![46u8, 46u8]);
                }
            }
            Option::None
        } else {
            proof {
                assert(!(comp@ =~= seq![46u8]));
                assert(!(comp@ =~= seq![46u8, 46u8]));
                assert(comp.deep_view() =~= comp@);
            }
            Option::Some(comp)
        };
        let parent: Vec<u8> = if k == 0 {
            proof {
                assert(Seq::<u8>::empty() =~= whole.subrange(0, 0));
            }
            Vec::new()
        } else {
            let mut pe: usize = k;
            while pe > 0 && path[pe - 1] == SEPARATOR
                invariant
                    0 <= pe <= k <= whole.len(),
                    whole == path@,
                    forall|j: int| pe <= j < k ==> whole[j] == SEPARATOR,
                decreases pe,
            {
                pe -= 1;
            }
            proof {
                let prefix = t.subrange(0, k as int);
                assert forall|j: int| pe <= j < prefix.len() implies prefix[j] == SEPARATOR by {
                    assert(prefix[j] == whole[j]);
                }
                if pe > 0 {
                    assert(prefix[pe - 1] == whole[pe - 1]);
                }
                lemma_strip_prefix(prefix, pe as int);
            }
            if pe == 0 {
                let mut root: Vec<u8> = Vec::new();
                root.push(SEPARATOR);
                proof {
                    assert(root@ =~= seq![SEPARATOR]);
                }
                root
            } else {
                let p = sub_vec(path, 0, pe);
                proof {
                    assert(p@ =~= t.subrange(0, k as int).subrange(0, pe as int));
                }
                p
            }
        };
        proof {
            assert(Seq::<u8>::empty().len() == 0);
        }
        Option::Some(WatchTarget { parent, file_name })
    }
}

} // verus!
