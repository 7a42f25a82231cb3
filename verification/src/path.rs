//! Output-path disambiguation: never overwrite an existing file.
//!
//! The filesystem is modelled by the list of names that already exist;
//! the caller supplies it (for instance from a directory listing) and
//! performs the actual file creation.

use vstd::prelude::*;
use vstd::set_lib::{lemma_int_range, lemma_len_subset, set_int_range};
use vstd::string::{StrSliceExecFns, StringExecFns};
use crate::text::{dec_rep, lemma_dec_rep_injective, str_eq, u128_to_string};

verus! {

/// The position of the last `'.'` in `s`, not counting one at position 0
/// (a leading dot marks a hidden file, not an extension).
pub open spec fn rfind_dot_spec(s: Seq<char>) -> Option<int>
    decreases s.len(),
{
    if s.len() <= 1 {
        None
    } else if s[s.len() - 1] == '.' {
        Some(s.len() - 1)
    } else {
        rfind_dot_spec(s.drop_last())
    }
}

/// The stem of a path: everything before the extension dot, or the whole
/// path when there is none.
pub open spec fn stem_of(s: Seq<char>) -> Seq<char> {
    match rfind_dot_spec(s) {
        Some(i) => s.subrange(0, i),
        None => s,
    }
}

/// The extension of a path, without its dot; `"wav"` when there is none.
pub open spec fn ext_of(s: Seq<char>) -> Seq<char> {
    match rfind_dot_spec(s) {
        Some(i) => s.subrange(i + 1, s.len() as int),
        None => seq!['w', 'a', 'v'],
    }
}

pub proof fn lemma_rfind_dot_bounds(s: Seq<char>)
    ensures
        match rfind_dot_spec(s) {
            Some(i) => 1 <= i < s.len() && s[i] == '.',
            None => true,
        },
    decreases s.len(),
{
    if s.len() > 1 && s[s.len() - 1] != '.' {
        lemma_rfind_dot_bounds(s.drop_last());
    }
}

/// Finds the position `rfind_dot_spec` describes.
fn rfind_dot(s: &str) -> (r: Option<usize>)
    ensures
        rfind_dot_spec(s@) == match r {
            Some(u) => Some(u as int),
            None => None::<int>,
        },
    decreases s@.len(),
{
    let len = s.unicode_len();
    if len <= 1 {
        None
    } else if s.get_char(len - 1) == '.' {
        Some(len - 1)
    } else {
        let prefix = s.substring_char(0, len - 1);
        proof {
            assert(prefix@ =~= s@.drop_last());
        }
        rfind_dot(prefix)
    }
}

/// Splits a path into stem and extension, defaulting the extension
/// to `"wav"`.
pub fn split_stem_ext(path: &str) -> (r: (String, String))
    ensures
        r.0@ == stem_of(path@),
        r.1@ == ext_of(path@),
{
    proof {
        lemma_rfind_dot_bounds(path@);
    }
    let len = path.unicode_len();
    match rfind_dot(path) {
        Some(i) => {
            let stem = String::from_str(path.substring_char(0, i));
            let ext = String::from_str(path.substring_char(i + 1, len));
            (stem, ext)
        },
        None => {
            proof {
                reveal_strlit("wav");
            }
            let stem = String::from_str(path);
            let ext = String::from_str("wav");
            proof {
                assert(ext@ =~= seq!['w', 'a', 'v']);
            }
            (stem, ext)
        },
    }
}

/// The `k`-th collision-avoidance candidate: `stem_k.ext`.
pub open spec fn candidate_name(stem: Seq<char>, ext: Seq<char>, k: nat) -> Seq<char> {
    stem + seq!['_'] + dec_rep(k) + seq!['.'] + ext
}

/// Distinct counters give distinct candidate names.
pub proof fn lemma_candidate_injective(stem: Seq<char>, ext: Seq<char>, a: nat, b: nat)
    requires
        candidate_name(stem, ext, a) == candidate_name(stem, ext, b),
    ensures
        a == b,
{
    let ca = candidate_name(stem, ext, a);
    let cb = candidate_name(stem, ext, b);
    assert(ca.len() == stem.len() + 1 + dec_rep(a).len() + 1 + ext.len());
    assert(cb.len() == stem.len() + 1 + dec_rep(b).len() + 1 + ext.len());
    assert(dec_rep(a) =~= dec_rep(b)) by {
        assert(dec_rep(a).len() == dec_rep(b).len());
        assert forall|t: int| 0 <= t < dec_rep(a).len() implies dec_rep(a)[t] == dec_rep(b)[t] by {
            assert(ca[stem.len() + 1 + t] == dec_rep(a)[t]);
            assert(cb[stem.len() + 1 + t] == dec_rep(b)[t]);
        }
    }
    lemma_dec_rep_injective(a, b);
}

/// The views of a list of names.
pub open spec fn name_views(v: Seq<String>) -> Seq<Seq<char>> {
    v.map_values(|s: String| s@)
}

/// Whether `s` is one of the names in `list`.
pub fn list_contains(list: &Vec<String>, s: &str) -> (r: bool)
    ensures
        r == name_views(list@).contains(s@),
{
    let n = list.len();
    let mut i: usize = 0;
    while i < n
        invariant
            0 <= i <= n,
            n == list@.len(),
            forall|j: int| 0 <= j < i ==> name_views(list@)[j] != s@,
        decreases n - i,
    {
        if str_eq(list[i].as_str(), s) {
            proof {
                assert(name_views(list@)[i as int] == s@);
            }
            return true;
        }
        i += 1;
    }
    proof {
        assert(forall|j: int| 0 <= j < name_views(list@).len() ==> name_views(list@)[j] != s@);
    }
    false
}

/// Builds the `k`-th candidate name.
fn make_candidate(stem: &String, k: u128, ext: &String) -> (r: String)
    ensures
        r@ == candidate_name(stem@, ext@, k as nat),
{
    proof {
        reveal_strlit("_");
        reveal_strlit(".");
    }
    let mut s = stem.clone();
    s.append("_");
    let num = u128_to_string(k);
    s.append(num.as_str());
    s.append(".");
    s.append(ext.as_str());
    proof {
        assert("_"@ =~= seq!['_']);
        assert("."@ =~= seq!['.']);
        assert(s@ =~= candidate_name(stem@, ext@, k as nat));
    }
    s
}

/// What the disambiguated name must be: the path itself when it is not
/// taken, else the first untaken candidate `stem_k.ext`.
pub open spec fn is_fresh_name(path: Seq<char>, taken: Seq<Seq<char>>, r: Seq<char>) -> bool {
    if !taken.contains(path) {
        r == path
    } else {
        exists|k: nat|
            {
                &&& 1 <= k
                &&& r == candidate_name(stem_of(path), ext_of(path), k)
                &&& !taken.contains(r)
                &&& forall|m: nat|
                    1 <= m < k ==> taken.contains(
                        #[trigger] candidate_name(stem_of(path), ext_of(path), m),
                    )
            }
    }
}

/// Returns `filename` if no existing name equals it; otherwise the first
/// candidate `stem_k.ext` (`k` counting up from 1) that no existing name
/// equals. The result never collides with an existing name.
pub fn make_unique_filename(filename: &str, existing: &Vec<String>) -> (r: String)
    ensures
        is_fresh_name(filename@, name_views(existing@), r@),
        !name_views(existing@).contains(r@),
{
    if !list_contains(existing, filename) {
        return String::from_str(filename);
    }
    let (stem, ext) = split_stem_ext(filename);
    let n = existing.len();
    let ghost taken = name_views(existing@);
    let ghost mut used: Set<int> = Set::empty();
    let mut k: u128 = 1;
    loop
        invariant
            1 <= k <= n + 1,
            n == existing@.len(),
            taken == name_views(existing@),
            taken.contains(filename@),
            stem@ == stem_of(filename@),
            ext@ == ext_of(filename@),
            used.finite(),
            used.subset_of(set_int_range(0, n as int)),
            used.len() == k - 1,
            forall|p: int| #[trigger]
                used.contains(p) ==> exists|m: nat|
                    1 <= m < k && taken[p] == candidate_name(stem@, ext@, m),
            forall|m: nat|
                1 <= m < k ==> taken.contains(#[trigger] candidate_name(stem@, ext@, m)),
        decreases n + 1 - k,
    {
        let cand = make_candidate(&stem, k, &ext);
        if !list_contains(existing, cand.as_str()) {
            proof {
                let kk = k as nat;
                assert(cand@ == candidate_name(stem_of(filename@), ext_of(filename@), kk));
                assert(is_fresh_name(filename@, taken, cand@));
            }
            return cand;
        }
        proof {
            assert(taken.contains(cand@));
            let p = choose|p: int| 0 <= p < taken.len() && taken[p] == cand@;
            assert(!used.contains(p)) by {
                if used.contains(p) {
                    let m = choose|m: nat|
                        1 <= m < k && taken[p] == candidate_name(stem@, ext@, m);
                    lemma_candidate_injective(stem@, ext@, m, k as nat);
                    assert(false);
                }
            };
            used = used.insert(p);
            lemma_int_range(0, n as int);
            lemma_len_subset(used, set_int_range(0, n as int));
            assert(used.len() == k);
            assert(k <= n);
        }
        k = k + 1;
    }
}

} // verus!
