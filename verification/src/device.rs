//! Device selection: pick the first enumerated input device whose name
//! contains a query string, case-insensitively.

use vstd::prelude::*;
use vstd::string::StringExecFns;
use crate::errors::RecError;
use crate::text::{contains_substring, is_substring};

verus! {

/// The lowercase form of a character sequence, as `str::to_lowercase`
/// computes it. Left uninterpreted: it depends on the characters alone.
pub uninterp spec fn lower_of(s: Seq<char>) -> Seq<char>;

/// Relies on `str::to_lowercase`: the result is a function of the
/// characters of `s` alone.
#[verifier::external_body]
fn to_lower(s: &str) -> (r: String)
    ensures
        r@ == lower_of(s@),
{
    s.to_lowercase()
}

/// The selection criterion: the device name, lowercased, contains the
/// lowercased query as a substring.
pub open spec fn name_matches(name: Seq<char>, query: Seq<char>) -> bool {
    is_substring(lower_of(name), lower_of(query))
}

/// Returns the index of the first name in enumeration order that matches
/// `query` case-insensitively; `NoMatchingDevice` if none does.
pub fn find_first_match(names: &Vec<String>, query: &str) -> (r: Result<usize, RecError>)
    ensures
        match r {
            Ok(i) => {
                &&& i < names@.len()
                &&& name_matches(names@[i as int]@, query@)
                &&& forall|j: int| 0 <= j < i ==> !name_matches(names@[j]@, query@)
            },
            Err(e) => {
                &&& e == RecError::NoMatchingDevice
                &&& forall|j: int| 0 <= j < names@.len() ==> !name_matches(names@[j]@, query@)
            },
        },
{
    let q = to_lower(query);
    let n = names.len();
    let mut i: usize = 0;
    while i < n
        invariant
            0 <= i <= n,
            n == names@.len(),
            q@ == lower_of(query@),
            forall|j: int| 0 <= j < i ==> !name_matches(names@[j]@, query@),
        decreases n - i,
    {
        let lowered = to_lower(names[i].as_str());
        if contains_substring(lowered.as_str(), q.as_str()) {
            return Ok(i);
        }
        i += 1;
    }
    Err(RecError::NoMatchingDevice)
}

} // verus!
