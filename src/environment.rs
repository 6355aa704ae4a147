//! The environment entries of an app, written `KEY=VALUE`.
use vstd::prelude::*;
use vstd::string::StrSliceExecFns;

verus! {

/// `i` is the position of the first `=` in `s`.
pub open spec fn first_equals(s: Seq<char>, i: int) -> bool {
    &&& 0 <= i < s.len()
    &&& s[i] == '='
    &&& forall|j: int| 0 <= j < i ==> s[j] != '='
}

/// Splits an environment entry at its first `=` into the variable's name and value.
/// An entry without `=` names no variable.
pub fn split_env_entry(entry: &str) -> (r: Option<(String, String)>)
    ensures
        match r {
            Some(kv) => exists|i: int|
                first_equals(entry@, i) && kv.0@ == entry@.take(i) && kv.1@ == entry@.skip(i + 1),
            None => forall|j: int| 0 <= j < entry@.len() ==> entry@[j] != '=',
        },
{
    let n = entry.unicode_len();
    let mut i: usize = 0;
    while i < n
        invariant
            n == entry@.len(),
            i <= n,
            forall|j: int| 0 <= j < i ==> entry@[j] != '=',
        decreases n - i,
    {
        if entry.get_char(i) == '=' {
            let key = entry.substring_char(0, i).to_string();
            let value = entry.substring_char(i + 1, n).to_string();
            assert(first_equals(entry@, i as int));
            assert(key@ =~= entry@.take(i as int));
            assert(value@ =~= entry@.skip(i + 1));
            return Some((key, value));
        }
        i = i + 1;
    }
    None
}

} // verus!
