use vstd::prelude::*;

use crate::options::PlanError;

verus! {

/// A character allowed in a variable name.
pub open spec fn is_name_char(c: char) -> bool {
    ('a' <= c && c <= 'z') || ('A' <= c && c <= 'Z') || ('0' <= c && c <= '9') || c == '_' || c
        == '-'
}

/// An entry is `NAME=VALUE`: a non-empty name of letters, digits, `_` and
/// `-`, then `=` and any value, possibly empty.
pub open spec fn env_entry_ok(s: Seq<char>) -> bool {
    exists|k: int| name_ends_at(s, k)
}

/// The first `k` characters of `s` form a name that `=` follows.
pub open spec fn name_ends_at(s: Seq<char>, k: int) -> bool {
    0 < k < s.len() && s[k] == '=' && forall|i: int|
        0 <= i < k ==> #[trigger] is_name_char(s[i])
}

/// Whether one environment entry is well formed.
pub fn check_env_entry(s: &str) -> (r: bool)
    ensures
        r == env_entry_ok(s@),
{
    let n = s.unicode_len();
    let mut i: usize = 0;
    while i < n
        invariant
            n == s@.len(),
            i <= n,
            forall|j: int| 0 <= j < i ==> is_name_char(s@[j]),
        decreases n - i,
    {
        let c = s.get_char(i);
        if c == '=' {
            proof {
                if i > 0 {
                    assert(name_ends_at(s@, i as int));
                } else {
                    assert forall|k: int|
                        true implies !name_ends_at(s@, k) by {
                        assert(!is_name_char(s@[0]));
                    }
                }
            }
            return i > 0;
        }
        if !(('a' <= c && c <= 'z') || ('A' <= c && c <= 'Z') || ('0' <= c && c <= '9') || c == '_'
            || c == '-') {
            proof {
                assert forall|k: int|
                    true implies !name_ends_at(s@, k) by {
                    if k > i {
                        assert(!is_name_char(s@[i as int]));
                    } else if 0 < k && k < i {
                        assert(is_name_char(s@[k]));
                    }
                }
            }
            return false;
        }
        i = i + 1;
    }
    proof {
        assert forall|k: int| true implies !name_ends_at(s@, k) by {
            if 0 < k < n {
                assert(is_name_char(s@[k]));
            }
        }
    }
    false
}

/// Checks every environment entry before use: the first malformed one is
/// returned in the error, and none is dropped silently.
pub fn validate_env(entries: &Vec<String>) -> (r: Result<(), PlanError>)
    ensures
        r is Ok <==> forall|i: int| 0 <= i < entries@.len() ==> env_entry_ok(#[trigger] entries@[i]@),
        r matches Err(PlanError::InvalidEnvironment(m)) ==> exists|i: int|
            0 <= i < entries@.len() && !env_entry_ok(entries@[i]@) && m@ == entries@[i]@ && (forall|j: int|
                0 <= j < i ==> env_entry_ok(#[trigger] entries@[j]@)),
        r is Err ==> r matches Err(PlanError::InvalidEnvironment(_)),
{
    let mut i: usize = 0;
    while i < entries.len()
        invariant
            i <= entries@.len(),
            forall|j: int| 0 <= j < i ==> env_entry_ok(#[trigger] entries@[j]@),
        decreases entries@.len() - i,
    {
        if !check_env_entry(entries[i].as_str()) {
            return Err(PlanError::InvalidEnvironment(entries[i].clone()));
        }
        i = i + 1;
    }
    Ok(())
}

} // verus!
