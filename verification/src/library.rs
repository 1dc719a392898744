//! Interface-registry name matching: the host's interface registries list
//! entries under names that carry a three-digit version suffix, and a
//! lookup target may name the version exactly or leave it off.

use vstd::prelude::*;

verus! {

/// An ASCII decimal digit.
pub open spec fn is_digit(c: char) -> bool {
    '0' <= c && c <= '9'
}

/// Whether a lookup target asks for an exact match: its last three
/// characters (all of them, if it is shorter) are version digits.
pub open spec fn is_exact_spec(s: Seq<char>) -> bool {
    forall|i: int| 0 <= i < s.len() && i >= s.len() - 3 ==> is_digit(#[trigger] s[i])
}

/// Whether this lookup target names its version digits itself.
pub fn is_exact(target: &str) -> (r: bool)
    ensures
        r == is_exact_spec(target@),
{
    let len = target.unicode_len();
    let from: usize = if len > 3 {
        len - 3
    } else {
        0
    };
    let mut i = from;
    while i < len
        invariant
            from <= i <= len,
            len == target@.len(),
            len > 3 ==> from == len - 3,
            len <= 3 ==> from == 0,
            forall|j: int| from <= j < i ==> is_digit(#[trigger] target@[j]),
        decreases len - i,
    {
        let c = target.get_char(i);
        if !(c >= '0' && c <= '9') {
            proof {
                assert(!is_digit(target@[i as int]));
            }
            return false;
        }
        i = i + 1;
    }
    true
}

/// Whether a registry entry's name satisfies a lookup target: an exact
/// target must equal the whole name, any other target must equal the name
/// with its three version digits removed.
pub open spec fn name_matches_spec(name: Seq<char>, target: Seq<char>) -> bool {
    if is_exact_spec(target) {
        name == target
    } else {
        name.subrange(
            0,
            if name.len() >= 3 {
                name.len() - 3
            } else {
                0
            },
        ) == target
    }
}

/// Whether the first `upto` characters of `name` are exactly `target`.
fn prefix_eq(name: &str, upto: usize, target: &str) -> (r: bool)
    requires
        upto <= name@.len(),
    ensures
        r == (name@.subrange(0, upto as int) == target@),
{
    let tlen = target.unicode_len();
    if tlen != upto {
        proof {
            assert(name@.subrange(0, upto as int).len() == upto);
        }
        return false;
    }
    let mut i: usize = 0;
    while i < upto
        invariant
            i <= upto,
            upto <= name@.len(),
            tlen == target@.len(),
            tlen == upto,
            forall|j: int| 0 <= j < i ==> name@[j] == target@[j],
        decreases upto - i,
    {
        let a = name.get_char(i);
        let b = target.get_char(i);
        if a != b {
            proof {
                assert(name@.subrange(0, upto as int)[i as int] != target@[i as int]);
            }
            return false;
        }
        i = i + 1;
    }
    proof {
        assert(name@.subrange(0, upto as int) =~= target@);
    }
    true
}

/// Whether this registry entry's name satisfies the lookup target.
pub fn name_matches(name: &str, target: &str) -> (r: bool)
    ensures
        r == name_matches_spec(name@, target@),
{
    let nlen = name.unicode_len();
    if is_exact(target) {
        let r = prefix_eq(name, nlen, target);
        proof {
            assert(name@.subrange(0, nlen as int) =~= name@);
        }
        r
    } else {
        let upto: usize = if nlen >= 3 {
            nlen - 3
        } else {
            0
        };
        prefix_eq(name, upto, target)
    }
}

/// The index of the first registry entry whose name satisfies the lookup
/// target, if any does.
pub fn find_interface(names: &Vec<String>, target: &str) -> (r: Option<usize>)
    ensures
        match r {
            Some(i) => i < names@.len() && name_matches_spec(names@[i as int]@, target@)
                && forall|j: int|
                0 <= j < i ==> !name_matches_spec(#[trigger] names@[j]@, target@),
            None => forall|j: int|
                0 <= j < names@.len() ==> !name_matches_spec(#[trigger] names@[j]@, target@),
        },
{
    let mut i: usize = 0;
    while i < names.len()
        invariant
            i <= names@.len(),
            forall|j: int| 0 <= j < i ==> !name_matches_spec(#[trigger] names@[j]@, target@),
        decreases names@.len() - i,
    {
        if name_matches(names[i].as_str(), target) {
            return Some(i);
        }
        i = i + 1;
    }
    None
}

} // verus!
