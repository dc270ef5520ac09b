//! The lookup key: the inbound path without the configured route prefix.

use vstd::prelude::*;
use vstd::string::*;

verus! {

/// `path` begins with `prefix`, character by character.
pub open spec fn starts_with(path: Seq<char>, prefix: Seq<char>) -> bool {
    prefix.len() <= path.len() && path.subrange(0, prefix.len() as int) == prefix
}

/// The key under which a path is looked up: what follows `prefix` where the
/// path begins with it, the whole path where it does not.
pub open spec fn route_key_of(prefix: Seq<char>, path: Seq<char>) -> Seq<char> {
    if starts_with(path, prefix) {
        path.subrange(prefix.len() as int, path.len() as int)
    } else {
        path
    }
}

/// Tells whether `path` begins with `prefix`.
pub fn path_starts_with(path: &str, prefix: &str) -> (hit: bool)
    ensures
        hit == starts_with(path@, prefix@),
{
    let n: usize = prefix.unicode_len();
    let m: usize = path.unicode_len();
    if n > m {
        return false;
    }
    let mut i: usize = 0;
    while i < n
        invariant
            n == prefix@.len(),
            m == path@.len(),
            n <= m,
            i <= n,
            forall|j: int| 0 <= j < i ==> path@[j] == prefix@[j],
        decreases n - i,
    {
        if path.get_char(i) != prefix.get_char(i) {
            assert(path@.subrange(0, n as int)[i as int] != prefix@[i as int]);
            return false;
        }
        i += 1;
    }
    assert(path@.subrange(0, n as int) =~= prefix@);
    true
}

/// Computes the lookup key of `path` under the route prefix `prefix`.
///
/// A path that does not begin with the prefix is its own key: that is no error.
pub fn route_key(prefix: &str, path: &str) -> (key: String)
    ensures
        key@ == route_key_of(prefix@, path@),
{
    if path_starts_with(path, prefix) {
        let from: usize = prefix.unicode_len();
        let to: usize = path.unicode_len();
        String::from_str(path.substring_char(from, to))
    } else {
        String::from_str(path)
    }
}

/// A path that begins with the prefix is the prefix followed by its key: the
/// prefix has been taken from the front exactly once, and nothing else changed.
pub proof fn lemma_key_drops_prefix_once(prefix: Seq<char>, path: Seq<char>)
    requires
        starts_with(path, prefix),
    ensures
        prefix + route_key_of(prefix, path) == path,
        route_key_of(prefix, path).len() == path.len() - prefix.len(),
        forall|i: int|
            0 <= i < route_key_of(prefix, path).len() ==> route_key_of(prefix, path)[i]
                == path[prefix.len() + i],
{
    assert(prefix + route_key_of(prefix, path) =~= path);
}

/// Appending a key to a prefix and routing the result gives the key back.
pub proof fn lemma_key_of_prefixed(prefix: Seq<char>, rest: Seq<char>)
    ensures
        starts_with(prefix + rest, prefix),
        route_key_of(prefix, prefix + rest) == rest,
{
    assert((prefix + rest).subrange(0, prefix.len() as int) =~= prefix);
    assert((prefix + rest).subrange(prefix.len() as int, (prefix + rest).len() as int) =~= rest);
}

/// A path that does not begin with the prefix is looked up unchanged.
pub proof fn lemma_key_without_prefix(prefix: Seq<char>, path: Seq<char>)
    requires
        !starts_with(path, prefix),
    ensures
        route_key_of(prefix, path) == path,
{
}

} // verus!
