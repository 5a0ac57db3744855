//! Finding the first entry of a list by its key.

use vstd::prelude::*;

verus! {

/// The position of the first entry of `keys` that equals `key`, or the
/// length of `keys` where none does.
pub open spec fn first_match(keys: Seq<int>, key: int) -> int
    decreases keys.len(),
{
    if keys.len() == 0 {
        0
    } else if keys[0] == key {
        0
    } else {
        1 + first_match(keys.skip(1), key)
    }
}

/// `first_match` is the position before which nothing matches and at which,
/// unless it is the end, the key stands.
pub proof fn lemma_first_match(keys: Seq<int>, key: int)
    ensures
        0 <= first_match(keys, key) <= keys.len(),
        forall|j: int| 0 <= j < first_match(keys, key) ==> keys[j] != key,
        first_match(keys, key) < keys.len() ==> keys[first_match(keys, key)] == key,
    decreases keys.len(),
{
    if keys.len() > 0 && keys[0] != key {
        let rest = keys.skip(1);
        lemma_first_match(rest, key);
        assert forall|j: int| 0 <= j < first_match(keys, key) implies keys[j] != key by {
            if j > 0 {
                assert(rest[j - 1] == keys[j]);
            }
        }
    }
}

/// A position before which nothing matches and at which, unless it is the
/// end, the key stands is `first_match`.
pub proof fn lemma_first_match_is(keys: Seq<int>, key: int, at: int)
    requires
        0 <= at <= keys.len(),
        forall|j: int| 0 <= j < at ==> keys[j] != key,
        at < keys.len() ==> keys[at] == key,
    ensures
        first_match(keys, key) == at,
{
    lemma_first_match(keys, key);
}

} // verus!
