//! The store's general laws, stated over the mathematical model that the
//! operations' contracts use and proved once for all inputs.

use vstd::prelude::*;
use crate::messenger::MAX_MESSAGE_SIZE_BYTES;
use crate::messenger::StoreError;
use crate::messenger::spec_add;
use crate::messenger::spec_get;
use crate::messenger::spec_get_multiple;

verus! {

/// A message within the size bound is accepted, lands at index `s.len()` (the
/// store's length before the append), and a `get` of that index on the grown
/// store returns it unchanged.
pub proof fn lemma_add_then_get(s: Seq<Seq<u8>>, m: Seq<u8>)
    requires
        m.len() <= MAX_MESSAGE_SIZE_BYTES,
    ensures
        spec_add(s, m) matches Ok(grown) && spec_get(grown, s.len() as int) == Ok::<
            Seq<u8>,
            StoreError,
        >(m),
{
}

/// A message over the size bound is rejected with `MessageTooLarge`; `add`'s
/// contract then leaves the store, in particular its length, unchanged.
pub proof fn lemma_oversize_add_rejected(s: Seq<Seq<u8>>, m: Seq<u8>)
    requires
        m.len() > MAX_MESSAGE_SIZE_BYTES,
    ensures
        spec_add(s, m) == Err::<Seq<Seq<u8>>, StoreError>(StoreError::MessageTooLarge),
{
}

/// Reads are idempotent. `get` and `get_multiple` take the store by shared
/// reference, so they cannot change it; and each result is pinned to the
/// model on the store's contents and the arguments alone, so any two results
/// of repeated calls with the same arguments are equal.
pub proof fn lemma_repeated_reads_agree(
    s: Seq<Seq<u8>>,
    index: int,
    start_index: int,
    count: int,
    r1: Result<Seq<u8>, StoreError>,
    r2: Result<Seq<u8>, StoreError>,
    v1: Result<Seq<Seq<u8>>, StoreError>,
    v2: Result<Seq<Seq<u8>>, StoreError>,
)
    requires
        r1 == spec_get(s, index),
        r2 == spec_get(s, index),
        v1 == spec_get_multiple(s, start_index, count),
        v2 == spec_get_multiple(s, start_index, count),
    ensures
        r1 == r2,
        v1 == v2,
{
}

/// For an in-bounds `start_index`, `get_multiple` succeeds with exactly
/// `min(count, s.len() - start_index)` messages, and its `j`-th message is
/// what `get(start_index + j)` returns.
pub proof fn lemma_get_multiple_matches_get(s: Seq<Seq<u8>>, start_index: int, count: int)
    requires
        0 <= start_index < s.len(),
        0 <= count,
    ensures
        spec_get_multiple(s, start_index, count) matches Ok(range) && range.len()
            == vstd::math::min(count, s.len() - start_index) && forall|j: int|
            0 <= j < range.len() ==> Ok::<Seq<u8>, StoreError>(#[trigger] range[j]) == spec_get(
                s,
                start_index + j,
            ),
{
}

/// On the empty store every read fails: `get` of index 0 with
/// `IndexOutOfBounds`, and `get_multiple` from index 0 with
/// `StartIndexOutOfBounds`, whatever count is requested.
pub proof fn lemma_empty_store_reads_fail(count: int)
    ensures
        spec_get(Seq::<Seq<u8>>::empty(), 0) == Err::<Seq<u8>, StoreError>(
            StoreError::IndexOutOfBounds,
        ),
        spec_get_multiple(Seq::<Seq<u8>>::empty(), 0, count) == Err::<Seq<Seq<u8>>, StoreError>(
            StoreError::StartIndexOutOfBounds,
        ),
{
}

} // verus!
