//! Searching the positions below a bound for the first one where a
//! predicate holds, and the facts its proofs use.
use vstd::prelude::*;

verus! {

/// The least index below `len` at which `p` holds.
pub open spec fn first_index(len: nat, p: spec_fn(int) -> bool) -> Option<int>
    decreases len,
{
    if len == 0 {
        None
    } else {
        match first_index((len - 1) as nat, p) {
            Some(i) => Some(i),
            None => if p(len - 1) {
                Some(len - 1)
            } else {
                None
            },
        }
    }
}

pub proof fn lemma_first_index_none(len: nat, p: spec_fn(int) -> bool)
    requires
        forall|j: int| 0 <= j < len ==> !#[trigger] p(j),
    ensures
        first_index(len, p) is None,
    decreases len,
{
    if len > 0 {
        lemma_first_index_none((len - 1) as nat, p);
    }
}

pub proof fn lemma_first_index_some(len: nat, p: spec_fn(int) -> bool, i: int)
    requires
        0 <= i < len,
        p(i),
        forall|j: int| 0 <= j < i ==> !#[trigger] p(j),
    ensures
        first_index(len, p) == Some(i),
    decreases len,
{
    if len - 1 > i {
        lemma_first_index_some((len - 1) as nat, p, i);
    } else {
        lemma_first_index_none(i as nat, p);
    }
}

pub proof fn lemma_first_index_props(len: nat, p: spec_fn(int) -> bool)
    ensures
        match first_index(len, p) {
            Some(i) => 0 <= i < len && p(i),
            None => true,
        },
    decreases len,
{
    if len > 0 {
        lemma_first_index_props((len - 1) as nat, p);
    }
}

pub proof fn lemma_first_index_agree(len: nat, p1: spec_fn(int) -> bool, p2: spec_fn(int) -> bool)
    requires
        forall|j: int| 0 <= j < len ==> #[trigger] p1(j) == p2(j),
    ensures
        first_index(len, p1) == first_index(len, p2),
    decreases len,
{
    if len > 0 {
        lemma_first_index_agree((len - 1) as nat, p1, p2);
    }
}

/// If `p` holds somewhere below `len`, the first index is found.
pub proof fn lemma_first_index_some_exists(len: nat, p: spec_fn(int) -> bool, j: int)
    requires
        0 <= j < len,
        p(j),
    ensures
        first_index(len, p) is Some,
    decreases len,
{
    if j < len - 1 {
        lemma_first_index_some_exists((len - 1) as nat, p, j);
    }
}

} // verus!
