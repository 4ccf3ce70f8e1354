use vstd::prelude::*;

verus! {

/// The number of positions two keys can be compared at.
pub open spec fn common_len(a: Seq<u8>, b: Seq<u8>) -> int {
    if a.len() <= b.len() { a.len() as int } else { b.len() as int }
}

/// The two keys agree at every compared position before `end`.
pub open spec fn agree_before(a: Seq<u8>, b: Seq<u8>, end: int) -> bool {
    forall|j: int| 0 <= j < end ==> #[trigger] a[j] == b[j]
}

/// `d` is where Bob's and Alice's sifted keys first differ, looking only at
/// the positions both keys have; `None` when they agree on all of those.
pub open spec fn is_first_divergence(bob: Seq<u8>, alice: Seq<u8>, d: Option<usize>) -> bool {
    match d {
        Some(i) => {
            &&& i < common_len(bob, alice)
            &&& bob[i as int] != alice[i as int]
            &&& agree_before(bob, alice, i as int)
        },
        None => agree_before(bob, alice, common_len(bob, alice)),
    }
}

/// The first index at which Bob's sifted key differs from Alice's, if any,
/// among the positions both keys have.
pub fn first_divergence(bob: &[u8], alice: &[u8]) -> (d: Option<usize>)
    ensures
        is_first_divergence(bob@, alice@, d),
{
    let n = if bob.len() <= alice.len() {
        bob.len()
    } else {
        alice.len()
    };
    let mut i: usize = 0;
    while i < n
        invariant
            n == common_len(bob@, alice@),
            i <= n,
            agree_before(bob@, alice@, i as int),
        decreases n - i,
    {
        if bob[i] != alice[i] {
            return Some(i);
        }
        i = i + 1;
    }
    None
}

/// At most one index is the first divergence of two keys.
pub proof fn first_divergence_unique(bob: Seq<u8>, alice: Seq<u8>, d1: Option<usize>, d2: Option<usize>)
    requires
        is_first_divergence(bob, alice, d1),
        is_first_divergence(bob, alice, d2),
    ensures
        d1 == d2,
{
    match (d1, d2) {
        (Some(i), Some(k)) => {
            if i < k {
                assert(bob[i as int] == alice[i as int]);
            } else if k < i {
                assert(bob[k as int] == alice[k as int]);
            }
        },
        (Some(i), None) => {
            assert(bob[i as int] == alice[i as int]);
        },
        (None, Some(k)) => {
            assert(bob[k as int] == alice[k as int]);
        },
        (None, None) => {},
    }
}

/// The first divergence does not depend on which key is named first.
pub proof fn first_divergence_symmetric(bob: Seq<u8>, alice: Seq<u8>, d: Option<usize>)
    requires
        is_first_divergence(bob, alice, d),
    ensures
        is_first_divergence(alice, bob, d),
{
}

/// Identical keys never diverge.
pub proof fn identical_keys_never_diverge(key: Seq<u8>, d: Option<usize>)
    requires
        is_first_divergence(key, key, d),
    ensures
        d is None,
{
}

} // verus!
