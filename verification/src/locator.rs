//! Device locator: matching discovered peripherals by physical address.
//!
//! A physical address is handed in as the bytes of its hex string with no
//! delimiters (for example `d7313030344c`). Matching is exact up to ASCII
//! case: the discovered and the target address must agree hex digit for hex
//! digit once both are case-folded.

use crate::LightError;
use vstd::prelude::*;

verus! {

/// ASCII case folding of one byte: upper-case letters become lower-case,
/// every other byte is unchanged.
pub open spec fn fold_case(b: u8) -> u8 {
    if 0x41 <= b && b <= 0x5a {
        (b + 0x20) as u8
    } else {
        b
    }
}

/// ASCII case folding of a whole address.
pub open spec fn fold_case_seq(s: Seq<u8>) -> Seq<u8> {
    s.map_values(|b: u8| fold_case(b))
}

/// Whether two addresses denote the same device: equal after case folding.
pub open spec fn addr_matches(a: Seq<u8>, b: Seq<u8>) -> bool {
    fold_case_seq(a) == fold_case_seq(b)
}

/// ASCII case folding of one byte.
fn lower_ascii(b: u8) -> (r: u8)
    ensures
        r == fold_case(b),
{
    if b >= 0x41 && b <= 0x5a {
        b + 0x20
    } else {
        b
    }
}

/// Decide whether a discovered address matches the target address,
/// case-insensitively and otherwise exactly.
pub fn matches_address(found: &[u8], target: &[u8]) -> (r: bool)
    ensures
        r == addr_matches(found@, target@),
{
    if found.len() != target.len() {
        proof {
            assert(fold_case_seq(found@).len() != fold_case_seq(target@).len());
        }
        return false;
    }
    let mut i: usize = 0;
    while i < found.len()
        invariant
            found@.len() == target@.len(),
            i <= found@.len(),
            forall|k: int| 0 <= k < i ==> fold_case(found@[k]) == fold_case(target@[k]),
        decreases found@.len() - i,
    {
        if lower_ascii(found[i]) != lower_ascii(target[i]) {
            proof {
                assert(fold_case_seq(found@)[i as int] != fold_case_seq(target@)[i as int]);
            }
            return false;
        }
        i += 1;
    }
    proof {
        assert(fold_case_seq(found@) =~= fold_case_seq(target@));
    }
    true
}

/// Pick the target device out of a batch of discovered addresses: the index
/// of the first address that matches the target, or `DeviceNotFound` when
/// none does.
pub fn locate_device(addrs: &Vec<Vec<u8>>, target: &[u8]) -> (r: Result<usize, LightError>)
    ensures
        match r {
            Ok(i) => 0 <= i < addrs@.len() && addr_matches(addrs@[i as int]@, target@) && (forall|
                j: int,
            |
                0 <= j < i ==> !addr_matches(#[trigger] addrs@[j]@, target@)),
            Err(e) => e == LightError::DeviceNotFound && (forall|j: int|
                0 <= j < addrs@.len() ==> !addr_matches(#[trigger] addrs@[j]@, target@)),
        },
{
    let mut i: usize = 0;
    while i < addrs.len()
        invariant
            i <= addrs@.len(),
            forall|j: int| 0 <= j < i ==> !addr_matches(#[trigger] addrs@[j]@, target@),
        decreases addrs@.len() - i,
    {
        if matches_address(addrs[i].as_slice(), target) {
            return Ok(i);
        }
        i += 1;
    }
    Err(LightError::DeviceNotFound)
}

/// Matching is case-insensitive: case-folding either address beforehand
/// never changes whether the two match.
pub proof fn lemma_match_case_insensitive(a: Seq<u8>, b: Seq<u8>)
    ensures
        addr_matches(fold_case_seq(a), b) == addr_matches(a, b),
        addr_matches(a, fold_case_seq(b)) == addr_matches(a, b),
{
    assert(fold_case_seq(fold_case_seq(a)) =~= fold_case_seq(a));
    assert(fold_case_seq(fold_case_seq(b)) =~= fold_case_seq(b));
}

/// Matching is exact: addresses whose case-folded forms differ at any
/// position never match.
pub proof fn lemma_match_exact(a: Seq<u8>, b: Seq<u8>, i: int)
    requires
        0 <= i < a.len(),
        0 <= i < b.len(),
        fold_case(a[i]) != fold_case(b[i]),
    ensures
        !addr_matches(a, b),
{
    assert(fold_case_seq(a)[i] != fold_case_seq(b)[i]);
}

} // verus!
