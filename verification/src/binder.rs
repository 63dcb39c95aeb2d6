//! Characteristic binder: selecting the writable characteristic by UUID.
//!
//! After connection and service discovery the transport hands the library
//! the hyphenated UUID strings of every characteristic the device exposes.
//! The binder scans them linearly and binds the first one equal to the
//! target UUID; absence of a match is a fatal identity mismatch.

use crate::LightError;
use vstd::prelude::*;

verus! {

/// Whether the target UUID occurs anywhere in the discovered set.
pub open spec fn uuid_present(uuids: Seq<String>, target: Seq<char>) -> bool {
    exists|i: int| 0 <= i < uuids.len() && #[trigger] uuids[i]@ == target
}

/// Everything the binder promises of its result: a bound index is the first
/// position holding the target UUID; failure is `CharacteristicNotFound`,
/// and happens exactly when the target is absent.
pub open spec fn bind_post(uuids: Seq<String>, target: Seq<char>, r: Result<
    usize,
    LightError,
>) -> bool {
    match r {
        Ok(i) => 0 <= i < uuids.len() && uuids[i as int]@ == target && (forall|j: int|
            0 <= j < i ==> #[trigger] uuids[j]@ != target),
        Err(e) => e == LightError::CharacteristicNotFound && !uuid_present(uuids, target),
    }
}

/// Bind the target characteristic: the index of the first discovered UUID
/// equal to `target`, or `CharacteristicNotFound` when no UUID matches.
pub fn bind_characteristic(uuids: &Vec<String>, target: &String) -> (r: Result<usize, LightError>)
    ensures
        bind_post(uuids@, target@, r),
{
    let mut i: usize = 0;
    while i < uuids.len()
        invariant
            i <= uuids@.len(),
            forall|j: int| 0 <= j < i ==> #[trigger] uuids@[j]@ != target@,
        decreases uuids@.len() - i,
    {
        if uuids[i].eq(target) {
            return Ok(i);
        }
        i += 1;
    }
    Err(LightError::CharacteristicNotFound)
}

/// Binding is stable: on equal inputs, any two results that satisfy the
/// binder's contract are the same, so repeated calls bind the same
/// characteristic.
pub proof fn lemma_bind_deterministic(
    uuids: Seq<String>,
    target: Seq<char>,
    r1: Result<usize, LightError>,
    r2: Result<usize, LightError>,
)
    requires
        bind_post(uuids, target, r1),
        bind_post(uuids, target, r2),
    ensures
        r1 == r2,
{
    match (r1, r2) {
        (Ok(i1), Ok(i2)) => {
            if i1 < i2 {
                assert(uuids[i1 as int]@ != target);
            } else if i2 < i1 {
                assert(uuids[i2 as int]@ != target);
            }
        },
        (Ok(i1), Err(_)) => {
            assert(uuid_present(uuids, target));
        },
        (Err(_), Ok(i2)) => {
            assert(uuid_present(uuids, target));
        },
        (Err(_), Err(_)) => {},
    }
}

} // verus!
