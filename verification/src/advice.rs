//! The advice map: the side key-value channel through which the kernel
//! program returns data too large for the output stack.
//!
//! The map itself belongs to the VM (`miden_objects`); this crate only looks
//! values up under a digest key. Its contents are modelled by the
//! uninterpreted view `advice_view`, a map from the four key elements to the
//! stored element sequence, both in canonical form.

use vstd::prelude::*;
use crate::felt::{felt_valid, Word};
use miden_objects::StarkField;

verus! {

#[verifier::external_type_specification]
#[verifier::external_body]
pub struct ExAdviceMap(miden_objects::vm::AdviceMap);

/// What an advice map holds: each digest key, as its four canonical
/// elements, mapped to the canonical element sequence stored under it.
pub uninterp spec fn advice_view(map: miden_objects::vm::AdviceMap) -> Map<Seq<u64>, Seq<u64>>;

/// Relies on miden_objects' AdviceMap::get: it returns the value stored
/// under the given digest key, or nothing when the key is absent. The stored
/// values are field elements, so every returned value is canonical.
#[verifier::external_body]
pub(crate) fn advice_map_get(map: &miden_objects::vm::AdviceMap, key: &Word) -> (r: Option<
    Vec<u64>,
>)
    requires
        key.wf(),
    ensures
        (r is Some) == advice_view(*map).dom().contains(key@),
        r matches Some(v) ==> v@ == advice_view(*map)[key@] && (forall|i: int|
            0 <= i < v@.len() ==> felt_valid(#[trigger] v@[i])),
{
    let digest = miden_objects::Digest::new(
        [
            miden_objects::Felt::new(key.e0),
            miden_objects::Felt::new(key.e1),
            miden_objects::Felt::new(key.e2),
            miden_objects::Felt::new(key.e3),
        ],
    );
    map.get(&digest).map(|felts| felts.iter().map(|f| f.as_int()).collect())
}

} // verus!
