//! Structural validation of a hook declaration.
//!
//! The checks run in a fixed order and the first failure wins: the
//! declaration must have at least one parameter, its first parameter's type
//! must be the unresolved placeholder, and no forwarded slot may be an
//! implicit receiver.

use vstd::prelude::*;
use crate::model::{DeclV, GenError, HookDeclaration, ParamSlot, ParamSlotV, TypeDesc, TypeDescV};

verus! {

/// The first index at or after `i` whose slot is an implicit receiver, or
/// `params.len()` if there is none.
pub open spec fn first_receiver(params: Seq<ParamSlotV>, i: int) -> int
    decreases params.len() - i,
{
    if i < 0 || i >= params.len() {
        params.len() as int
    } else if params[i] is Receiver {
        i
    } else {
        first_receiver(params, i + 1)
    }
}

/// `first_receiver` is monotone under skipping non-receiver slots.
proof fn lemma_first_receiver_skip(params: Seq<ParamSlotV>, k: int, i: int)
    requires
        0 <= k <= i <= params.len(),
        forall|j: int| k <= j < i ==> !(params[j] is Receiver),
    ensures
        first_receiver(params, k) == first_receiver(params, i),
    decreases i - k,
{
    if k < i {
        lemma_first_receiver_skip(params, k + 1, i);
    }
}

/// Whether the declaration's first slot is the unresolved placeholder.
pub open spec fn slot0_is_placeholder(d: DeclV) -> bool {
    d.params.len() > 0 && match d.params[0] {
        ParamSlotV::Typed { ty, .. } => ty is Placeholder,
        ParamSlotV::Receiver => false,
    }
}

/// A structurally valid declaration: at least one parameter, the first one
/// an unresolved placeholder, and no implicit receiver among the forwarded
/// slots.
pub open spec fn validated(d: DeclV) -> bool {
    &&& d.params.len() >= 1
    &&& slot0_is_placeholder(d)
    &&& forall|i: int| 1 <= i < d.params.len() ==> !(d.params[i] is Receiver)
}

/// What validation yields on `d`: the error of the first failing check,
/// in check order, or success.
pub open spec fn validate_spec(d: DeclV) -> Result<(), GenError> {
    if d.params.len() == 0 {
        Result::Err(GenError::ArityError)
    } else if !slot0_is_placeholder(d) {
        Result::Err(GenError::TypeError)
    } else if first_receiver(d.params, 1) < d.params.len() {
        Result::Err(GenError::ReceiverError { slot: first_receiver(d.params, 1) as usize })
    } else {
        Result::Ok(())
    }
}

/// The validator accepts exactly the validated declarations.
pub proof fn lemma_validate_ok_iff_validated(d: DeclV)
    ensures
        validate_spec(d) is Ok <==> validated(d),
{
    if d.params.len() >= 1 && slot0_is_placeholder(d) {
        lemma_first_receiver_bounds(d.params, 1);
    }
}

/// `first_receiver(params, k)` lands between `k` and `params.len()`, lands
/// on a receiver when it is in range, and skips no receiver on the way.
proof fn lemma_first_receiver_bounds(params: Seq<ParamSlotV>, k: int)
    requires
        0 <= k <= params.len(),
    ensures
        k <= first_receiver(params, k) <= params.len(),
        first_receiver(params, k) < params.len() ==> params[first_receiver(params, k)] is Receiver,
        forall|j: int| k <= j < first_receiver(params, k) ==> !(params[j] is Receiver),
    decreases params.len() - k,
{
    if k < params.len() && !(params[k] is Receiver) {
        lemma_first_receiver_bounds(params, k + 1);
    }
}

/// Checks the declaration's structure; `Ok` exactly on validated
/// declarations, and otherwise the first failing check's diagnostic.
pub fn validate(d: &HookDeclaration) -> (r: Result<(), GenError>)
    ensures
        r == validate_spec(d@),
        r is Ok <==> validated(d@),
{
    proof {
        lemma_validate_ok_iff_validated(d@);
    }
    let n = d.params.len();
    if n == 0 {
        return Result::Err(GenError::ArityError);
    }
    let slot0_ok = match &d.params[0] {
        ParamSlot::Typed { ty: TypeDesc::Placeholder, .. } => true,
        _ => false,
    };
    if !slot0_ok {
        return Result::Err(GenError::TypeError);
    }
    let mut i: usize = 1;
    while i < n
        invariant
            1 <= i <= n,
            n == d.params@.len(),
            n == d@.params.len(),
            slot0_is_placeholder(d@),
            forall|j: int| 1 <= j < i ==> !(d@.params[j] is Receiver),
        decreases n - i,
    {
        let is_receiver = match &d.params[i] {
            ParamSlot::Receiver => true,
            ParamSlot::Typed { .. } => false,
        };
        if is_receiver {
            proof {
                assert(d@.params[i as int] is Receiver);
                lemma_first_receiver_skip(d@.params, 1, i as int);
                assert(first_receiver(d@.params, i as int) == i as int);
            }
            return Result::Err(GenError::ReceiverError { slot: i });
        }
        i = i + 1;
    }
    proof {
        lemma_first_receiver_skip(d@.params, 1, n as int);
    }
    Result::Ok(())
}

} // verus!
