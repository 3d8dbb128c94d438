//! Function-pointer type synthesis: slots 1..n of a validated declaration
//! become the parameters of the foreign-callable pointer type that fills
//! the hole, preserving declaration order, each type's verbatim text, the
//! declared return type, and the variadic marker.

use vstd::prelude::*;
use crate::model::{
    copy_opt_string, DeclV, FunctionPointerSignature, HookDeclaration, ParamSlot, ParamSlotV,
    PointerParam, PointerParamV, SignatureV,
};
use crate::render::{render_type, type_text};
use crate::validate::validated;

verus! {

/// The pointer parameter derived from one forwarded slot: the slot's
/// declared name, if any, and the source text of its type.
pub open spec fn pointer_param_of(s: ParamSlotV) -> PointerParamV
    recommends
        !(s is Receiver),
{
    match s {
        ParamSlotV::Typed { name, ty } => PointerParamV { name, ty: type_text(ty) },
        ParamSlotV::Receiver => PointerParamV { name: Option::None, ty: Seq::empty() },
    }
}

/// The signature synthesized from slots 1..n of `d`: one pointer parameter
/// per forwarded slot, in order, with `d`'s return type and variadic flag.
pub open spec fn synth_spec(d: DeclV) -> SignatureV
    recommends
        validated(d),
{
    SignatureV {
        params: Seq::new((d.params.len() - 1) as nat, |j: int| pointer_param_of(d.params[j + 1])),
        ret: d.ret,
        variadic: d.variadic,
    }
}

/// Builds the foreign function-pointer type for a validated declaration.
pub fn synthesize(d: &HookDeclaration) -> (r: FunctionPointerSignature)
    requires
        validated(d@),
    ensures
        r@ == synth_spec(d@),
{
    let n = d.params.len();
    let mut params: Vec<PointerParam> = Vec::new();
    let mut j: usize = 1;
    while j < n
        invariant
            validated(d@),
            n == d.params@.len(),
            1 <= j <= n,
            params@.len() == j - 1,
            forall|k: int| 0 <= k < j - 1 ==> params@[k]@ == pointer_param_of(d@.params[k + 1]),
        decreases n - j,
    {
        let p = match &d.params[j] {
            ParamSlot::Typed { name, ty } => PointerParam {
                name: copy_opt_string(name),
                ty: render_type(ty),
            },
            ParamSlot::Receiver => {
                proof {
                    assert(d@.params[j as int] is Receiver);
                    assert(false);
                }
                PointerParam { name: Option::None, ty: String::new() }
            }
        };
        params.push(p);
        j = j + 1;
    }
    let r = FunctionPointerSignature {
        params,
        ret: copy_opt_string(&d.ret),
        variadic: d.variadic,
    };
    proof {
        assert(r@.params =~= synth_spec(d@).params);
        assert(r@ =~~= synth_spec(d@));
    }
    r
}

} // verus!
