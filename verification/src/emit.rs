//! The trampoline emitter and the whole pipeline.
//!
//! The emitted trampoline is exported under the origin string verbatim,
//! carries a fixed-prefix internal identifier derived from the hook's own
//! name, and on every call resolves the next definition of the origin
//! symbol afresh — no address is ever cached — reinterprets it as the
//! synthesized pointer type, and forwards all parameters to the hook.

use vstd::prelude::*;
use crate::attr::check_origin;
use crate::model::{
    copy_opt_string, copy_slot, origin_ok, ArtifactV, DeclV, GenError, GeneratedArtifact,
    HookDeclaration, ParamSlot, ParamSlotV, SignatureV, Trampoline, TrampolineV, TypeDesc,
    TypeDescV, FunctionPointerSignature,
};
use crate::names::{alloc_spec, allocate_names};
use crate::synth::{synth_spec, synthesize};
use crate::validate::{validate, validate_spec, validated};

verus! {

/// The declared name of a typed slot.
pub open spec fn slot_name(s: ParamSlotV) -> Option<Seq<char>> {
    match s {
        ParamSlotV::Typed { name, .. } => name,
        ParamSlotV::Receiver => Option::None,
    }
}

/// The declaration with its hole filled: slot 0's type becomes the
/// synthesized pointer type, and nothing else changes.
pub open spec fn fill_hole(d: DeclV, sig: SignatureV) -> DeclV
    recommends
        validated(d),
{
    DeclV {
        ident: d.ident,
        params: d.params.update(
            0,
            ParamSlotV::Typed { name: slot_name(d.params[0]), ty: TypeDescV::Pointer(sig) },
        ),
        ret: d.ret,
        variadic: d.variadic,
    }
}

/// The collision-avoiding internal identifier of the trampoline emitted
/// for a hook named `hook`.
pub open spec fn internal_ident_of(hook: Seq<char>) -> Seq<char> {
    "__dlhook_"@ + hook
}

/// The trampoline emitted for a validated declaration and origin: exported
/// under the origin verbatim, resolving the origin on every call, and
/// forwarding the allocated parameters to the hook after the resolved
/// pointer.
pub open spec fn trampoline_spec(d: DeclV, origin: Seq<char>) -> TrampolineV
    recommends
        validated(d),
{
    TrampolineV {
        export_name: origin,
        internal_ident: internal_ident_of(d.ident),
        resolve_symbol: origin,
        callee: d.ident,
        params: alloc_spec(synth_spec(d)),
        ret: d.ret,
        pointer_ty: synth_spec(d),
    }
}

/// The whole transform: a malformed origin or a structurally invalid
/// declaration is a diagnostic, and everything else yields the hook with
/// its hole filled plus the trampoline.
pub open spec fn transform_spec(d: DeclV, origin: Seq<char>) -> Result<ArtifactV, GenError> {
    if !origin_ok(origin) {
        Result::Err(GenError::AttributeError)
    } else {
        match validate_spec(d) {
            Result::Err(e) => Result::Err(e),
            Result::Ok(()) => Result::Ok(
                ArtifactV {
                    hook: fill_hole(d, synth_spec(d)),
                    trampoline: trampoline_spec(d, origin),
                },
            ),
        }
    }
}

/// Builds the hook's emitted declaration: the input declaration with its
/// first slot's type replaced by the synthesized pointer type.
fn fill_hole_exec(d: &HookDeclaration, sig: FunctionPointerSignature) -> (r: HookDeclaration)
    requires
        validated(d@),
    ensures
        r@ == fill_hole(d@, sig@),
{
    let n = d.params.len();
    let mut params: Vec<ParamSlot> = Vec::new();
    let name0 = match &d.params[0] {
        ParamSlot::Typed { name, .. } => copy_opt_string(name),
        ParamSlot::Receiver => {
            proof {
                assert(d@.params[0] is Receiver);
                assert(false);
            }
            Option::None
        }
    };
    params.push(ParamSlot::Typed { name: name0, ty: TypeDesc::Pointer(sig) });
    let mut j: usize = 1;
    while j < n
        invariant
            validated(d@),
            n == d.params@.len(),
            1 <= j <= n,
            params@.len() == j,
            forall|k: int| 1 <= k < j ==> params@[k]@ == d@.params[k],
            params@[0]@ == fill_hole(d@, sig@).params[0],
        decreases n - j,
    {
        params.push(copy_slot(&d.params[j]));
        j = j + 1;
    }
    let r = HookDeclaration {
        ident: d.ident.clone(),
        params,
        ret: copy_opt_string(&d.ret),
        variadic: d.variadic,
    };
    proof {
        assert(r@.params =~= fill_hole(d@, sig@).params);
        assert(r@ =~~= fill_hole(d@, sig@));
    }
    r
}

/// Emits the trampoline for a validated declaration and a usable origin.
pub fn emit_trampoline(d: &HookDeclaration, origin: &str) -> (r: Trampoline)
    requires
        validated(d@),
    ensures
        r@ == trampoline_spec(d@, origin@),
{
    let sig = synthesize(d);
    let params = allocate_names(&sig);
    let mut internal = "__dlhook_".to_owned();
    internal.append(d.ident.as_str());
    let r = Trampoline {
        export_name: origin.to_owned(),
        internal_ident: internal,
        resolve_symbol: origin.to_owned(),
        callee: d.ident.clone(),
        params,
        ret: copy_opt_string(&d.ret),
        pointer_ty: sig,
    };
    proof {
        assert(r@ =~~= trampoline_spec(d@, origin@));
    }
    r
}

/// Runs the whole pipeline on one declaration and origin name.
///
/// The result is exactly `transform_spec` of the inputs: a pure function
/// of the declaration and the origin, so two runs on identical inputs
/// yield identical artifacts.
pub fn transform(d: &HookDeclaration, origin: &str) -> (r: Result<GeneratedArtifact, GenError>)
    ensures
        r matches Ok(a) ==> transform_spec(d@, origin@) == Result::<ArtifactV, GenError>::Ok(a@),
        r matches Err(e) ==> transform_spec(d@, origin@) == Result::<ArtifactV, GenError>::Err(e),
{
    if !check_origin(origin) {
        return Result::Err(GenError::AttributeError);
    }
    match validate(d) {
        Result::Err(e) => Result::Err(e),
        Result::Ok(()) => {
            let sig = synthesize(d);
            let hook = fill_hole_exec(d, sig);
            let trampoline = emit_trampoline(d, origin);
            Result::Ok(GeneratedArtifact { hook, trampoline })
        }
    }
}

} // verus!
