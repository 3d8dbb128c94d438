//! The library's stated laws: properties of the transform that hold of all
//! inputs, proved once here over the specification functions that the
//! executable pipeline is verified against.

use vstd::prelude::*;
use crate::emit::{fill_hole, internal_ident_of, slot_name, trampoline_spec, transform_spec};
use crate::model::{ArtifactV, DeclV, GenError, ParamSlotV, PointerParamV, TypeDescV};
use crate::names::arg_name;
use crate::render::type_text;
use crate::synth::{pointer_param_of, synth_spec};
use crate::text::{dec_rep, lemma_dec_rep_injective};
use crate::validate::validated;

verus! {

/// For every valid declaration with k parameters, the synthesized pointer
/// signature has exactly k - 1 parameters whose names and verbatim type
/// texts are those of slots 1..k, in order, together with the declaration's
/// return type and variadic flag.
pub proof fn lemma_signature_shape(d: DeclV)
    requires
        validated(d),
    ensures
        synth_spec(d).params.len() == d.params.len() - 1,
        forall|j: int|
            0 <= j < d.params.len() - 1 ==> #[trigger] synth_spec(d).params[j]
                == pointer_param_of(d.params[j + 1]),
        forall|j: int|
            0 <= j < d.params.len() - 1 ==> (d.params[j + 1] matches ParamSlotV::Typed {
                name,
                ty,
            } ==> #[trigger] synth_spec(d).params[j] == (PointerParamV {
                name,
                ty: type_text(ty),
            })),
        synth_spec(d).ret == d.ret,
        synth_spec(d).variadic == d.variadic,
{
}

/// The trampoline's export name, and the symbol it resolves on every call,
/// are the origin string verbatim.
pub proof fn lemma_export_name_is_origin(d: DeclV, origin: Seq<char>)
    requires
        validated(d),
    ensures
        trampoline_spec(d, origin).export_name == origin,
        trampoline_spec(d, origin).resolve_symbol == origin,
{
}

/// The export name does not depend on the hook declaration at all — in
/// particular not on the hook's own identifier.
pub proof fn lemma_export_name_independent_of_hook(d1: DeclV, d2: DeclV, origin: Seq<char>)
    requires
        validated(d1),
        validated(d2),
    ensures
        trampoline_spec(d1, origin).export_name == trampoline_spec(d2, origin).export_name,
{
}

/// Filling the hole changes exactly one position: slot 0's type becomes
/// the synthesized pointer signature, slot 0's name and every other slot
/// and field of the declaration are untouched.
pub proof fn lemma_hole_filled_exactly_once(d: DeclV)
    requires
        validated(d),
    ensures
        fill_hole(d, synth_spec(d)).params.len() == d.params.len(),
        fill_hole(d, synth_spec(d)).params[0] == (ParamSlotV::Typed {
            name: slot_name(d.params[0]),
            ty: TypeDescV::Pointer(synth_spec(d)),
        }),
        forall|i: int|
            1 <= i < d.params.len() ==> #[trigger] fill_hole(d, synth_spec(d)).params[i]
                == d.params[i],
        fill_hole(d, synth_spec(d)).ident == d.ident,
        fill_hole(d, synth_spec(d)).ret == d.ret,
        fill_hole(d, synth_spec(d)).variadic == d.variadic,
{
}

/// An origin string with an embedded terminator byte makes the whole
/// transform fail deterministically, whatever the declaration: the string
/// is never truncated on its way to the loader primitive.
pub proof fn lemma_embedded_terminator_rejected(d: DeclV, origin: Seq<char>, k: int)
    requires
        0 <= k < origin.len(),
        origin[k] == '\0',
    ensures
        transform_spec(d, origin) == Result::<ArtifactV, GenError>::Err(GenError::AttributeError),
{
}

/// Synthesized parameter names are pairwise distinct: the names allocated
/// to two different unnamed forwarded positions never collide.
pub proof fn lemma_synthesized_names_distinct(j: nat, k: nat)
    requires
        j != k,
    ensures
        arg_name(j) != arg_name(k),
{
    if arg_name(j) == arg_name(k) {
        let p = "arg"@.len() as int;
        assert(dec_rep(j) =~= arg_name(j).subrange(p, arg_name(j).len() as int));
        assert(dec_rep(k) =~= arg_name(k).subrange(p, arg_name(k).len() as int));
        lemma_dec_rep_injective(j, k);
    }
}

/// The trampoline's internal identifier is a fixed-prefix mangling of the
/// hook's own identifier, so it never collides with the hook's name.
pub proof fn lemma_internal_ident_differs_from_hook(hook: Seq<char>)
    ensures
        internal_ident_of(hook) != hook,
        internal_ident_of(hook).len() == hook.len() + 9,
{
    reveal_strlit("__dlhook_");
}

/// The transform is a pure function of the declaration and the origin:
/// running it twice on identical inputs yields identical artifacts.
pub proof fn lemma_transform_deterministic(d1: DeclV, o1: Seq<char>, d2: DeclV, o2: Seq<char>)
    requires
        d1 == d2,
        o1 == o2,
    ensures
        transform_spec(d1, o1) == transform_spec(d2, o2),
{
}

} // verus!
