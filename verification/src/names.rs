//! Parameter naming for the emitted trampoline: a forwarded slot keeps its
//! declared identifier; an unnamed one gets `argK`, where `K` is its
//! zero-based position among the forwarded slots. Synthesized names are
//! pairwise distinct by construction; no de-duplication against
//! user-supplied names is attempted.

use vstd::prelude::*;
use crate::model::{named_params_view, FunctionPointerSignature, NamedParam, NamedParamV, SignatureV};
use crate::text::{dec_rep, dec_string};

verus! {

/// The name synthesized for the unnamed forwarded parameter at zero-based
/// position `j` among the forwarded slots.
pub open spec fn arg_name(j: nat) -> Seq<char> {
    "arg"@ + dec_rep(j)
}

/// Name allocation over the synthesized signature's parameters: declared
/// names are kept, the rest become `argK`, and types are untouched.
pub open spec fn alloc_spec(sig: SignatureV) -> Seq<NamedParamV> {
    Seq::new(
        sig.params.len(),
        |j: int| NamedParamV {
            name: match sig.params[j].name {
                Option::Some(n) => n,
                Option::None => arg_name(j as nat),
            },
            ty: sig.params[j].ty,
        },
    )
}

/// Assigns a concrete name to every forwarded parameter.
pub fn allocate_names(sig: &FunctionPointerSignature) -> (r: Vec<NamedParam>)
    ensures
        named_params_view(r@) == alloc_spec(sig@),
{
    let n = sig.params.len();
    let mut out: Vec<NamedParam> = Vec::new();
    let mut j: usize = 0;
    while j < n
        invariant
            n == sig.params@.len(),
            j <= n,
            out@.len() == j,
            forall|k: int| 0 <= k < j ==> out@[k]@ == alloc_spec(sig@)[k],
        decreases n - j,
    {
        let p = &sig.params[j];
        let name = match &p.name {
            Option::Some(nm) => nm.clone(),
            Option::None => {
                let mut s = "arg".to_owned();
                let digits = dec_string(j as u64);
                s.append(digits.as_str());
                s
            }
        };
        out.push(NamedParam { name, ty: p.ty.clone() });
        proof {
            assert(sig@.params[j as int] == p@);
            assert(out@[j as int]@ == alloc_spec(sig@)[j as int]);
        }
        j = j + 1;
    }
    proof {
        assert(named_params_view(out@) =~= alloc_spec(sig@));
    }
    out
}

} // verus!
