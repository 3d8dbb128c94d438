//! The source text of the synthesized function-pointer type.
//!
//! The type is always unsafe and C-callable; its parameters keep their
//! declared names and verbatim type text, a trailing variadic marker is
//! rendered as `...`, and a declared return type follows an arrow.

use vstd::prelude::*;
use crate::model::{FunctionPointerSignature, PointerParamV, SignatureV, TypeDesc, TypeDescV};

verus! {

/// The text of one parameter of the pointer type: `name: ty` when the
/// declaration bound a simple identifier, bare `ty` otherwise.
pub open spec fn param_text(p: PointerParamV) -> Seq<char> {
    match p.name {
        Option::Some(n) => n + ": "@ + p.ty,
        Option::None => p.ty,
    }
}

/// The first `j` parameters joined with `", "`.
pub open spec fn params_prefix(params: Seq<PointerParamV>, j: int) -> Seq<char>
    decreases j,
{
    if j <= 0 || j > params.len() {
        Seq::empty()
    } else if j == 1 {
        param_text(params[0])
    } else {
        params_prefix(params, j - 1) + ", "@ + param_text(params[j - 1])
    }
}

/// Everything between the pointer type's parentheses: the joined
/// parameters, with the variadic marker appended when the signature
/// carries one.
pub open spec fn args_text(sig: SignatureV) -> Seq<char> {
    let joined = params_prefix(sig.params, sig.params.len() as int);
    if sig.variadic {
        if sig.params.len() == 0 {
            "..."@
        } else {
            joined + ", ..."@
        }
    } else {
        joined
    }
}

/// The rendered return position: empty for the default return type.
pub open spec fn ret_text(r: Option<Seq<char>>) -> Seq<char> {
    match r {
        Option::Some(t) => " -> "@ + t,
        Option::None => Seq::<char>::empty(),
    }
}

/// The full source text of the synthesized foreign function-pointer type.
pub open spec fn ptr_sig_text(sig: SignatureV) -> Seq<char> {
    "unsafe extern \"C\" fn("@ + args_text(sig) + ")"@ + ret_text(sig.ret)
}

/// The source text of a slot's type: the hole renders as `_`, a concrete
/// type as its verbatim text, and a synthesized pointer as its full type.
pub open spec fn type_text(t: TypeDescV) -> Seq<char> {
    match t {
        TypeDescV::Placeholder => "_"@,
        TypeDescV::Concrete(s) => s,
        TypeDescV::Pointer(sig) => ptr_sig_text(sig),
    }
}

/// Renders the synthesized pointer type as source text.
pub fn render_signature(sig: &FunctionPointerSignature) -> (r: String)
    ensures
        r@ == ptr_sig_text(sig@),
{
    let mut s = "unsafe extern \"C\" fn(".to_owned();
    let n = sig.params.len();
    proof {
        assert(s@ =~= "unsafe extern \"C\" fn("@ + params_prefix(sig@.params, 0));
    }
    let mut j: usize = 0;
    while j < n
        invariant
            n == sig.params@.len(),
            j <= n,
            s@ == "unsafe extern \"C\" fn("@ + params_prefix(sig@.params, j as int),
        decreases n - j,
    {
        if j > 0 {
            s.append(", ");
        }
        let p = &sig.params[j];
        match &p.name {
            Option::Some(nm) => {
                s.append(nm.as_str());
                s.append(": ");
            }
            Option::None => {}
        }
        s.append(p.ty.as_str());
        proof {
            assert(sig@.params[j as int] == p@);
            assert(s@ =~= "unsafe extern \"C\" fn("@ + params_prefix(sig@.params, j as int + 1));
        }
        j = j + 1;
    }
    if sig.variadic {
        if n == 0 {
            s.append("...");
        } else {
            s.append(", ...");
        }
    }
    s.append(")");
    match &sig.ret {
        Option::Some(t) => {
            s.append(" -> ");
            s.append(t.as_str());
        }
        Option::None => {}
    }
    proof {
        assert(s@ =~= ptr_sig_text(sig@));
    }
    s
}

/// Renders a slot type as source text.
pub fn render_type(t: &TypeDesc) -> (r: String)
    ensures
        r@ == type_text(t@),
{
    match t {
        TypeDesc::Placeholder => "_".to_owned(),
        TypeDesc::Concrete(s) => s.clone(),
        TypeDesc::Pointer(sig) => render_signature(sig),
    }
}

} // verus!
