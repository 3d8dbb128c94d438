//! Data model of the transform: declarations, parameter slots, the
//! synthesized function-pointer signature, the generated artifact, and the
//! diagnostics, together with their mathematical views.

use vstd::prelude::*;

verus! {

/// The type written in a parameter slot of a hook declaration.
///
/// `Placeholder` is the hole (written `_` in source); `Concrete` carries the
/// verbatim token text of a type the author wrote; `Pointer` is the
/// synthesized foreign function-pointer type, which exists only in the
/// output of the transform.
#[derive(Clone, Debug, PartialEq, Eq)]
pub enum TypeDesc {
    Placeholder,
    Concrete(String),
    Pointer(FunctionPointerSignature),
}

/// One parameter of the synthesized function-pointer type: an optional
/// name and the verbatim token text of its type.
#[derive(Clone, Debug, PartialEq, Eq)]
pub struct PointerParam {
    pub name: Option<String>,
    pub ty: String,
}

/// The foreign-callable function-pointer type that fills the hole:
/// the forwarded parameter types in declaration order, the declared return
/// type (`None` for the default), and the trailing-variadic marker.
/// Calling convention C and unsafety are implicit and fixed.
#[derive(Clone, Debug, PartialEq, Eq)]
pub struct FunctionPointerSignature {
    pub params: Vec<PointerParam>,
    pub ret: Option<String>,
    pub variadic: bool,
}

/// One slot of a declaration: either an implicit receiver parameter or a
/// typed parameter with an optional simple-identifier binding.
#[derive(Clone, Debug, PartialEq, Eq)]
pub enum ParamSlot {
    Receiver,
    Typed { name: Option<String>, ty: TypeDesc },
}

/// A function declaration as handed to the transform: the function's own
/// identifier, its parameter slots in order, its declared return type
/// (`None` for the default), and whether it carries a trailing variadic
/// marker.
#[derive(Clone, Debug, PartialEq, Eq)]
pub struct HookDeclaration {
    pub ident: String,
    pub params: Vec<ParamSlot>,
    pub ret: Option<String>,
    pub variadic: bool,
}

/// A forwarded parameter of the emitted trampoline, after name allocation:
/// every parameter has a concrete name here.
#[derive(Clone, Debug, PartialEq, Eq)]
pub struct NamedParam {
    pub name: String,
    pub ty: String,
}

/// The emitted forwarding function.
///
/// `export_name` is the symbol the artifact exports, always the origin
/// string verbatim; `internal_ident` is the collision-avoiding identifier of
/// the function itself; `resolve_symbol` is the name handed to the loader's
/// resolution primitive on every call; `callee` is the hook function the
/// trampoline forwards to, passing the resolved pointer first and then the
/// parameters in order; `pointer_ty` is the type the resolved address is
/// reinterpreted as.
#[derive(Clone, Debug, PartialEq, Eq)]
pub struct Trampoline {
    pub export_name: String,
    pub internal_ident: String,
    pub resolve_symbol: String,
    pub callee: String,
    pub params: Vec<NamedParam>,
    pub ret: Option<String>,
    pub pointer_ty: FunctionPointerSignature,
}

/// The transform's output: the hook declaration with its hole filled, and
/// the trampoline to emit beside it.
#[derive(Clone, Debug, PartialEq, Eq)]
pub struct GeneratedArtifact {
    pub hook: HookDeclaration,
    pub trampoline: Trampoline,
}

/// A build-time diagnostic. `AttributeError` is a malformed or missing
/// origin; `ArityError` a declaration without parameters; `TypeError` a
/// first parameter that is not the placeholder; `ReceiverError` an implicit
/// receiver, carrying the slot index of the offending receiver.
#[derive(Clone, Copy, Debug, PartialEq, Eq)]
pub enum GenError {
    AttributeError,
    ArityError,
    TypeError,
    ReceiverError { slot: usize },
}

// ------------------------------------------------------------------
// Mathematical views
// ------------------------------------------------------------------

#[verifier::ext_equal]
pub enum TypeDescV {
    Placeholder,
    Concrete(Seq<char>),
    Pointer(SignatureV),
}

#[verifier::ext_equal]
pub struct PointerParamV {
    pub name: Option<Seq<char>>,
    pub ty: Seq<char>,
}

#[verifier::ext_equal]
pub struct SignatureV {
    pub params: Seq<PointerParamV>,
    pub ret: Option<Seq<char>>,
    pub variadic: bool,
}

#[verifier::ext_equal]
pub enum ParamSlotV {
    Receiver,
    Typed { name: Option<Seq<char>>, ty: TypeDescV },
}

#[verifier::ext_equal]
pub struct DeclV {
    pub ident: Seq<char>,
    pub params: Seq<ParamSlotV>,
    pub ret: Option<Seq<char>>,
    pub variadic: bool,
}

#[verifier::ext_equal]
pub struct NamedParamV {
    pub name: Seq<char>,
    pub ty: Seq<char>,
}

#[verifier::ext_equal]
pub struct TrampolineV {
    pub export_name: Seq<char>,
    pub internal_ident: Seq<char>,
    pub resolve_symbol: Seq<char>,
    pub callee: Seq<char>,
    pub params: Seq<NamedParamV>,
    pub ret: Option<Seq<char>>,
    pub pointer_ty: SignatureV,
}

#[verifier::ext_equal]
pub struct ArtifactV {
    pub hook: DeclV,
    pub trampoline: TrampolineV,
}

pub open spec fn opt_view(o: Option<String>) -> Option<Seq<char>> {
    match o {
        Option::Some(s) => Option::Some(s@),
        Option::None => Option::None,
    }
}

impl View for PointerParam {
    type V = PointerParamV;

    open spec fn view(&self) -> PointerParamV {
        PointerParamV { name: opt_view(self.name), ty: self.ty@ }
    }
}

pub open spec fn pointer_params_view(s: Seq<PointerParam>) -> Seq<PointerParamV> {
    Seq::new(s.len(), |i: int| s[i]@)
}

impl View for FunctionPointerSignature {
    type V = SignatureV;

    open spec fn view(&self) -> SignatureV {
        SignatureV {
            params: pointer_params_view(self.params@),
            ret: opt_view(self.ret),
            variadic: self.variadic,
        }
    }
}

impl View for TypeDesc {
    type V = TypeDescV;

    open spec fn view(&self) -> TypeDescV {
        match self {
            TypeDesc::Placeholder => TypeDescV::Placeholder,
            TypeDesc::Concrete(s) => TypeDescV::Concrete(s@),
            TypeDesc::Pointer(sig) => TypeDescV::Pointer(sig@),
        }
    }
}

impl View for ParamSlot {
    type V = ParamSlotV;

    open spec fn view(&self) -> ParamSlotV {
        match self {
            ParamSlot::Receiver => ParamSlotV::Receiver,
            ParamSlot::Typed { name, ty } => ParamSlotV::Typed {
                name: opt_view(*name),
                ty: ty@,
            },
        }
    }
}

pub open spec fn slots_view(s: Seq<ParamSlot>) -> Seq<ParamSlotV> {
    Seq::new(s.len(), |i: int| s[i]@)
}

impl View for HookDeclaration {
    type V = DeclV;

    open spec fn view(&self) -> DeclV {
        DeclV {
            ident: self.ident@,
            params: slots_view(self.params@),
            ret: opt_view(self.ret),
            variadic: self.variadic,
        }
    }
}

impl View for NamedParam {
    type V = NamedParamV;

    open spec fn view(&self) -> NamedParamV {
        NamedParamV { name: self.name@, ty: self.ty@ }
    }
}

pub open spec fn named_params_view(s: Seq<NamedParam>) -> Seq<NamedParamV> {
    Seq::new(s.len(), |i: int| s[i]@)
}

impl View for Trampoline {
    type V = TrampolineV;

    open spec fn view(&self) -> TrampolineV {
        TrampolineV {
            export_name: self.export_name@,
            internal_ident: self.internal_ident@,
            resolve_symbol: self.resolve_symbol@,
            callee: self.callee@,
            params: named_params_view(self.params@),
            ret: opt_view(self.ret),
            pointer_ty: self.pointer_ty@,
        }
    }
}

impl View for GeneratedArtifact {
    type V = ArtifactV;

    open spec fn view(&self) -> ArtifactV {
        ArtifactV { hook: self.hook@, trampoline: self.trampoline@ }
    }
}

/// Copies an optional name, preserving its view.
pub fn copy_opt_string(o: &Option<String>) -> (r: Option<String>)
    ensures
        opt_view(r) == opt_view(*o),
{
    match o {
        Option::Some(s) => Option::Some(s.clone()),
        Option::None => Option::None,
    }
}

/// Copies a pointer parameter, preserving its view.
pub fn copy_pointer_param(p: &PointerParam) -> (r: PointerParam)
    ensures
        r@ == p@,
{
    PointerParam { name: copy_opt_string(&p.name), ty: p.ty.clone() }
}

/// Copies a synthesized signature, preserving its view.
pub fn copy_signature(sig: &FunctionPointerSignature) -> (r: FunctionPointerSignature)
    ensures
        r@ == sig@,
{
    let n = sig.params.len();
    let mut params: Vec<PointerParam> = Vec::new();
    let mut j: usize = 0;
    while j < n
        invariant
            n == sig.params@.len(),
            j <= n,
            params@.len() == j,
            forall|k: int| 0 <= k < j ==> params@[k]@ == sig.params@[k]@,
        decreases n - j,
    {
        params.push(copy_pointer_param(&sig.params[j]));
        j = j + 1;
    }
    let r = FunctionPointerSignature {
        params,
        ret: copy_opt_string(&sig.ret),
        variadic: sig.variadic,
    };
    proof {
        assert(r@.params =~= sig@.params);
        assert(r@ =~~= sig@);
    }
    r
}

/// Copies a slot type, preserving its view.
pub fn copy_type_desc(t: &TypeDesc) -> (r: TypeDesc)
    ensures
        r@ == t@,
{
    match t {
        TypeDesc::Placeholder => TypeDesc::Placeholder,
        TypeDesc::Concrete(s) => TypeDesc::Concrete(s.clone()),
        TypeDesc::Pointer(sig) => TypeDesc::Pointer(copy_signature(sig)),
    }
}

/// Copies a parameter slot, preserving its view.
pub fn copy_slot(s: &ParamSlot) -> (r: ParamSlot)
    ensures
        r@ == s@,
{
    match s {
        ParamSlot::Receiver => ParamSlot::Receiver,
        ParamSlot::Typed { name, ty } => ParamSlot::Typed {
            name: copy_opt_string(name),
            ty: copy_type_desc(ty),
        },
    }
}

/// A valid origin symbol name: non-empty and free of embedded terminator
/// bytes, so it can cross a C string boundary without truncation.
pub open spec fn origin_ok(s: Seq<char>) -> bool {
    s.len() > 0 && forall|i: int| 0 <= i < s.len() ==> s[i] != '\0'
}

impl GenError {
    /// The diagnostic text reported for this error.
    pub open spec fn message_spec(self) -> Seq<char> {
        match self {
            GenError::AttributeError =>
                "please provide origin function name to dlhook macro, like '#[dlhook(origin = \"getuid\")'"@,
            GenError::ArityError =>
                "dlhook functions must has at least one argument(for receive the original function pointer)"@,
            GenError::TypeError =>
                "dlhook function's first argument must have InferType(\"arg: _\")"@,
            GenError::ReceiverError { .. } =>
                "dlhook can not apply on non-static functions"@,
        }
    }

    /// The message a build embeds in its diagnostic for this error.
    pub fn message(&self) -> (r: &'static str)
        ensures
            r@ == self.message_spec(),
    {
        match self {
            GenError::AttributeError =>
                "please provide origin function name to dlhook macro, like '#[dlhook(origin = \"getuid\")'",
            GenError::ArityError =>
                "dlhook functions must has at least one argument(for receive the original function pointer)",
            GenError::TypeError =>
                "dlhook function's first argument must have InferType(\"arg: _\")",
            GenError::ReceiverError { .. } =>
                "dlhook can not apply on non-static functions",
        }
    }
}

} // verus!
