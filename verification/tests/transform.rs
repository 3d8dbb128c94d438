use dlhook::attr::{extract_origin, check_origin, AttrPayload, AttrValue};
use dlhook::emit::transform;
use dlhook::model::{
    FunctionPointerSignature, GenError, GeneratedArtifact, HookDeclaration, NamedParam, ParamSlot,
    PointerParam, TypeDesc,
};
use dlhook::names::allocate_names;
use dlhook::render::render_signature;
use dlhook::synth::synthesize;
use dlhook::validate::validate;

fn typed(name: Option<&str>, ty: TypeDesc) -> ParamSlot {
    ParamSlot::Typed { name: name.map(|n| n.to_string()), ty }
}

fn concrete(ty: &str) -> TypeDesc {
    TypeDesc::Concrete(ty.to_string())
}

fn decl(ident: &str, params: Vec<ParamSlot>, ret: Option<&str>, variadic: bool) -> HookDeclaration {
    HookDeclaration {
        ident: ident.to_string(),
        params,
        ret: ret.map(|r| r.to_string()),
        variadic,
    }
}

fn hole_slot(name: Option<&str>) -> ParamSlot {
    typed(name, TypeDesc::Placeholder)
}

#[test]
fn scenario_single_parameter_hook() {
    let d = decl("h", vec![hole_slot(Some("f"))], Some("u32"), false);
    let r = transform(&d, "getuid").expect("valid declaration must transform");
    let GeneratedArtifact { hook, trampoline } = r;

    assert_eq!(hook.ident, "h");
    assert_eq!(hook.params.len(), 1);
    let sig = match &hook.params[0] {
        ParamSlot::Typed { name, ty: TypeDesc::Pointer(sig) } => {
            assert_eq!(name.as_deref(), Some("f"));
            sig.clone()
        }
        other => panic!("slot 0 not filled with a pointer type: {other:?}"),
    };
    assert_eq!(sig.params.len(), 0);
    assert_eq!(sig.ret.as_deref(), Some("u32"));
    assert!(!sig.variadic);
    assert_eq!(hook.ret.as_deref(), Some("u32"));

    assert_eq!(trampoline.export_name, "getuid");
    assert_eq!(trampoline.resolve_symbol, "getuid");
    assert_eq!(trampoline.internal_ident, "__dlhook_h");
    assert_eq!(trampoline.callee, "h");
    assert_eq!(trampoline.params.len(), 0);
    assert_eq!(trampoline.ret.as_deref(), Some("u32"));
    assert_eq!(trampoline.pointer_ty, sig);
    assert_eq!(render_signature(&sig), "unsafe extern \"C\" fn() -> u32");
}

#[test]
fn scenario_forwarded_parameters() {
    let d = decl(
        "open_hook",
        vec![
            hole_slot(Some("f")),
            typed(Some("path"), concrete("T1")),
            typed(Some("flags"), concrete("T2")),
            typed(Some("mode"), concrete("T3")),
        ],
        Some("T4"),
        false,
    );
    let r = transform(&d, "open").expect("valid declaration must transform");

    let sig = r.trampoline.pointer_ty.clone();
    assert_eq!(sig.params.len(), 3);
    let expect = [("path", "T1"), ("flags", "T2"), ("mode", "T3")];
    for (p, (n, t)) in sig.params.iter().zip(expect.iter()) {
        assert_eq!(p.name.as_deref(), Some(*n));
        assert_eq!(p.ty, *t);
    }
    assert_eq!(sig.ret.as_deref(), Some("T4"));
    assert!(!sig.variadic);

    assert_eq!(r.trampoline.export_name, "open");
    let names: Vec<&str> = r.trampoline.params.iter().map(|p| p.name.as_str()).collect();
    assert_eq!(names, vec!["path", "flags", "mode"]);
    let tys: Vec<&str> = r.trampoline.params.iter().map(|p| p.ty.as_str()).collect();
    assert_eq!(tys, vec!["T1", "T2", "T3"]);

    assert_eq!(
        render_signature(&sig),
        "unsafe extern \"C\" fn(path: T1, flags: T2, mode: T3) -> T4"
    );
}

#[test]
fn export_name_is_independent_of_hook_identifier() {
    let a = decl("first_hook", vec![hole_slot(Some("f"))], Some("u32"), false);
    let b = decl("second_hook", vec![hole_slot(None)], None, false);
    let ta = transform(&a, "getuid").unwrap().trampoline;
    let tb = transform(&b, "getuid").unwrap().trampoline;
    assert_eq!(ta.export_name, "getuid");
    assert_eq!(ta.export_name, tb.export_name);
    assert_ne!(ta.internal_ident, tb.internal_ident);
    assert_eq!(ta.internal_ident, "__dlhook_first_hook");
    assert_eq!(tb.internal_ident, "__dlhook_second_hook");
}

#[test]
fn forwarded_slots_survive_hole_filling_unchanged() {
    let slots = vec![
        hole_slot(Some("f")),
        typed(Some("path"), concrete("T1")),
        typed(None, concrete("T2")),
    ];
    let d = decl("h", slots.clone(), Some("T4"), false);
    let hook = transform(&d, "open").unwrap().hook;
    assert_eq!(hook.params.len(), 3);
    assert_eq!(&hook.params[1..], &slots[1..]);
    assert!(matches!(
        &hook.params[0],
        ParamSlot::Typed { name: Some(n), ty: TypeDesc::Pointer(_) } if n == "f"
    ));
}

#[test]
fn scenario_zero_parameters() {
    let d = decl("h", vec![], Some("u32"), false);
    assert_eq!(transform(&d, "getuid"), Err(GenError::ArityError));
    assert_eq!(validate(&d), Err(GenError::ArityError));
}

#[test]
fn scenario_concrete_first_slot() {
    let d = decl("h", vec![typed(Some("f"), concrete("u32"))], Some("u32"), false);
    assert_eq!(transform(&d, "getuid"), Err(GenError::TypeError));
    assert_eq!(validate(&d), Err(GenError::TypeError));
}

#[test]
fn scenario_implicit_receiver() {
    let d = decl(
        "h",
        vec![hole_slot(Some("f")), ParamSlot::Receiver, typed(None, concrete("i32"))],
        None,
        false,
    );
    assert_eq!(transform(&d, "getuid"), Err(GenError::ReceiverError { slot: 1 }));
    assert_eq!(validate(&d), Err(GenError::ReceiverError { slot: 1 }));
}

#[test]
fn receiver_in_first_slot_is_a_type_error() {
    // The placeholder check runs before the receiver check, so a receiver
    // in slot 0 surfaces as the slot-0 diagnostic.
    let d = decl("h", vec![ParamSlot::Receiver], None, false);
    assert_eq!(transform(&d, "getuid"), Err(GenError::TypeError));
}

#[test]
fn later_receiver_reports_first_offending_slot() {
    let d = decl(
        "h",
        vec![
            hole_slot(None),
            typed(Some("a"), concrete("i32")),
            ParamSlot::Receiver,
            ParamSlot::Receiver,
        ],
        None,
        false,
    );
    assert_eq!(transform(&d, "getuid"), Err(GenError::ReceiverError { slot: 2 }));
}

#[test]
fn embedded_terminator_rejected() {
    let d = decl("h", vec![hole_slot(Some("f"))], Some("u32"), false);
    assert_eq!(transform(&d, "open\0evil"), Err(GenError::AttributeError));
    assert_eq!(transform(&d, "\0"), Err(GenError::AttributeError));
    assert!(!check_origin("open\0evil"));
}

#[test]
fn empty_origin_rejected() {
    let d = decl("h", vec![hole_slot(Some("f"))], Some("u32"), false);
    assert_eq!(transform(&d, ""), Err(GenError::AttributeError));
    assert!(!check_origin(""));
    assert!(check_origin("open"));
}

#[test]
fn transform_is_deterministic() {
    let d = decl(
        "open_hook",
        vec![
            hole_slot(Some("f")),
            typed(Some("path"), concrete("*const c_char")),
            typed(None, concrete("i32")),
        ],
        Some("i32"),
        true,
    );
    let a = transform(&d, "open");
    let b = transform(&d, "open");
    assert_eq!(a, b);
    let a = a.unwrap();
    let b = b.unwrap();
    assert_eq!(
        render_signature(&a.trampoline.pointer_ty),
        render_signature(&b.trampoline.pointer_ty)
    );
}

#[test]
fn variadic_marker_preserved_and_rendered() {
    let d = decl(
        "printf_hook",
        vec![hole_slot(Some("f")), typed(Some("fmt"), concrete("*const c_char"))],
        Some("i32"),
        true,
    );
    let r = transform(&d, "printf").unwrap();
    assert!(r.trampoline.pointer_ty.variadic);
    assert_eq!(
        render_signature(&r.trampoline.pointer_ty),
        "unsafe extern \"C\" fn(fmt: *const c_char, ...) -> i32"
    );
}

#[test]
fn variadic_without_parameters_renders_dots_only() {
    let sig = FunctionPointerSignature { params: vec![], ret: None, variadic: true };
    assert_eq!(render_signature(&sig), "unsafe extern \"C\" fn(...)");
}

#[test]
fn unnamed_parameter_renders_bare_type() {
    let sig = FunctionPointerSignature {
        params: vec![
            PointerParam { name: None, ty: "i32".to_string() },
            PointerParam { name: Some("x".to_string()), ty: "u8".to_string() },
        ],
        ret: None,
        variadic: false,
    };
    assert_eq!(render_signature(&sig), "unsafe extern \"C\" fn(i32, x: u8)");
}

#[test]
fn allocator_numbers_unnamed_slots_by_forwarded_position() {
    let mut params = Vec::new();
    for i in 0..12 {
        let name = if i == 1 { Some(format!("kept{i}")) } else { None };
        params.push(PointerParam { name, ty: "i32".to_string() });
    }
    let sig = FunctionPointerSignature { params, ret: None, variadic: false };
    let named: Vec<NamedParam> = allocate_names(&sig);
    let names: Vec<&str> = named.iter().map(|p| p.name.as_str()).collect();
    assert_eq!(
        names,
        vec![
            "arg0", "kept1", "arg2", "arg3", "arg4", "arg5", "arg6", "arg7", "arg8", "arg9",
            "arg10", "arg11"
        ]
    );
}

#[test]
fn decimal_rendering_exact() {
    assert_eq!(dlhook::text::dec_string(0), "0");
    assert_eq!(dlhook::text::dec_string(7), "7");
    assert_eq!(dlhook::text::dec_string(10), "10");
    assert_eq!(dlhook::text::dec_string(123), "123");
    assert_eq!(dlhook::text::dec_string(1000000), "1000000");
    assert_eq!(dlhook::text::dec_string(u64::MAX), "18446744073709551615");
}

#[test]
fn str_eq_compares_by_characters() {
    assert!(dlhook::text::str_eq("origin", "origin"));
    assert!(!dlhook::text::str_eq("origin", "origine"));
    assert!(!dlhook::text::str_eq("origin", "origiN"));
    assert!(dlhook::text::str_eq("", ""));
}

#[test]
fn extract_origin_accepts_only_origin_string_option() {
    let good = AttrPayload::NameValue {
        name: "origin".to_string(),
        value: AttrValue::Str("getuid".to_string()),
    };
    assert_eq!(extract_origin(&good), Ok("getuid".to_string()));

    let misnamed = AttrPayload::NameValue {
        name: "target".to_string(),
        value: AttrValue::Str("getuid".to_string()),
    };
    assert_eq!(extract_origin(&misnamed), Err(GenError::AttributeError));

    let not_string = AttrPayload::NameValue {
        name: "origin".to_string(),
        value: AttrValue::NotString,
    };
    assert_eq!(extract_origin(&not_string), Err(GenError::AttributeError));

    assert_eq!(extract_origin(&AttrPayload::Malformed), Err(GenError::AttributeError));
}

#[test]
fn synthesize_preserves_types_in_order() {
    let d = decl(
        "h",
        vec![
            hole_slot(Some("f")),
            typed(None, concrete("*mut u8")),
            typed(Some("n"), TypeDesc::Placeholder),
        ],
        None,
        false,
    );
    let sig = synthesize(&d);
    assert_eq!(sig.params.len(), 2);
    assert_eq!(sig.params[0].name, None);
    assert_eq!(sig.params[0].ty, "*mut u8");
    // A stray hole in a forwarded slot keeps its verbatim source text.
    assert_eq!(sig.params[1].name.as_deref(), Some("n"));
    assert_eq!(sig.params[1].ty, "_");
    assert_eq!(sig.ret, None);
}

#[test]
fn diagnostic_messages() {
    assert_eq!(
        GenError::AttributeError.message(),
        "please provide origin function name to dlhook macro, like '#[dlhook(origin = \"getuid\")'"
    );
    assert_eq!(
        GenError::ArityError.message(),
        "dlhook functions must has at least one argument(for receive the original function pointer)"
    );
    assert_eq!(
        GenError::TypeError.message(),
        "dlhook function's first argument must have InferType(\"arg: _\")"
    );
    assert_eq!(
        GenError::ReceiverError { slot: 1 }.message(),
        "dlhook can not apply on non-static functions"
    );
}
