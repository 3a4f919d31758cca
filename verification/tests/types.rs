use retour_utils::syntax::{
    Attribute, FnArg, Ident, Item, ItemFn, ItemMod, LitStr, Pat, PatIdent, PatType, Signature, Span,
};
use retour_utils::token::{Token, TokenKind};
use retour_utils::types::{
    fn_arg_names, fn_type_from_sig, Function, Module, DUPLICATE_HOOK, UNSAFE_BELONGS_HERE,
    UNSAFE_DECLARED_HERE, UNSAFE_HOOK, UNSAFE_TWICE, UNSUPPORTED_PATTERN,
};
use retour_utils::LookupData;

fn ty_tok(kind: TokenKind, text: &str, at: usize) -> Token {
    Token { kind, text: text.to_string(), span: Span(at) }
}

fn ty_hook(name: &str, unsafety: bool, at: usize) -> Attribute {
    let mut tokens = Vec::new();
    if unsafety {
        tokens.push(ty_tok(TokenKind::Ident, "unsafe", at + 1));
    }
    tokens.push(ty_tok(TokenKind::Ident, name, at + 2));
    tokens.push(ty_tok(TokenKind::Punct, ",", at + 3));
    tokens.push(ty_tok(TokenKind::Ident, "offset", at + 4));
    tokens.push(ty_tok(TokenKind::Punct, "=", at + 5));
    tokens.push(ty_tok(TokenKind::Literal, "0x10", at + 6));
    Attribute { path: "hook".to_string(), tokens, span: Span(at) }
}

fn ty_plain_attr(path: &str, at: usize) -> Attribute {
    Attribute { path: path.to_string(), tokens: vec![], span: Span(at) }
}

fn ty_arg(name: &str, ty: &str, at: usize) -> FnArg {
    FnArg::Typed(PatType {
        attrs: String::new(),
        pat: Pat::Ident(PatIdent::plain(name, Span(at))),
        ty: ty.to_string(),
    })
}

fn ty_fn(name: &str, attrs: Vec<Attribute>, unsafety: Option<Span>, inputs: Vec<FnArg>) -> ItemFn {
    ItemFn {
        attrs,
        vis: "pub".to_string(),
        sig: Signature {
            unsafety,
            abi: None,
            ident: Ident { name: name.to_string(), span: Span(100) },
            inputs,
            variadic: None,
            output: "-> i32".to_string(),
        },
        block: "{ 0 }".to_string(),
        span: Span(101),
    }
}

fn ty_pairs(d: &retour_utils::diagnostic::Diagnostic) -> Vec<(Span, String)> {
    d.messages.iter().map(|m| (m.span, m.text.clone())).collect()
}

#[test]
fn a_function_without_annotation_is_kept_whole() {
    let func = ty_fn(
        "left_alone",
        vec![ty_plain_attr("inline", 1), ty_plain_attr("cold", 2)],
        Some(Span(3)),
        vec![ty_arg("foo", "i32", 4)],
    );
    let function = Function::from_syn(&func).unwrap();
    assert!(!function.is_detour_fn());
    assert!(function.get_hook_name().is_none());
    assert!(function.get_hook_vis().is_none());
    assert_eq!(function.detour, None);
    assert_eq!(function.other_attrs, vec![&func.attrs[0], &func.attrs[1]]);
    assert_eq!(function.get_modified_fn_item(), func);
    assert_eq!(function.get_lookup_data_constructor(&LitStr::new("lua52.dll", Span(0))), None);
}

#[test]
fn a_hook_annotation_is_read_and_taken_off() {
    let func = ty_fn(
        "newstate",
        vec![ty_plain_attr("inline", 1), ty_hook("Lua_newstate", true, 10), ty_plain_attr("cold", 2)],
        None,
        vec![ty_arg("f", "*mut c_void", 4), ty_arg("ud", "*mut c_void", 5)],
    );
    let function = Function::from_syn(&func).unwrap();
    assert!(function.is_detour_fn());
    assert_eq!(function.get_hook_name().unwrap().name, "Lua_newstate");
    assert_eq!(function.get_hook_vis().unwrap(), "");
    assert_eq!(function.detour.as_ref().unwrap().unsafety, Some(Span(11)));
    assert_eq!(function.other_attrs, vec![&func.attrs[0], &func.attrs[2]]);
    let emitted = function.get_modified_fn_item();
    assert_eq!(emitted.attrs, vec![func.attrs[0].clone(), func.attrs[2].clone()]);
    assert_eq!(emitted.sig, func.sig);
    assert_eq!(emitted.block, func.block);
    assert_eq!(emitted.vis, func.vis);
    assert_eq!(
        function.get_lookup_data_constructor(&LitStr::new("lua52.dll", Span(0))),
        Some(LookupData::Offset { module: "lua52.dll".to_string(), offset: 0x10 })
    );
    let shape = function.get_type_sig();
    assert_eq!(shape.unsafety, Some(Span(11)));
    assert_eq!(shape.inputs.len(), 2);
    assert_eq!(shape.inputs[1].ty, "*mut c_void");
    assert_eq!(shape.output, "-> i32");
    let names = function.get_arg_names().unwrap();
    assert_eq!(names.len(), 2);
    assert_eq!(names[0], &Pat::Ident(PatIdent::plain("f", Span(4))));
}

#[test]
fn two_annotations_are_refused_with_both_places() {
    let func = ty_fn(
        "newstate",
        vec![ty_hook("A", false, 10), ty_plain_attr("inline", 1), ty_hook("B", false, 20)],
        None,
        vec![],
    );
    let d = Function::from_syn(&func).err().unwrap();
    assert_eq!(
        ty_pairs(&d),
        vec![(Span(20), DUPLICATE_HOOK.to_string()), (Span(10), DUPLICATE_HOOK.to_string())]
    );
}

#[test]
fn repeated_annotations_come_before_a_malformed_one() {
    let broken = Attribute { path: "hook".to_string(), tokens: vec![], span: Span(10) };
    let func = ty_fn("newstate", vec![broken, ty_hook("B", false, 20)], Some(Span(3)), vec![]);
    let d = Function::from_syn(&func).err().unwrap();
    assert_eq!(
        ty_pairs(&d),
        vec![(Span(20), DUPLICATE_HOOK.to_string()), (Span(10), DUPLICATE_HOOK.to_string())]
    );
    let three = ty_fn(
        "newstate",
        vec![ty_hook("A", false, 10), ty_hook("B", false, 20), ty_hook("C", false, 30)],
        None,
        vec![],
    );
    let d = Function::from_syn(&three).err().unwrap();
    assert_eq!(
        ty_pairs(&d),
        vec![(Span(20), DUPLICATE_HOOK.to_string()), (Span(10), DUPLICATE_HOOK.to_string())]
    );
}

#[test]
fn a_malformed_annotation_is_refused() {
    let broken = Attribute {
        path: "hook".to_string(),
        tokens: vec![ty_tok(TokenKind::Ident, "Slot", 11)],
        span: Span(10),
    };
    let func = ty_fn("newstate", vec![broken], None, vec![]);
    let d = Function::from_syn(&func).err().unwrap();
    assert_eq!(ty_pairs(&d), vec![(Span(10), "expected `,`".to_string())]);
}

#[test]
fn an_unsafe_hook_function_is_refused() {
    let func = ty_fn("newstate", vec![ty_hook("Slot", false, 10)], Some(Span(3)), vec![]);
    let d = Function::from_syn(&func).err().unwrap();
    assert_eq!(
        ty_pairs(&d),
        vec![(Span(3), UNSAFE_HOOK.to_string()), (Span(12), UNSAFE_BELONGS_HERE.to_string())]
    );
    let func = ty_fn("newstate", vec![ty_hook("Slot", true, 10)], Some(Span(3)), vec![]);
    let d = Function::from_syn(&func).err().unwrap();
    assert_eq!(
        ty_pairs(&d),
        vec![(Span(3), UNSAFE_TWICE.to_string()), (Span(11), UNSAFE_DECLARED_HERE.to_string())]
    );
    assert!(UNSAFE_HOOK != DUPLICATE_HOOK && UNSAFE_TWICE != DUPLICATE_HOOK);
}

#[test]
fn parameters_that_are_taken_apart_are_refused() {
    let mut inputs = vec![ty_arg("a", "i32", 4)];
    inputs.push(FnArg::Typed(PatType {
        attrs: String::new(),
        pat: Pat::Other { text: "(a, b)".to_string(), span: Span(5) },
        ty: "(i32, i32)".to_string(),
    }));
    inputs.push(FnArg::Receiver(Span(6)));
    let func = ty_fn("newstate", vec![ty_hook("Slot", false, 10)], None, inputs);
    let function = Function::from_syn(&func).unwrap();
    let d = function.get_arg_names().err().unwrap();
    assert_eq!(ty_pairs(&d), vec![(Span(5), UNSUPPORTED_PATTERN.to_string())]);
    let receiver = ty_fn("method", vec![], None, vec![FnArg::Receiver(Span(6)), ty_arg("a", "i32", 4)]);
    let d = fn_arg_names(&receiver.sig).err().unwrap();
    assert_eq!(ty_pairs(&d), vec![(Span(6), String::new())]);
    let d = fn_type_from_sig(&receiver.sig).err().unwrap();
    assert_eq!(ty_pairs(&d), vec![(Span(6), String::new())]);
}

#[test]
fn only_plain_names_are_forwarded() {
    let typed = |pat: Pat| FnArg::Typed(PatType { attrs: String::new(), pat, ty: "Unit".to_string() });
    let path = typed(Pat::Path(Ident { name: "Unit".to_string(), span: Span(7) }));
    let func = ty_fn("f", vec![], None, vec![ty_arg("a", "i32", 4), path]);
    let d = fn_arg_names(&func.sig).err().unwrap();
    assert_eq!(ty_pairs(&d), vec![(Span(7), UNSUPPORTED_PATTERN.to_string())]);
    let by_ref = typed(Pat::Ident(PatIdent { by_ref: Some(Span(8)), ..PatIdent::plain("x", Span(9)) }));
    let func = ty_fn("f", vec![], None, vec![by_ref]);
    let d = fn_arg_names(&func.sig).err().unwrap();
    assert_eq!(ty_pairs(&d), vec![(Span(9), UNSUPPORTED_PATTERN.to_string())]);
    let with_subpattern =
        typed(Pat::Ident(PatIdent { subpat: Some("1..=9".to_string()), ..PatIdent::plain("x", Span(9)) }));
    let func = ty_fn("f", vec![], None, vec![with_subpattern]);
    let d = fn_arg_names(&func.sig).err().unwrap();
    assert_eq!(ty_pairs(&d), vec![(Span(9), UNSUPPORTED_PATTERN.to_string())]);
    let mutable = Pat::Ident(PatIdent { mutability: Some(Span(8)), ..PatIdent::plain("x", Span(9)) });
    let func = ty_fn("f", vec![], None, vec![typed(mutable.clone())]);
    assert_eq!(fn_arg_names(&func.sig).unwrap(), vec![&mutable]);
}

#[test]
fn a_hook_function_with_a_path_pattern_is_refused() {
    let path = FnArg::Typed(PatType {
        attrs: String::new(),
        pat: Pat::Path(Ident { name: "Unit".to_string(), span: Span(7) }),
        ty: "Unit".to_string(),
    });
    let func = ty_fn("newstate", vec![ty_hook("Slot", false, 10)], None, vec![path]);
    let function = Function::from_syn(&func).unwrap();
    let d = function.get_arg_names().err().unwrap();
    assert_eq!(ty_pairs(&d), vec![(Span(7), UNSUPPORTED_PATTERN.to_string())]);
}

#[test]
fn call_shape_of_a_signature_keeps_its_own_unsafety() {
    let func = ty_fn("f", vec![], Some(Span(3)), vec![ty_arg("a", "u8", 4), ty_arg("b", "u16", 5)]);
    let shape = fn_type_from_sig(&func.sig).unwrap();
    assert_eq!(shape.unsafety, Some(Span(3)));
    assert_eq!(shape.abi, None);
    assert_eq!(shape.inputs.iter().map(|i| i.ty.as_str()).collect::<Vec<_>>(), vec!["u8", "u16"]);
    assert_eq!(shape.output, "-> i32");
}

#[test]
fn a_module_is_split_into_functions_and_other_items() {
    let node = ItemMod {
        ident: Ident { name: "lua".to_string(), span: Span(0) },
        content: Some(vec![
            Item::Verbatim("pub const DATA1: usize = 4;".to_string()),
            Item::Fn(ty_fn("hooked", vec![ty_hook("Slot", false, 10)], None, vec![])),
            Item::Verbatim("pub static DATA2: usize = 2;".to_string()),
            Item::Fn(ty_fn("left_alone", vec![], None, vec![ty_arg("foo", "i32", 4)])),
        ]),
    };
    let name = LitStr::new("lua52.dll", Span(1));
    let module = Module::from_syn(&node, &name).unwrap();
    assert_eq!(module.get_module_ident().name, "lua");
    assert_eq!(module.library_name().value, "lua52.dll");
    let items = node.content.as_ref().unwrap();
    assert_eq!(module.get_items(), &vec![&items[0], &items[2]]);
    let fns = module.get_fns();
    assert_eq!(fns.len(), 2);
    assert_eq!(fns[0].original.sig.ident.name, "hooked");
    assert_eq!(fns[1].original.sig.ident.name, "left_alone");
    let hooks = module.get_detour_fns();
    assert_eq!(hooks.len(), 1);
    assert_eq!(hooks[0].original.sig.ident.name, "hooked");
    let normal = module.get_normal_fns();
    assert_eq!(normal.len(), 1);
    assert_eq!(normal[0].original.sig.ident.name, "left_alone");
}

#[test]
fn a_module_reports_its_first_refused_function() {
    let node = ItemMod {
        ident: Ident { name: "lua".to_string(), span: Span(0) },
        content: Some(vec![
            Item::Fn(ty_fn("fine", vec![ty_hook("Slot", false, 10)], None, vec![])),
            Item::Fn(ty_fn("unsafe_one", vec![ty_hook("Slot2", false, 30)], Some(Span(3)), vec![])),
            Item::Fn(ty_fn(
                "twice",
                vec![ty_hook("A", false, 50), ty_hook("B", false, 60)],
                None,
                vec![],
            )),
        ]),
    };
    let name = LitStr::new("lua52.dll", Span(1));
    let d = Module::from_syn(&node, &name).err().unwrap();
    assert_eq!(
        ty_pairs(&d),
        vec![(Span(3), UNSAFE_HOOK.to_string()), (Span(32), UNSAFE_BELONGS_HERE.to_string())]
    );
}

#[test]
fn a_module_without_a_body_is_empty() {
    let node = ItemMod { ident: Ident { name: "lua".to_string(), span: Span(0) }, content: None };
    let name = LitStr::new("lua52.dll", Span(1));
    let module = Module::from_syn(&node, &name).unwrap();
    assert!(module.get_fns().is_empty());
    assert!(module.get_items().is_empty());
}
