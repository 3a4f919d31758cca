use retour_utils::crate_refs::{parent_crate, retour_crate, FoundCrate};
use retour_utils::fold::{DetourInfo, Detours};
use retour_utils::helpers::{
    allow_attr, allow_attr_of, fn_type, static_detour_ty, str_type_from_span,
};
use retour_utils::parse::HookAttributeArgs;
use retour_utils::syntax::{
    Attribute, FnArg, GenericArgument, Ident, ItemFn, LitStr, Pat, PatIdent, PatType, Signature, Span, Type,
};
use retour_utils::token::{Token, TokenKind};
use retour_utils::LookupData;

fn he_tok(kind: TokenKind, text: &str, at: usize) -> Token {
    Token { kind, text: text.to_string(), span: Span(at) }
}

fn he_hook_tokens(name: &str) -> Vec<Token> {
    vec![
        he_tok(TokenKind::Ident, "unsafe", 11),
        he_tok(TokenKind::Ident, "extern", 12),
        he_tok(TokenKind::Literal, "\"C\"", 13),
        he_tok(TokenKind::Ident, name, 14),
        he_tok(TokenKind::Punct, ",", 15),
        he_tok(TokenKind::Ident, "offset", 16),
        he_tok(TokenKind::Punct, "=", 17),
        he_tok(TokenKind::Literal, "32", 18),
    ]
}

fn he_sig(name: &str) -> Signature {
    Signature {
        unsafety: None,
        abi: None,
        ident: Ident { name: name.to_string(), span: Span(100) },
        inputs: vec![FnArg::Typed(PatType {
            attrs: String::new(),
            pat: Pat::Ident(PatIdent::plain("state", Span(4))),
            ty: "*mut lua_State".to_string(),
        })],
        variadic: None,
        output: String::new(),
    }
}

#[test]
fn crate_names_become_identifiers() {
    assert_eq!(retour_crate(&FoundCrate::Itself).name, "retour");
    assert_eq!(retour_crate(&FoundCrate::Name("detour".to_string())).name, "detour");
    assert_eq!(parent_crate(&FoundCrate::Itself).name, "retour_utils");
    assert_eq!(parent_crate(&FoundCrate::Name("my-retour-utils".to_string())).name, "my_retour_utils");
    assert_eq!(parent_crate(&FoundCrate::Name("détour-ü".to_string())).name, "détour_ü");
    assert_eq!(parent_crate(&FoundCrate::Itself).span, Span::call_site());
}

#[test]
fn str_type_is_a_reference_to_str() {
    match str_type_from_span(Span(7)) {
        Type::Reference { elem, span } => {
            assert_eq!(span, Span(7));
            assert_eq!(elem.leading_colon, None);
            assert_eq!(elem.segments.len(), 1);
            assert_eq!(elem.segments[0].ident, Ident { name: "str".to_string(), span: Span(7) });
            assert!(elem.segments[0].arguments.is_empty());
        }
        other => panic!("{:?}", other),
    }
}

#[test]
fn allow_attribute_lists_its_lints() {
    let attr = allow_attr(&vec!["unused".to_string(), "dead_code".to_string()]);
    assert_eq!(attr.path, "allow");
    assert_eq!(
        attr.tokens.iter().map(|t| (t.kind, t.text.as_str())).collect::<Vec<_>>(),
        vec![
            (TokenKind::Literal, "\"unused\""),
            (TokenKind::Punct, ","),
            (TokenKind::Literal, "\"dead_code\""),
        ]
    );
    assert!(allow_attr(&vec![]).tokens.is_empty());
    let written = allow_attr(&vec!["a\"b".to_string()]);
    assert_eq!(written.tokens[0].text, "\"a\\\"b\"");
}

#[test]
fn allow_attribute_is_made_of_the_literals_it_is_given() {
    let attr = allow_attr_of(vec!["\"one\"".to_string(), "2".to_string(), "three".to_string()]);
    assert_eq!(attr.path, "allow");
    assert_eq!(attr.span, Span::call_site());
    assert_eq!(
        attr.tokens.iter().map(|t| (t.kind, t.text.as_str(), t.span)).collect::<Vec<_>>(),
        vec![
            (TokenKind::Literal, "\"one\"", Span(0)),
            (TokenKind::Punct, ",", Span(0)),
            (TokenKind::Literal, "2", Span(0)),
            (TokenKind::Punct, ",", Span(0)),
            (TokenKind::Literal, "three", Span(0)),
        ]
    );
    assert!(allow_attr_of(vec![]).tokens.is_empty());
}

#[test]
fn slot_type_wraps_the_call_shape() {
    let hook_attr = HookAttributeArgs::parse(&he_hook_tokens("Slot"), Span(10)).unwrap();
    let info = DetourInfo { hook_attr: hook_attr.clone(), fn_sig: he_sig("close") };
    let shape = match fn_type(&info.fn_sig, &hook_attr) {
        Type::BareFn(shape) => shape,
        other => panic!("{:?}", other),
    };
    assert_eq!(shape.unsafety, Some(Span(11)));
    assert_eq!(shape.abi.as_ref().unwrap().name.as_deref(), Some("C"));
    assert_eq!(shape.inputs.len(), 1);
    assert_eq!(shape.inputs[0].ty, "*mut lua_State");
    assert_eq!(shape.output, "");
    match static_detour_ty(&info, &Ident::new("retour", Span(0))) {
        Type::Path(path) => {
            assert_eq!(path.leading_colon, Some(Span(10)));
            assert_eq!(path.segments.len(), 2);
            assert_eq!(path.segments[0].ident.name, "retour");
            assert_eq!(path.segments[1].ident.name, "StaticDetour");
            assert_eq!(path.segments[1].arguments, vec![GenericArgument::BareFn(shape)]);
        }
        other => panic!("{:?}", other),
    }
}

#[test]
fn folding_collects_the_hooks_of_each_function() {
    let mut detours = Detours::new(LitStr::new("lua52.dll", Span(1)));
    let keep = Attribute { path: "inline".to_string(), tokens: vec![], span: Span(2) };
    let hook = Attribute { path: "hook".to_string(), tokens: he_hook_tokens("Slot"), span: Span(10) };
    let broken = Attribute { path: "hook".to_string(), tokens: vec![], span: Span(30) };
    let item = ItemFn {
        attrs: vec![keep.clone(), hook, broken],
        vis: String::new(),
        sig: he_sig("close"),
        block: "{}".to_string(),
        span: Span(101),
    };
    let folded = detours.fold_item_fn(item.clone());
    assert_eq!(folded, ItemFn { attrs: vec![keep], ..item.clone() });
    assert_eq!(detours.detours.len(), 1);
    assert_eq!(detours.detours[0].fn_sig, item.sig);
    assert_eq!(detours.detours[0].hook_attr.detour_name.name, "Slot");
    let plain = ItemFn { attrs: vec![], ..item.clone() };
    assert_eq!(detours.fold_item_fn(plain.clone()), plain);
    assert_eq!(detours.detours.len(), 1);

    let krate = Ident::new("retour", Span(0));
    let parent = Ident::new("retour_utils", Span(0));
    let decls = detours.generate_detour_decls(&krate);
    assert_eq!(decls.len(), 1);
    assert_eq!(decls[0], detours.detours[0].get_static_detour(&krate));
    assert_eq!(decls[0].trampoline.sig, detours.detours[0].target_fn_decl());
    assert_eq!(decls[0].trampoline.sig.ident.name, "__ffi_detour");
    assert_eq!(decls[0].trampoline.sig.unsafety, Some(Span(11)));
    assert_eq!(decls[0].trampoline.args.len(), 1);
    let routine = detours.generate_init_detours(&parent, &krate);
    assert_eq!(routine.krate_name.name, "retour_utils");
    assert_eq!(routine.init_funcs.len(), 1);
    assert_eq!(
        routine.init_funcs[0].lookup,
        LookupData::Offset { module: "lua52.dll".to_string(), offset: 32 }
    );
    assert_eq!(routine.init_funcs[0].orig_func_name.name, "close");
    assert_eq!(
        routine.init_funcs[0],
        detours.detours[0].generate_detour_init(&detours.module_name, &parent, &krate)
    );
    let name = detours.get_module_name_decl();
    assert_eq!(name.ident.name, "MODULE_NAME");
    assert_eq!(name.value.value, "lua52.dll");
    assert_eq!(name.ty, str_type_from_span(Span(1)));
    assert_eq!(name.allow.path, "allow");
    assert_eq!(
        name.allow.tokens,
        vec![Token { kind: TokenKind::Ident, text: "unused".to_string(), span: Span(1) }]
    );
}
