use retour_utils::diagnostic::Diagnostic;
use retour_utils::expand::{
    expand, expand_detour_def, expand_init_detour, expand_init_detours_fn, parse_module_name,
    parse_module_name_read,
    LIBRARY_NAME_EXPECTED, TRAMPOLINE_NAME,
};
use retour_utils::hook_module;
use retour_utils::syntax::{
    Abi, Attribute, FnArg, Ident, Item, ItemFn, ItemMod, LitStr, Pat, PatIdent, PatType, Signature, Span,
};
use retour_utils::token::{Reading, Token, TokenKind};
use retour_utils::types::{Function, Module, DUPLICATE_HOOK, UNSAFE_HOOK, UNSUPPORTED_PATTERN};
use retour_utils::LookupData;

fn ex_tok(kind: TokenKind, text: &str, at: usize) -> Token {
    Token { kind, text: text.to_string(), span: Span(at) }
}

fn ex_hook(prefix: &[&str], name: &str, key: &str, value: &str, at: usize) -> Attribute {
    let mut tokens = Vec::new();
    for (i, word) in prefix.iter().enumerate() {
        let kind = if word.starts_with('"') { TokenKind::Literal } else { TokenKind::Ident };
        tokens.push(ex_tok(kind, word, at + 1 + i));
    }
    tokens.push(ex_tok(TokenKind::Ident, name, at + 10));
    tokens.push(ex_tok(TokenKind::Punct, ",", at + 11));
    tokens.push(ex_tok(TokenKind::Ident, key, at + 12));
    tokens.push(ex_tok(TokenKind::Punct, "=", at + 13));
    tokens.push(ex_tok(TokenKind::Literal, value, at + 14));
    Attribute { path: "hook".to_string(), tokens, span: Span(at) }
}

fn ex_arg(name: &str, ty: &str, at: usize) -> FnArg {
    FnArg::Typed(PatType {
        attrs: String::new(),
        pat: Pat::Ident(PatIdent::plain(name, Span(at))),
        ty: ty.to_string(),
    })
}

fn ex_fn(name: &str, attrs: Vec<Attribute>, inputs: Vec<FnArg>, at: usize) -> ItemFn {
    ItemFn {
        attrs,
        vis: "pub".to_string(),
        sig: Signature {
            unsafety: None,
            abi: None,
            ident: Ident { name: name.to_string(), span: Span(at) },
            inputs,
            variadic: None,
            output: "-> i32".to_string(),
        },
        block: "{ foo }".to_string(),
        span: Span(at + 1),
    }
}

fn ex_module(items: Vec<Item>) -> ItemMod {
    ItemMod { ident: Ident { name: "lua".to_string(), span: Span(0) }, content: Some(items) }
}

fn ex_crates() -> (Ident, Ident) {
    (Ident::new("retour_utils", Span(0)), Ident::new("retour", Span(0)))
}

fn ex_pairs(d: &Diagnostic) -> Vec<(Span, String)> {
    d.messages.iter().map(|m| (m.span, m.text.clone())).collect()
}

fn ex_name_tokens(text: &str) -> Vec<Token> {
    vec![ex_tok(TokenKind::Literal, text, 1)]
}

#[test]
fn tests() {
    let (parent, krate) = ex_crates();
    // Items that are not hooks are retained.
    let left_alone = ex_fn("left_alone", vec![], vec![ex_arg("foo", "i32", 5)], 200);
    let input = ex_module(vec![
        Item::Fn(left_alone.clone()),
        Item::Verbatim("pub const DATA1: usize = 4;".to_string()),
        Item::Verbatim("pub static DATA2: usize = 2;".to_string()),
    ]);
    let emitted =
        hook_module(&ex_name_tokens("\"lua52.dll\""), Span(9), &input, &parent, &krate).unwrap();
    assert_eq!(
        emitted.items,
        vec![
            Item::Verbatim("pub const DATA1: usize = 4;".to_string()),
            Item::Verbatim("pub static DATA2: usize = 2;".to_string()),
        ]
    );
    assert_eq!(emitted.funcs, vec![left_alone]);
    assert!(emitted.detours_defs.is_empty());
    assert!(emitted.init_detours_fn.init_funcs.is_empty());
    assert_eq!(emitted.library_name.value, "lua52.dll");
    assert_eq!(emitted.mod_name.name, "lua");
    // The module name is required.
    let d = hook_module(&vec![], Span(9), &input, &parent, &krate).err().unwrap();
    assert_eq!(ex_pairs(&d), vec![(Span(9), LIBRARY_NAME_EXPECTED.to_string())]);
}

#[test]
fn build_abi_types() {
    let (parent, krate) = ex_crates();
    let abis: Vec<(Vec<&str>, Option<Abi>, Option<Span>)> = vec![
        (vec![], None, None),
        (vec!["extern", "\"C\""], Some(Abi { name: Some("C".to_string()), span: Span(11) }), None),
        (
            vec!["unsafe", "extern", "\"system\""],
            Some(Abi { name: Some("system".to_string()), span: Span(12) }),
            Some(Span(11)),
        ),
        (
            vec!["extern", "\"stdcall\""],
            Some(Abi { name: Some("stdcall".to_string()), span: Span(11) }),
            None,
        ),
        (vec!["unsafe", "extern"], Some(Abi { name: None, span: Span(12) }), Some(Span(11))),
    ];
    for (prefix, abi, unsafety) in abis {
        let hooked = ex_fn(
            "newstate",
            vec![ex_hook(&prefix, "Lua_newstate", "offset", "0x10", 10)],
            vec![ex_arg("f", "i32", 5)],
            200,
        );
        let input = ex_module(vec![Item::Fn(hooked)]);
        let emitted = expand(&input, &LitStr::new("lua52.dll", Span(1)), &parent, &krate).unwrap();
        assert_eq!(emitted.detours_defs.len(), 1);
        let def = &emitted.detours_defs[0];
        assert_eq!(def.shape.abi, abi);
        assert_eq!(def.shape.unsafety, unsafety);
        assert_eq!(def.trampoline.sig.abi, abi);
        assert_eq!(def.trampoline.sig.unsafety, unsafety);
    }
}

#[test]
fn a_hook_gets_a_slot_a_trampoline_and_an_activation_statement() {
    let (parent, krate) = ex_crates();
    let hooked = ex_fn(
        "newstate",
        vec![ex_hook(&["pub", "unsafe", "extern", "\"C\""], "Lua_newstate", "symbol", "\"lua_newstate\"", 10)],
        vec![ex_arg("f", "lua_Alloc", 5), ex_arg("ud", "*mut c_void", 6)],
        200,
    );
    let input = ex_module(vec![Item::Fn(hooked.clone())]);
    let emitted = expand(&input, &LitStr::new("lua52.dll", Span(1)), &parent, &krate).unwrap();
    let def = &emitted.detours_defs[0];
    assert_eq!(def.vis, "pub");
    assert_eq!(def.name, Ident { name: "Lua_newstate".to_string(), span: Span(20) });
    assert_eq!(def.krate.name, "retour");
    assert_eq!(def.shape.inputs.iter().map(|i| i.ty.as_str()).collect::<Vec<_>>(), vec![
        "lua_Alloc",
        "*mut c_void"
    ]);
    assert_eq!(def.shape.output, "-> i32");
    assert_eq!(def.trampoline.sig.ident, Ident { name: TRAMPOLINE_NAME.to_string(), span: Span(200) });
    assert_eq!(def.trampoline.sig.inputs, hooked.sig.inputs);
    assert_eq!(def.trampoline.sig.output, "-> i32");
    assert_eq!(def.trampoline.slot.name, "Lua_newstate");
    assert_eq!(def.trampoline.args, vec![
        Pat::Ident(PatIdent::plain("f", Span(5))),
        Pat::Ident(PatIdent::plain("ud", Span(6))),
    ]);
    let steps = &emitted.init_detours_fn.init_funcs;
    assert_eq!(steps.len(), 1);
    assert_eq!(
        steps[0].lookup,
        LookupData::Symbol { module: "lua52.dll".to_string(), symbol: "lua_newstate".to_string() }
    );
    assert_eq!(steps[0].detour_name.name, "Lua_newstate");
    assert_eq!(steps[0].orig_func_name.name, "newstate");
    assert_eq!(steps[0].parent_krate.name, "retour_utils");
    assert_eq!(steps[0].detour_krate.name, "retour");
    assert_eq!(emitted.init_detours_fn.krate_name.name, "retour_utils");
    assert_eq!(emitted.funcs.len(), 1);
    assert!(emitted.funcs[0].attrs.is_empty());
    assert_eq!(emitted.funcs[0].sig, hooked.sig);
}

#[test]
fn activation_statements_keep_the_declaration_order() {
    let (parent, krate) = ex_crates();
    let input = ex_module(vec![
        Item::Fn(ex_fn("first", vec![ex_hook(&[], "First", "offset", "16", 10)], vec![], 200)),
        Item::Verbatim("struct Between;".to_string()),
        Item::Fn(ex_fn("plain", vec![], vec![], 210)),
        Item::Fn(ex_fn("second", vec![ex_hook(&[], "Second", "symbol", "\"s\"", 40)], vec![], 220)),
    ]);
    let emitted = expand(&input, &LitStr::new("m", Span(1)), &parent, &krate).unwrap();
    let steps = &emitted.init_detours_fn.init_funcs;
    assert_eq!(
        steps.iter().map(|s| s.lookup.clone()).collect::<Vec<_>>(),
        vec![
            LookupData::Offset { module: "m".to_string(), offset: 16 },
            LookupData::Symbol { module: "m".to_string(), symbol: "s".to_string() },
        ]
    );
    assert_eq!(
        emitted.detours_defs.iter().map(|d| d.name.name.as_str()).collect::<Vec<_>>(),
        vec!["First", "Second"]
    );
    assert_eq!(
        emitted.funcs.iter().map(|f| f.sig.ident.name.as_str()).collect::<Vec<_>>(),
        vec!["first", "plain", "second"]
    );
}

#[test]
fn plain_items_and_plain_functions_round_trip() {
    let (parent, krate) = ex_crates();
    let plain = ItemFn {
        attrs: vec![Attribute {
            path: "doc".to_string(),
            tokens: vec![
                ex_tok(TokenKind::Punct, "=", 2),
                ex_tok(TokenKind::Literal, "\" keeps its attributes\"", 3),
            ],
            span: Span(1),
        }],
        ..ex_fn("left_alone", vec![], vec![ex_arg("foo", "i32", 5)], 200)
    };
    let input = ex_module(vec![
        Item::Verbatim("pub const DATA1: usize = 4;".to_string()),
        Item::Fn(plain.clone()),
    ]);
    let emitted = expand(&input, &LitStr::new("m", Span(1)), &parent, &krate).unwrap();
    assert_eq!(emitted.items, vec![Item::Verbatim("pub const DATA1: usize = 4;".to_string())]);
    assert_eq!(emitted.funcs, vec![plain]);
}

#[test]
fn refusals_surface_from_the_whole_compiler() {
    let (parent, krate) = ex_crates();
    let name = LitStr::new("m", Span(1));
    let twice = ex_module(vec![Item::Fn(ex_fn(
        "twice",
        vec![ex_hook(&[], "A", "offset", "1", 10), ex_hook(&[], "B", "offset", "2", 40)],
        vec![],
        200,
    ))]);
    let d = expand(&twice, &name, &parent, &krate).err().unwrap();
    assert_eq!(
        ex_pairs(&d),
        vec![(Span(40), DUPLICATE_HOOK.to_string()), (Span(10), DUPLICATE_HOOK.to_string())]
    );
    let mut unsafe_fn = ex_fn("bad", vec![ex_hook(&[], "A", "offset", "1", 10)], vec![], 200);
    unsafe_fn.sig.unsafety = Some(Span(3));
    let d = expand(&ex_module(vec![Item::Fn(unsafe_fn)]), &name, &parent, &krate).err().unwrap();
    assert_eq!(ex_pairs(&d)[0], (Span(3), UNSAFE_HOOK.to_string()));
    let destructured = FnArg::Typed(PatType {
        attrs: String::new(),
        pat: Pat::Other { text: "(a, b)".to_string(), span: Span(7) },
        ty: "(i32, i32)".to_string(),
    });
    let pattern =
        ex_fn("bad", vec![ex_hook(&[], "A", "offset", "1", 10)], vec![destructured.clone()], 200);
    let d = expand(&ex_module(vec![Item::Fn(pattern)]), &name, &parent, &krate).err().unwrap();
    assert_eq!(ex_pairs(&d), vec![(Span(7), UNSUPPORTED_PATTERN.to_string())]);
    let path = FnArg::Typed(PatType {
        attrs: String::new(),
        pat: Pat::Path(Ident { name: "Unit".to_string(), span: Span(8) }),
        ty: "Unit".to_string(),
    });
    let pattern = ex_fn("bad", vec![ex_hook(&[], "A", "offset", "1", 10)], vec![path], 200);
    let d = expand(&ex_module(vec![Item::Fn(pattern)]), &name, &parent, &krate).err().unwrap();
    assert_eq!(ex_pairs(&d), vec![(Span(8), UNSUPPORTED_PATTERN.to_string())]);
    // A function that is no hook may take its arguments apart.
    let plain = ex_fn("fine", vec![], vec![destructured], 200);
    assert!(expand(&ex_module(vec![Item::Fn(plain)]), &name, &parent, &krate).is_ok());
    let bad_offset =
        ex_fn("bad", vec![ex_hook(&[], "A", "offset", "0xzz", 10)], vec![], 200);
    let d = expand(&ex_module(vec![Item::Fn(bad_offset)]), &name, &parent, &krate).err().unwrap();
    assert_eq!(ex_pairs(&d)[0].0, Span(24));
}

#[test]
fn the_module_annotation_is_one_string_literal() {
    assert_eq!(
        parse_module_name(&ex_name_tokens("\"lua5\\u{32}.dll\""), Span(9)),
        Ok(LitStr { value: "lua52.dll".to_string(), span: Span(1) })
    );
    let refused = |tokens: Vec<Token>, at: usize| {
        let d = parse_module_name(&tokens, Span(9)).err().unwrap();
        assert_eq!(ex_pairs(&d), vec![(Span(at), LIBRARY_NAME_EXPECTED.to_string())]);
    };
    refused(vec![], 9);
    refused(ex_name_tokens("\"\""), 1);
    refused(ex_name_tokens("42"), 1);
    let blank = Reading {
        identifier: false,
        restriction: false,
        string: None,
        integer: None,
        suffix: String::new(),
    };
    let read = vec![Reading { string: Some("lua52.dll".to_string()), ..blank.clone() }];
    assert_eq!(
        parse_module_name_read(&ex_name_tokens("anything"), &read, Span(9)),
        Ok(LitStr { value: "lua52.dll".to_string(), span: Span(1) })
    );
    let d = parse_module_name_read(&ex_name_tokens("\"lua52.dll\""), &vec![], Span(9)).err().unwrap();
    assert_eq!(ex_pairs(&d), vec![(Span(1), LIBRARY_NAME_EXPECTED.to_string())]);
    let empty = vec![Reading { string: Some(String::new()), ..blank }];
    let d = parse_module_name_read(&ex_name_tokens("\"x\""), &empty, Span(9)).err().unwrap();
    assert_eq!(ex_pairs(&d), vec![(Span(1), LIBRARY_NAME_EXPECTED.to_string())]);
    refused(vec![ex_tok(TokenKind::Ident, "MODULE", 4)], 4);
    refused(
        vec![
            ex_tok(TokenKind::Literal, "\"a\"", 1),
            ex_tok(TokenKind::Punct, ",", 2),
            ex_tok(TokenKind::Literal, "\"b\"", 3),
        ],
        2,
    );
}

#[test]
fn single_pieces_are_emitted_for_one_hook() {
    let (parent, krate) = ex_crates();
    let hooked =
        ex_fn("newstate", vec![ex_hook(&[], "Slot", "offset", "0x10", 10)], vec![ex_arg("a", "u8", 5)], 200);
    let function = Function::from_syn(&hooked).unwrap();
    let def = expand_detour_def(&function, &krate).unwrap();
    assert_eq!(def.name.name, "Slot");
    assert_eq!(def.span, Span(20));
    let step = expand_init_detour(&function, &LitStr::new("m", Span(1)), &parent, &krate);
    assert_eq!(step.lookup, LookupData::Offset { module: "m".to_string(), offset: 16 });
    assert_eq!(step.span, Span(201));
    let node = ex_module(vec![Item::Fn(hooked.clone()), Item::Fn(ex_fn("plain", vec![], vec![], 300))]);
    let name = LitStr::new("m", Span(1));
    let module = Module::from_syn(&node, &name).unwrap();
    let routine = expand_init_detours_fn(&name, &module.get_fns(), &parent, &krate);
    assert_eq!(routine.init_funcs, vec![step]);
}
