//! Emission: from a checked module to the slot definitions, the trampolines
//! and the activation routine.

use vstd::prelude::*;
use crate::diagnostic::Diagnostic;
use crate::output::{
    Expansion,
    ExpansionView,
    InitDetour,
    InitDetourView,
    InitDetoursFn,
    InitDetoursFnView,
    StaticDetour,
    StaticDetourView,
    Trampoline,
    TrampolineView,
    detour_views,
    fn_views,
    init_views,
};
use crate::parse::{
    HookAttributeArgs,
    HookAttributeArgsView,
    Refusal,
    agrees,
    is_str_literal,
    reading_at,
    lookup_for,
};
use crate::syntax::{
    Abi,
    FnArg,
    Ident,
    IdentView,
    Item,
    ItemFn,
    ItemFnView,
    ItemMod,
    LitStr,
    LitStrView,
    Pat,
    Signature,
    SignatureView,
    Span,
    abi_view,
    attr_views,
    item_views,
};
use crate::token::{
    Reading,
    ReadingView,
    Token,
    TokenKind,
    read_tokens,
    reading_views,
    readings_of,
};
use crate::types::{
    Function,
    Module,
    all_typed,
    arg_names,
    call_shape,
    fns_of,
    forwards,
    function_check,
    hooks_of,
    items_of,
    lemma_accepted_functions_accept_module,
    lemma_duplicate_hooks_refused,
    lemma_first_refusal_is_reported,
    lemma_no_hooks_keeps_attrs,
    lemma_refused_function_refuses_module,
    lemma_unsafe_hook_refused,
    module_refusal,
    others_of,
    plain_items_of,
    pointees,
};

verus! {

/// The name of every trampoline.
pub const TRAMPOLINE_NAME: &'static str = "__ffi_detour";

/// The signature of the trampoline of a hook: the parameters and the return
/// type of the hook function, under the trampoline's name, with the unsafety
/// and the calling convention of the target.
pub open spec fn trampoline_sig(sig: SignatureView, hook: HookAttributeArgsView) -> SignatureView {
    SignatureView {
        unsafety: hook.unsafety,
        abi: hook.abi,
        ident: IdentView { name: TRAMPOLINE_NAME@, span: sig.ident.span },
        ..sig
    }
}

/// The slot definition of a hook function, or the refusal of the first
/// parameter that the trampoline cannot forward.
pub open spec fn detour_def(
    sig: SignatureView,
    hook: HookAttributeArgsView,
    krate: IdentView,
) -> Result<StaticDetourView, Refusal> {
    match arg_names(sig.inputs) {
        Err(refusal) => Err(refusal),
        Ok(names) => Ok(
            StaticDetourView {
                vis: hook.vis,
                name: hook.detour_name,
                krate,
                shape: call_shape(sig, hook.unsafety, hook.abi),
                trampoline: TrampolineView {
                    sig: trampoline_sig(sig, hook),
                    slot: hook.detour_name,
                    args: names,
                },
                span: hook.detour_name.span,
            },
        ),
    }
}

/// The activation statement of a hook function.
pub open spec fn init_step(
    func: ItemFn,
    hook: HookAttributeArgsView,
    library: Seq<char>,
    parent: IdentView,
    krate: IdentView,
) -> InitDetourView {
    InitDetourView {
        lookup: lookup_for(hook.hook_info, library),
        detour_name: hook.detour_name,
        orig_func_name: func.sig.ident@,
        parent_krate: parent,
        detour_krate: krate,
        span: func.span,
    }
}

/// Parameters that can all be forwarded all have a type.
pub proof fn lemma_forwarded_are_typed(inputs: Seq<FnArg>)
    requires
        arg_names(inputs) is Ok,
    ensures
        all_typed(inputs),
        arg_names(inputs)->Ok_0.len() == inputs.len(),
        forall|i: int| 0 <= i < inputs.len() ==> forwards(#[trigger] inputs[i]),
    decreases inputs.len(),
{
    if inputs.len() > 0 {
        lemma_forwarded_are_typed(inputs.drop_last());
        assert forall|i: int| 0 <= i < inputs.len() implies forwards(#[trigger] inputs[i]) by {
            if i < inputs.len() - 1 {
                assert(inputs.drop_last()[i] == inputs[i]);
            }
        }
    }
}

fn duplicate_pats(names: &Vec<&Pat>) -> (r: Vec<Pat>)
    ensures
        r@ == pointees(names@),
{
    let mut out: Vec<Pat> = Vec::new();
    let mut i: usize = 0;
    while i < names.len()
        invariant
            i <= names.len(),
            out@ == pointees(names@).take(i as int),
        decreases names.len() - i,
    {
        out.push(names[i].duplicate());
        i += 1;
    }
    out
}

fn duplicate_abi(hook: &HookAttributeArgs) -> (r: Option<Abi>)
    ensures
        abi_view(r) == abi_view(hook.abi),
{
    match &hook.abi {
        Some(a) => Some(a.duplicate()),
        None => None,
    }
}

/// Emits the slot definition of a hook function, with its trampoline.
pub fn expand_detour_def(detour_func: &Function, detour_krate: &Ident) -> (r: Result<
    StaticDetour,
    Diagnostic,
>)
    requires
        detour_func.detour is Some,
    ensures
        match r {
            Ok(def) => detour_def(detour_func.original.sig@, detour_func.detour->0@, detour_krate@)
                == Ok::<_, Refusal>(def@),
            Err(d) => detour_def(detour_func.original.sig@, detour_func.detour->0@, detour_krate@)
                is Err && d@ == seq![
                detour_def(detour_func.original.sig@, detour_func.detour->0@, detour_krate@)->Err_0,
            ],
        },
{
    let hook = detour_func.detour.as_ref().unwrap();
    let sig = &detour_func.original.sig;
    let arg_names = match detour_func.get_arg_names() {
        Err(d) => {
            return Err(d);
        },
        Ok(names) => names,
    };
    proof {
        lemma_forwarded_are_typed(sig.inputs@);
    }
    let type_sig = detour_func.get_type_sig();
    let inputs = sig.duplicate();
    let func_decl = Signature {
        unsafety: hook.unsafety,
        abi: duplicate_abi(hook),
        ident: Ident::new(TRAMPOLINE_NAME, sig.ident.span),
        inputs: inputs.inputs,
        variadic: inputs.variadic,
        output: inputs.output,
    };
    Ok(
        StaticDetour {
            vis: hook.vis.clone(),
            name: hook.detour_name.duplicate(),
            krate: detour_krate.duplicate(),
            shape: type_sig,
            trampoline: Trampoline {
                sig: func_decl,
                slot: hook.detour_name.duplicate(),
                args: duplicate_pats(&arg_names),
            },
            span: hook.detour_name.span,
        },
    )
}

/// Emits the activation statement of a hook function.
pub fn expand_init_detour(
    detour_fn: &Function,
    library_name: &LitStr,
    parent_krate: &Ident,
    detour_krate: &Ident,
) -> (r: InitDetour)
    requires
        detour_fn.detour is Some,
    ensures
        r@ == init_step(
            *detour_fn.original,
            detour_fn.detour->0@,
            library_name.value@,
            parent_krate@,
            detour_krate@,
        ),
{
    let hook = detour_fn.detour.as_ref().unwrap();
    InitDetour {
        lookup: hook.hook_info.get_lookup_data_new_fn(library_name),
        detour_name: hook.detour_name.duplicate(),
        orig_func_name: detour_fn.original.sig.ident.duplicate(),
        parent_krate: parent_krate.duplicate(),
        detour_krate: detour_krate.duplicate(),
        span: detour_fn.original.span,
    }
}


/// What the hook annotation of an accepted function says; nothing for a
/// function that is no hook.
pub open spec fn hook_of(func: ItemFn) -> Option<HookAttributeArgsView> {
    match function_check(func) {
        Ok(hook) => hook,
        Err(_) => None,
    }
}

/// A function as it is emitted: without its hook annotations, and otherwise
/// as it was written.
pub open spec fn modified(func: ItemFn) -> ItemFnView {
    ItemFnView {
        attrs: attr_views(others_of(func.attrs@)),
        ..func@
    }
}

/// The emitted functions, in order.
pub open spec fn modified_fns(fns: Seq<ItemFn>) -> Seq<ItemFnView> {
    fns.map_values(|func: ItemFn| modified(func))
}

/// The slot definitions of the hook functions in declaration order, or the
/// refusal of the first that has none.
pub open spec fn detour_defs(fns: Seq<ItemFn>, krate: IdentView) -> Result<
    Seq<StaticDetourView>,
    Refusal,
>
    decreases fns.len(),
{
    if fns.len() == 0 {
        Ok(Seq::empty())
    } else {
        match detour_defs(fns.drop_last(), krate) {
            Err(refusal) => Err(refusal),
            Ok(defs) => match hook_of(fns.last()) {
                None => Ok(defs),
                Some(hook) => match detour_def(fns.last().sig@, hook, krate) {
                    Err(refusal) => Err(refusal),
                    Ok(def) => Ok(defs.push(def)),
                },
            },
        }
    }
}

/// The activation statements of the hook functions, in declaration order.
pub open spec fn init_steps(
    fns: Seq<ItemFn>,
    library: Seq<char>,
    parent: IdentView,
    krate: IdentView,
) -> Seq<InitDetourView>
    decreases fns.len(),
{
    if fns.len() == 0 {
        Seq::empty()
    } else {
        let before = init_steps(fns.drop_last(), library, parent, krate);
        match hook_of(fns.last()) {
            None => before,
            Some(hook) => before.push(init_step(fns.last(), hook, library, parent, krate)),
        }
    }
}

/// A refusal among the first functions is the refusal of them all.
pub proof fn lemma_detour_defs_refused(fns: Seq<ItemFn>, krate: IdentView, n: int)
    requires
        0 <= n <= fns.len(),
        detour_defs(fns.take(n), krate) is Err,
    ensures
        detour_defs(fns, krate) == detour_defs(fns.take(n), krate),
    decreases fns.len(),
{
    if n == fns.len() {
        assert(fns.take(n) =~= fns);
    } else {
        assert(fns.drop_last().take(n) =~= fns.take(n));
        lemma_detour_defs_refused(fns.drop_last(), krate, n);
    }
}

/// Whether every function of the list was accepted.
pub open spec fn all_wf<'a>(fns: Seq<&Function<'a>>) -> bool {
    forall|i: int| 0 <= i < fns.len() ==> (#[trigger] fns[i]).wf()
}

/// The functions of the list as they were written.
pub open spec fn written<'a>(fns: Seq<&Function<'a>>) -> Seq<ItemFn> {
    fns.map_values(|func: &Function<'a>| *func.original)
}

/// Emits the functions without their hook annotations.
fn expand_fns(fns: &Vec<&Function>) -> (r: Vec<ItemFn>)
    requires
        all_wf(fns@),
    ensures
        fn_views(r@) == modified_fns(written(fns@)),
{
    let mut out: Vec<ItemFn> = Vec::new();
    let mut i: usize = 0;
    let ghost goal = modified_fns(written(fns@));
    while i < fns.len()
        invariant
            i <= fns.len(),
            all_wf(fns@),
            goal == modified_fns(written(fns@)),
            fn_views(out@) == goal.take(i as int),
        decreases fns.len() - i,
    {
        let ghost before = out@;
        let item = fns[i].get_modified_fn_item();
        out.push(item);
        assert(fn_views(out@) =~= fn_views(before).push(item@));
        i += 1;
    }
    out
}

/// Emits the slot definitions of the hook functions among `fns`.
fn expand_detour_defs(fns: &Vec<&Function>, detour_krate: &Ident) -> (r: Result<
    Vec<StaticDetour>,
    Diagnostic,
>)
    requires
        all_wf(fns@),
    ensures
        match r {
            Ok(defs) => detour_defs(written(fns@), detour_krate@) == Ok::<_, Refusal>(
                detour_views(defs@),
            ),
            Err(d) => detour_defs(written(fns@), detour_krate@) is Err && d@ == seq![
                detour_defs(written(fns@), detour_krate@)->Err_0,
            ],
        },
{
    let mut defs: Vec<StaticDetour> = Vec::new();
    let mut i: usize = 0;
    let ghost all = written(fns@);
    assert(detour_views(defs@) =~= Seq::<StaticDetourView>::empty());
    while i < fns.len()
        invariant
            i <= fns.len(),
            all_wf(fns@),
            all == written(fns@),
            detour_defs(all.take(i as int), detour_krate@) == Ok::<_, Refusal>(
                detour_views(defs@),
            ),
        decreases fns.len() - i,
    {
        let func = fns[i];
        proof {
            assert(all.take(i as int + 1).drop_last() =~= all.take(i as int));
        }
        if func.is_detour_fn() {
            match expand_detour_def(func, detour_krate) {
                Err(d) => {
                    proof {
                        lemma_detour_defs_refused(all, detour_krate@, i as int + 1);
                    }
                    return Err(d);
                },
                Ok(def) => {
                    let ghost before = defs@;
                    defs.push(def);
                    assert(detour_views(defs@) =~= detour_views(
                        before,
                    ).push(def@));
                },
            }
        }
        i += 1;
    }
    assert(all.take(i as int) =~= all);
    Ok(defs)
}

/// Emits the activation routine: one statement for each hook function among
/// `detour_fns`, in their order.
pub fn expand_init_detours_fn(
    library_name: &LitStr,
    detour_fns: &Vec<&Function>,
    parent_krate: &Ident,
    detour_krate: &Ident,
) -> (r: InitDetoursFn)
    requires
        all_wf(detour_fns@),
    ensures
        r@ == (InitDetoursFnView {
            krate_name: parent_krate@,
            init_funcs: init_steps(
                written(detour_fns@),
                library_name.value@,
                parent_krate@,
                detour_krate@,
            ),
        }),
{
    let mut init_funcs: Vec<InitDetour> = Vec::new();
    let mut i: usize = 0;
    let ghost all = written(detour_fns@);
    while i < detour_fns.len()
        invariant
            i <= detour_fns.len(),
            all_wf(detour_fns@),
            all == written(detour_fns@),
            init_views(init_funcs@) == init_steps(
                all.take(i as int),
                library_name.value@,
                parent_krate@,
                detour_krate@,
            ),
        decreases detour_fns.len() - i,
    {
        let func = detour_fns[i];
        proof {
            assert(all.take(i as int + 1).drop_last() =~= all.take(i as int));
        }
        if func.is_detour_fn() {
            let step = expand_init_detour(func, library_name, parent_krate, detour_krate);
            init_funcs.push(step);
        }
        i += 1;
    }
    assert(all.take(i as int) =~= all);
    InitDetoursFn { krate_name: parent_krate.duplicate(), init_funcs }
}

/// The message for a module annotation that is not one library name.
pub const LIBRARY_NAME_EXPECTED: &'static str =
    "expected the name of the library as one string literal, like `#[hook_module(\"lua52.dll\")]`";

/// The emitted module, or the refusal: that of the first function that is
/// refused, else that of the first hook function whose parameters cannot
/// all be forwarded.
pub open spec fn expansion(
    node: ItemMod,
    library: LitStrView,
    parent: IdentView,
    krate: IdentView,
) -> Result<ExpansionView, Seq<Refusal>> {
    let items = items_of(node);
    let fns = fns_of(items);
    match module_refusal(items) {
        Some(refusal) => Err(refusal),
        None => match detour_defs(fns, krate) {
            Err(refusal) => Err(seq![refusal]),
            Ok(defs) => Ok(
                ExpansionView {
                    mod_name: node.ident@,
                    library_name: library,
                    init_detours_fn: InitDetoursFnView {
                        krate_name: parent,
                        init_funcs: init_steps(fns, library.value, parent, krate),
                    },
                    items: item_views(plain_items_of(items)),
                    funcs: modified_fns(fns),
                    detours_defs: defs,
                },
            ),
        },
    }
}

/// Whether the compiler's answer is what `expected` says.
pub open spec fn emits(
    r: Result<Expansion, Diagnostic>,
    expected: Result<ExpansionView, Seq<Refusal>>,
) -> bool {
    match (r, expected) {
        (Ok(emitted), Ok(view)) => emitted@ == view,
        (Err(d), Err(refusal)) => d@ == refusal,
        _ => false,
    }
}

fn duplicate_items(items: &Vec<&Item>) -> (r: Vec<Item>)
    ensures
        item_views(r@) == item_views(pointees(items@)),
{
    let mut out: Vec<Item> = Vec::new();
    let mut i: usize = 0;
    let ghost goal = item_views(pointees(items@));
    while i < items.len()
        invariant
            i <= items.len(),
            goal == item_views(pointees(items@)),
            item_views(out@) == goal.take(i as int),
        decreases items.len() - i,
    {
        let ghost before = out@;
        out.push(items[i].duplicate());
        assert(item_views(out@) =~= item_views(before).push(
            goal[i as int],
        ));
        i += 1;
    }
    out
}

/// Compiles a module of declarations for the library `attribute_meta`.
/// `parent_krate` and `detour_krate` are the names under which the emitted
/// code reaches this library and the hooking engine.
pub fn expand(
    mod_block: &ItemMod,
    attribute_meta: &LitStr,
    parent_krate: &Ident,
    detour_krate: &Ident,
) -> (r: Result<Expansion, Diagnostic>)
    ensures
        emits(r, expansion(*mod_block, attribute_meta@, parent_krate@, detour_krate@)),
{
    let module = match Module::from_syn(mod_block, attribute_meta) {
        Err(d) => {
            return Err(d);
        },
        Ok(module) => module,
    };
    let fns = module.get_fns();
    proof {
        assert(all_wf(fns@)) by {
            assert forall|i: int| 0 <= i < fns@.len() implies (#[trigger] fns@[i]).wf() by {
                assert(*fns@[i] == pointees(fns@)[i]);
            }
        }
        assert(written(fns@) =~= module.originals());
    }
    let funcs = expand_fns(&fns);
    let detours_defs = match expand_detour_defs(&fns, detour_krate) {
        Err(d) => {
            return Err(d);
        },
        Ok(defs) => defs,
    };
    let library_name = module.library_name();
    let init_detours_fn = expand_init_detours_fn(library_name, &fns, parent_krate, detour_krate);
    let items = duplicate_items(module.get_items());
    Ok(
        Expansion {
            mod_name: module.get_module_ident().duplicate(),
            library_name: library_name.duplicate(),
            init_detours_fn,
            items,
            funcs,
            detours_defs,
        },
    )
}

/// The library name that a module annotation gives, from its tokens and their
/// readings: its argument list is one string literal, and the string is not
/// empty.
pub open spec fn library_name(
    tokens: Seq<Token>,
    readings: Seq<ReadingView>,
    span: Span,
) -> Result<LitStrView, Refusal> {
    if tokens.len() == 0 {
        Err((span, LIBRARY_NAME_EXPECTED@))
    } else if !is_str_literal(tokens[0], reading_at(readings, 0)) || reading_at(
        readings,
        0,
    ).string->0.len() == 0 {
        Err((tokens[0].span, LIBRARY_NAME_EXPECTED@))
    } else if tokens.len() > 1 {
        Err((tokens[1].span, LIBRARY_NAME_EXPECTED@))
    } else {
        Ok(LitStrView { value: reading_at(readings, 0).string->0, span: tokens[0].span })
    }
}

/// The library name that a module annotation gives, each token read as the
/// language reads it.
pub open spec fn module_name(tokens: Seq<Token>, span: Span) -> Result<LitStrView, Refusal> {
    library_name(tokens, readings_of(tokens), span)
}

/// Reads the argument list of a module annotation written at `span`, from
/// the tokens and their readings. A token without a reading is read as
/// nothing.
pub fn parse_module_name_read(tokens: &Vec<Token>, readings: &Vec<Reading>, span: Span) -> (r:
    Result<LitStr, Diagnostic>)
    ensures
        agrees(r, library_name(tokens@, reading_views(readings@), span)),
{
    if tokens.len() == 0 {
        return Err(Diagnostic::new(span, LIBRARY_NAME_EXPECTED));
    }
    let value = if readings.len() > 0 {
        match (tokens[0].kind, &readings[0].string) {
            (TokenKind::Literal, Some(value)) => Some(value),
            _ => None,
        }
    } else {
        None
    };
    match value {
        None => Err(Diagnostic::new(tokens[0].span, LIBRARY_NAME_EXPECTED)),
        Some(value) => {
            if value.as_str().is_empty() {
                Err(Diagnostic::new(tokens[0].span, LIBRARY_NAME_EXPECTED))
            } else if tokens.len() > 1 {
                Err(Diagnostic::new(tokens[1].span, LIBRARY_NAME_EXPECTED))
            } else {
                Ok(LitStr { value: value.clone(), span: tokens[0].span })
            }
        },
    }
}

/// Reads the argument list of a module annotation written at `span`.
pub fn parse_module_name(tokens: &Vec<Token>, span: Span) -> (r: Result<LitStr, Diagnostic>)
    ensures
        agrees(r, module_name(tokens@, span)),
{
    let readings = read_tokens(tokens);
    parse_module_name_read(tokens, &readings, span)
}

/// The whole compiler: reads the module annotation's argument list `args`,
/// written at `span`, and compiles the module `input` for the library it
/// names.
pub fn hook_module(
    args: &Vec<Token>,
    span: Span,
    input: &ItemMod,
    parent_krate: &Ident,
    detour_krate: &Ident,
) -> (r: Result<Expansion, Diagnostic>)
    ensures
        match module_name(args@, span) {
            Err(refusal) => r is Err && r->Err_0@ == seq![refusal],
            Ok(library) => emits(r, expansion(*input, library, parent_krate@, detour_krate@)),
        },
{
    match parse_module_name(args, span) {
        Err(d) => Err(d),
        Ok(library) => expand(input, &library, parent_krate, detour_krate),
    }
}


/// Whether a module is well formed: every function is accepted, and every
/// parameter of a hook function can be forwarded.
pub open spec fn well_formed(node: ItemMod) -> bool {
    let items = items_of(node);
    forall|i: int|
        0 <= i < items.len() && (#[trigger] items[i]) is Fn ==> {
            &&& function_check(items[i]->Fn_0) is Ok
            &&& hook_of(items[i]->Fn_0) is Some ==> arg_names(items[i]->Fn_0.sig.inputs@) is Ok
        }
}

/// Every slot definition is there when every hook function's parameters can
/// be forwarded.
pub proof fn lemma_detour_defs_defined(fns: Seq<ItemFn>, krate: IdentView)
    requires
        forall|i: int|
            0 <= i < fns.len() && hook_of(#[trigger] fns[i]) is Some ==> arg_names(
                fns[i].sig.inputs@,
            ) is Ok,
    ensures
        detour_defs(fns, krate) is Ok,
    decreases fns.len(),
{
    if fns.len() > 0 {
        let rest = fns.drop_last();
        assert forall|i: int| 0 <= i < rest.len() && hook_of(#[trigger] rest[i]) is Some implies arg_names(
            rest[i].sig.inputs@,
        ) is Ok by {}
        lemma_detour_defs_defined(rest, krate);
    }
}

/// Every function among the items is one of the items.
pub proof fn lemma_fns_are_items(items: Seq<Item>, j: int)
    requires
        0 <= j < fns_of(items).len(),
    ensures
        exists|i: int|
            0 <= i < items.len() && #[trigger] items[i] == Item::Fn(
                fns_of(items)[j],
            ),
    decreases items.len(),
{
    let fns = fns_of(items);
    if items.len() > 0 {
        let rest = items.drop_last();
        let last = items.last();
        if last is Fn && j == fns.len() - 1 {
        } else {
            lemma_fns_are_items(rest, j);
            let i = choose|i: int|
                0 <= i < rest.len() && #[trigger] rest[i] == Item::Fn(
                    fns_of(rest)[j],
                );
        }
    }
}

/// A well-formed module compiles. What is emitted holds every item that is
/// no function, as it was written and in the order of the source, and every
/// function in the order of the source; a function without a hook annotation
/// is emitted as it was written.
pub proof fn lemma_well_formed_module_compiles(
    node: ItemMod,
    library: LitStrView,
    parent: IdentView,
    krate: IdentView,
)
    requires
        well_formed(node),
    ensures
        expansion(node, library, parent, krate) is Ok,
        expansion(node, library, parent, krate)->Ok_0.items == item_views(
            plain_items_of(items_of(node)),
        ),
        expansion(node, library, parent, krate)->Ok_0.funcs.len() == fns_of(
            items_of(node),
        ).len(),
        forall|j: int|
            #![trigger fns_of(items_of(node))[j]]
            0 <= j < fns_of(items_of(node)).len() && hook_of(
                fns_of(items_of(node))[j],
            ) is None ==> expansion(node, library, parent, krate)->Ok_0.funcs[j]
                == fns_of(items_of(node))[j]@,
{
    let items = items_of(node);
    let fns = fns_of(items);
    lemma_accepted_functions_accept_module(items);
    assert forall|j: int| 0 <= j < fns.len() implies (function_check(
        #[trigger] fns[j],
    ) is Ok && (hook_of(fns[j]) is Some ==> arg_names(fns[j].sig.inputs@) is Ok)) by {
        lemma_fns_are_items(items, j);
        let i = choose|i: int|
            0 <= i < items.len() && #[trigger] items[i] == Item::Fn(fns[j]);
    }
    lemma_detour_defs_defined(fns, krate);
    assert forall|j: int| 0 <= j < fns.len() && hook_of(fns[j]) is None implies modified_fns(
        fns,
    )[j] == (#[trigger] fns[j])@ by {
        lemma_no_hooks_keeps_attrs(fns[j].attrs@);
    }
}

/// A module with a function that carries more than one hook annotation does
/// not compile.
pub proof fn lemma_duplicate_hooks_fail_compilation(
    node: ItemMod,
    library: LitStrView,
    parent: IdentView,
    krate: IdentView,
    i: int,
)
    requires
        0 <= i < items_of(node).len(),
        items_of(node)[i] is Fn,
        hooks_of(items_of(node)[i]->Fn_0.attrs@).len() >= 2,
    ensures
        expansion(node, library, parent, krate) is Err,
{
    lemma_duplicate_hooks_refused(items_of(node)[i]->Fn_0);
    lemma_refused_function_refuses_module(items_of(node), i);
}

/// A module with a hook function that is itself declared `unsafe` does not
/// compile.
pub proof fn lemma_unsafe_hook_fails_compilation(
    node: ItemMod,
    library: LitStrView,
    parent: IdentView,
    krate: IdentView,
    i: int,
)
    requires
        0 <= i < items_of(node).len(),
        items_of(node)[i] is Fn,
        hooks_of(items_of(node)[i]->Fn_0.attrs@).len() >= 1,
        items_of(node)[i]->Fn_0.sig.unsafety is Some,
    ensures
        expansion(node, library, parent, krate) is Err,
{
    let func = items_of(node)[i]->Fn_0;
    if hooks_of(func.attrs@).len() == 1 {
        lemma_unsafe_hook_refused(func);
    } else {
        lemma_duplicate_hooks_refused(func);
    }
    lemma_refused_function_refuses_module(items_of(node), i);
}


/// Where the first function that is refused carries more than one hook
/// annotation, the compiler's refusal points at its second annotation and at
/// its first.
pub proof fn lemma_duplicate_hooks_are_both_referenced(
    node: ItemMod,
    library: LitStrView,
    parent: IdentView,
    krate: IdentView,
    i: int,
)
    requires
        0 <= i < items_of(node).len(),
        items_of(node)[i] is Fn,
        hooks_of(items_of(node)[i]->Fn_0.attrs@).len() >= 2,
        forall|k: int|
            0 <= k < i && (#[trigger] items_of(node)[k]) is Fn
                ==> function_check(items_of(node)[k]->Fn_0) is Ok,
    ensures
        expansion(node, library, parent, krate) is Err,
        expansion(node, library, parent, krate)->Err_0.len() == 2,
        expansion(node, library, parent, krate)->Err_0[0].0 == hooks_of(
            items_of(node)[i]->Fn_0.attrs@,
        )[1].span,
        expansion(node, library, parent, krate)->Err_0[1].0 == hooks_of(
            items_of(node)[i]->Fn_0.attrs@,
        )[0].span,
{
    lemma_duplicate_hooks_refused(items_of(node)[i]->Fn_0);
    lemma_first_refusal_is_reported(items_of(node), i);
}

} // verus!
