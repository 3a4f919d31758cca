//! A module of declarations, checked: which functions are hooks, what each
//! hook annotation says, and what stays as it is.

use vstd::prelude::*;
use vstd::string::StringExecFns;
use crate::diagnostic::Diagnostic;
use crate::lookup::LookupData;
use crate::parse::{
    lookup_for,
    HookAttributeArgs,
    HookAttributeArgsView,
    Refusal,
    parse_hook_attribute,
};
use crate::syntax::{
    AbiView,
    Attribute,
    FnArg,
    Ident,
    Item,
    ItemFn,
    ItemFnView,
    ItemMod,
    LitStr,
    Pat,
    Signature,
    SignatureView,
    Span,
    TypeBareFn,
    TypeBareFnView,
    BareFnArg,
    abi_view,
    attr_views,
};

verus! {

/// The message for a function with more than one hook annotation.
pub const DUPLICATE_HOOK: &'static str = "Only 1 #[hook] can be applied to a function";

/// The message at the `unsafe` of a hook function whose annotation already
/// says that the target is unsafe.
pub const UNSAFE_TWICE: &'static str =
    "Hook functions can't be unsafe!\nYou've already marked the target function as unsafe. \nIf that's what you want, you can remove this `unsafe`";

/// The message at the annotation's own `unsafe`.
pub const UNSAFE_DECLARED_HERE: &'static str = "You marked the target function as unsafe here";

/// The message at the `unsafe` of a hook function whose annotation does not
/// say that the target is unsafe.
pub const UNSAFE_HOOK: &'static str =
    "Hook functions can't be unsafe!\nIf your target function is unsafe, add it in the #[hook] macro";

/// The message at the name of the detour, where `unsafe` belongs.
pub const UNSAFE_BELONGS_HERE: &'static str = "Try adding `unsafe` before the detour name";

/// The message for a parameter that takes its argument apart.
pub const UNSUPPORTED_PATTERN: &'static str = "Function argument is not a supported pattern";

/// Whether the attribute is a hook annotation.
pub open spec fn is_hook(attr: Attribute) -> bool {
    attr.path@ == "hook"@
}

pub open spec fn hook_pred() -> spec_fn(Attribute) -> bool {
    |attr: Attribute| is_hook(attr)
}

pub open spec fn other_pred() -> spec_fn(Attribute) -> bool {
    |attr: Attribute| !is_hook(attr)
}

/// The hook annotations among the attributes, in order.
pub open spec fn hooks_of(attrs: Seq<Attribute>) -> Seq<Attribute> {
    attrs.filter(hook_pred())
}

/// The attributes that are no hook annotations, in order.
pub open spec fn others_of(attrs: Seq<Attribute>) -> Seq<Attribute> {
    attrs.filter(other_pred())
}

/// What a hook annotation says, if the function has one.
pub open spec fn detour_view(detour: Option<HookAttributeArgs>) -> Option<HookAttributeArgsView> {
    match detour {
        Some(hook) => Some(hook@),
        None => None,
    }
}

/// The verdict on one function: what its hook annotation says (nothing for
/// a function that is no hook), or the refusal.
///
/// More than one annotation is refused first, with the place of the second
/// and then of the first. The one annotation must be well formed. A hook
/// function must not itself be `unsafe`: the refusal points at the `unsafe`
/// and at where unsafety is, or should be, declared in the annotation.
pub open spec fn function_check(func: ItemFn) -> Result<
    Option<HookAttributeArgsView>,
    Seq<Refusal>,
> {
    let hooks = hooks_of(func.attrs@);
    if hooks.len() >= 2 {
        Err(seq![(hooks[1].span, DUPLICATE_HOOK@), (hooks[0].span, DUPLICATE_HOOK@)])
    } else if hooks.len() == 0 {
        Ok(None)
    } else {
        match parse_hook_attribute(hooks[0].tokens@, hooks[0].span) {
            Err(refusal) => Err(seq![refusal]),
            Ok(hook) => match func.sig.unsafety {
                None => Ok(Some(hook)),
                Some(unsafety) => match hook.unsafety {
                    Some(declared) => Err(
                        seq![(unsafety, UNSAFE_TWICE@), (declared, UNSAFE_DECLARED_HERE@)],
                    ),
                    None => Err(
                        seq![
                            (unsafety, UNSAFE_HOOK@),
                            (hook.detour_name.span, UNSAFE_BELONGS_HERE@),
                        ],
                    ),
                },
            },
        }
    }
}

/// The values that a list of references points to.
pub open spec fn pointees<T>(refs: Seq<&T>) -> Seq<T> {
    refs.map_values(|r: &T| *r)
}

/// One more element of a sequence either joins the filtered sequence or
/// leaves it as it was.
pub proof fn lemma_filter_step<T>(s: Seq<T>, pred: spec_fn(T) -> bool, i: int)
    requires
        0 <= i < s.len(),
    ensures
        s.take(i + 1).filter(pred) == if pred(s[i]) {
            s.take(i).filter(pred).push(s[i])
        } else {
            s.take(i).filter(pred)
        },
{
    reveal(Seq::filter);
    assert(s.take(i + 1).drop_last() =~= s.take(i));
}

/// Whether a parameter is bound by a plain name, so that a trampoline can
/// forward it.
pub open spec fn forwards(arg: FnArg) -> bool {
    arg matches FnArg::Typed(typed) && plain_name(typed.pat)
}

/// Whether a pattern is a plain name: one name, bound by value, with no
/// subpattern. `mut` before it changes nothing of what is forwarded.
pub open spec fn plain_name(pat: Pat) -> bool {
    pat matches Pat::Ident(name) && name.by_ref is None && name.subpat is None
}

/// The place of a pattern.
pub open spec fn pat_place(pat: Pat) -> Span {
    match pat {
        Pat::Ident(name) => name.ident.span,
        Pat::Path(path) => path.span,
        Pat::Other { span, .. } => span,
    }
}

/// Why a parameter cannot be forwarded.
pub open spec fn arg_refusal(arg: FnArg) -> Refusal {
    match arg {
        FnArg::Receiver(span) => (span, Seq::empty()),
        FnArg::Typed(typed) => (pat_place(typed.pat), UNSUPPORTED_PATTERN@),
    }
}

/// The patterns of the parameters in order, or the refusal of the first
/// parameter that cannot be forwarded.
pub open spec fn arg_names(inputs: Seq<FnArg>) -> Result<Seq<Pat>, Refusal>
    decreases inputs.len(),
{
    if inputs.len() == 0 {
        Ok(Seq::empty())
    } else {
        match arg_names(inputs.drop_last()) {
            Err(refusal) => Err(refusal),
            Ok(names) => if forwards(inputs.last()) {
                Ok(names.push(inputs.last()->Typed_0.pat))
            } else {
                Err(arg_refusal(inputs.last()))
            },
        }
    }
}

/// A refusal among the first parameters is the refusal of the whole list.
pub proof fn lemma_arg_names_refused(inputs: Seq<FnArg>, n: int)
    requires
        0 <= n <= inputs.len(),
        arg_names(inputs.take(n)) is Err,
    ensures
        arg_names(inputs) == arg_names(inputs.take(n)),
    decreases inputs.len(),
{
    if n == inputs.len() {
        assert(inputs.take(n) =~= inputs);
    } else {
        assert(inputs.drop_last().take(n) =~= inputs.take(n));
        lemma_arg_names_refused(inputs.drop_last(), n);
    }
}

/// Parameters that are all plain names are all forwarded, each under its
/// pattern, in order.
pub proof fn lemma_plain_names_are_forwarded(inputs: Seq<FnArg>)
    requires
        forall|i: int| 0 <= i < inputs.len() ==> forwards(#[trigger] inputs[i]),
    ensures
        arg_names(inputs) is Ok,
        arg_names(inputs)->Ok_0.len() == inputs.len(),
        forall|i: int|
            0 <= i < inputs.len() ==> (#[trigger] arg_names(inputs)->Ok_0[i])
                == inputs[i]->Typed_0.pat,
    decreases inputs.len(),
{
    if inputs.len() > 0 {
        let rest = inputs.drop_last();
        assert forall|i: int| 0 <= i < rest.len() implies forwards(#[trigger] rest[i]) by {
            assert(rest[i] == inputs[i]);
        }
        lemma_plain_names_are_forwarded(rest);
        assert(forwards(inputs[inputs.len() - 1]));
        assert forall|i: int| 0 <= i < inputs.len() implies (#[trigger] arg_names(
            inputs,
        )->Ok_0[i]) == inputs[i]->Typed_0.pat by {
            if i < rest.len() {
                assert(arg_names(rest)->Ok_0[i] == rest[i]->Typed_0.pat);
                assert(rest[i] == inputs[i]);
            }
        }
    }
}

/// The first parameter that is no plain name is the one that is refused, at
/// its own place.
pub proof fn lemma_first_other_pattern_is_refused(inputs: Seq<FnArg>, i: int)
    requires
        0 <= i < inputs.len(),
        !forwards(inputs[i]),
        forall|k: int| 0 <= k < i ==> forwards(#[trigger] inputs[k]),
    ensures
        arg_names(inputs) == Err::<Seq<Pat>, Refusal>(arg_refusal(inputs[i])),
{
    let first = inputs.take(i + 1);
    assert forall|k: int| 0 <= k < first.drop_last().len() implies forwards(
        #[trigger] first.drop_last()[k],
    ) by {
        assert(first.drop_last()[k] == inputs[k]);
    }
    lemma_plain_names_are_forwarded(first.drop_last());
    assert(first.last() == inputs[i]);
    lemma_arg_names_refused(inputs, i + 1);
}

/// Whether every parameter has a type of its own: none is `self`.
pub open spec fn all_typed(inputs: Seq<FnArg>) -> bool {
    forall|i: int| 0 <= i < inputs.len() ==> (#[trigger] inputs[i]) is Typed
}

/// A parameter without its name.
pub open spec fn bare_input(arg: FnArg) -> BareFnArg {
    BareFnArg { attrs: arg->Typed_0.attrs, ty: arg->Typed_0.ty }
}

/// The parameters without their names.
pub open spec fn bare_inputs(inputs: Seq<FnArg>) -> Seq<BareFnArg> {
    inputs.map_values(|arg: FnArg| bare_input(arg))
}

/// The call shape of a function: its signature without the parameters'
/// names, with the given unsafety and calling convention.
pub open spec fn call_shape(
    sig: SignatureView,
    unsafety: Option<Span>,
    abi: Option<AbiView>,
) -> TypeBareFnView {
    TypeBareFnView {
        unsafety,
        abi,
        inputs: bare_inputs(sig.inputs),
        variadic: sig.variadic,
        output: sig.output,
    }
}

/// The parameters of a signature without their names.
pub fn bare_fn_inputs(sig: &Signature) -> (r: Vec<BareFnArg>)
    requires
        all_typed(sig.inputs@),
    ensures
        r@ == bare_inputs(sig.inputs@),
{
    let mut inputs: Vec<BareFnArg> = Vec::new();
    let mut i: usize = 0;
    while i < sig.inputs.len()
        invariant
            i <= sig.inputs.len(),
            all_typed(sig.inputs@),
            inputs@ == bare_inputs(sig.inputs@).take(i as int),
        decreases sig.inputs.len() - i,
    {
        match &sig.inputs[i] {
            FnArg::Typed(arg) => {
                inputs.push(BareFnArg { attrs: arg.attrs.clone(), ty: arg.ty.clone() });
            },
            FnArg::Receiver(_) => {
            },
        }
        i += 1;
    }
    inputs
}

/// The first parameter that is `self`, if there is one.
fn find_receiver(sig: &Signature) -> (r: Option<Span>)
    ensures
        match r {
            None => all_typed(sig.inputs@),
            Some(span) => exists|i: int|
                0 <= i < sig.inputs@.len() && sig.inputs@[i] == FnArg::Receiver(span)
                    && all_typed(sig.inputs@.take(i)),
        },
{
    let mut i: usize = 0;
    while i < sig.inputs.len()
        invariant
            i <= sig.inputs.len(),
            all_typed(sig.inputs@.take(i as int)),
        decreases sig.inputs.len() - i,
    {
        if let FnArg::Receiver(span) = &sig.inputs[i] {
            return Some(*span);
        }
        assert forall|k: int| 0 <= k < sig.inputs@.take(i as int + 1).len() implies (
        #[trigger] sig.inputs@.take(i as int + 1)[k]) is Typed by {}
        i += 1;
    }
    assert(sig.inputs@.take(i as int) =~= sig.inputs@);
    None
}

/// The call shape that a signature declares for itself, with its own
/// unsafety and calling convention. A `self` parameter has no type to give:
/// it is refused at its place, without a message.
pub fn fn_type_from_sig(sig: &Signature) -> (r: Result<TypeBareFn, Diagnostic>)
    ensures
        match r {
            Ok(shape) => all_typed(sig.inputs@) && shape@ == call_shape(
                sig@,
                sig.unsafety,
                abi_view(sig.abi),
            ),
            Err(d) => exists|i: int|
                0 <= i < sig.inputs@.len() && sig.inputs@[i] is Receiver && all_typed(
                    sig.inputs@.take(i),
                ) && d@ == seq![(sig.inputs@[i]->Receiver_0, Seq::<char>::empty())],
        },
{
    if let Some(span) = find_receiver(sig) {
        let d = Diagnostic::new(span, "");
        proof {
            reveal_strlit("");
            assert(""@ =~= Seq::<char>::empty());
        }
        return Err(d);
    }
    let abi = match &sig.abi {
        Some(a) => Some(a.duplicate()),
        None => None,
    };
    let variadic = match &sig.variadic {
        Some(v) => Some(v.duplicate()),
        None => None,
    };
    Ok(
        TypeBareFn {
            unsafety: sig.unsafety,
            abi,
            inputs: bare_fn_inputs(sig),
            variadic,
            output: sig.output.clone(),
        },
    )
}

/// The patterns of a signature's parameters in order, or the refusal of the
/// first parameter that a trampoline cannot forward.
pub fn fn_arg_names<'a>(sig: &'a Signature) -> (r: Result<Vec<&'a Pat>, Diagnostic>)
    ensures
        match r {
            Ok(names) => arg_names(sig.inputs@) == Ok::<_, Refusal>(
                pointees(names@),
            ),
            Err(d) => arg_names(sig.inputs@) is Err && d@ == seq![
                arg_names(sig.inputs@)->Err_0,
            ],
        },
{
    let inputs = &sig.inputs;
    let mut names: Vec<&'a Pat> = Vec::new();
    let mut i: usize = 0;
    assert(pointees(names@) =~= Seq::<Pat>::empty());
    while i < inputs.len()
        invariant
            i <= inputs.len(),
            inputs == &sig.inputs,
            arg_names(inputs@.take(i as int)) == Ok::<_, Refusal>(pointees(names@)),
        decreases inputs.len() - i,
    {
        assert(inputs@.take(i as int + 1).drop_last() =~= inputs@.take(i as int));
        let refused = match &inputs[i] {
            FnArg::Receiver(span) => Some(Diagnostic::new(*span, "")),
            FnArg::Typed(arg) => match &arg.pat {
                Pat::Ident(name) => {
                    if name.by_ref.is_none() && name.subpat.is_none() {
                        let ghost before = names@;
                        names.push(&arg.pat);
                        assert(pointees(names@) =~= pointees(before).push(arg.pat));
                        None
                    } else {
                        Some(Diagnostic::new(name.ident.span, UNSUPPORTED_PATTERN))
                    }
                },
                Pat::Path(path) => Some(Diagnostic::new(path.span, UNSUPPORTED_PATTERN)),
                Pat::Other { span, .. } => Some(Diagnostic::new(*span, UNSUPPORTED_PATTERN)),
            },
        };
        if let Some(d) = refused {
            proof {
                reveal_strlit("");
                assert(""@ =~= Seq::<char>::empty());
                lemma_arg_names_refused(inputs@, i as int + 1);
            }
            return Err(d);
        }
        i += 1;
    }
    assert(inputs@.take(i as int) =~= inputs@);
    Ok(names)
}


/// A function of the module, with its hook annotation read and set apart
/// from its other attributes.
pub struct Function<'a> {
    pub original: &'a ItemFn,
    pub other_attrs: Vec<&'a Attribute>,
    pub detour: Option<HookAttributeArgs>,
}

impl<'a> Function<'a> {
    /// The attributes that stay on the function.
    pub open spec fn kept_attrs(&self) -> Seq<Attribute> {
        pointees(self.other_attrs@)
    }

    /// The function was accepted: its annotation is what the check found,
    /// and the attributes that stay are all but the annotation.
    pub open spec fn wf(&self) -> bool {
        &&& self.kept_attrs() == others_of(self.original.attrs@)
        &&& function_check(*self.original) == Ok::<_, Seq<Refusal>>(detour_view(self.detour))
    }

    pub fn from_syn(func: &'a ItemFn) -> (r: Result<Function<'a>, Diagnostic>)
        ensures
            match r {
                Ok(f) => f.original == func && f.wf(),
                Err(d) => function_check(*func) == Err::<Option<HookAttributeArgsView>, _>(d@),
            },
    {
        let mut other_attrs: Vec<&'a Attribute> = Vec::new();
        let mut first: Option<&'a Attribute> = None;
        let mut second: Option<&'a Attribute> = None;
        let hook_word = String::from_str("hook");
        let mut i: usize = 0;
        assert(func.attrs@.take(0).filter(hook_pred()) =~= Seq::<Attribute>::empty()) by {
            reveal(Seq::filter);
        }
        assert(func.attrs@.take(0).filter(other_pred()) =~= Seq::<Attribute>::empty()) by {
            reveal(Seq::filter);
        }
        while i < func.attrs.len()
            invariant
                i <= func.attrs.len(),
                hook_word@ == "hook"@,
                pointees(other_attrs@) == others_of(func.attrs@.take(i as int)),
                first is None <==> hooks_of(func.attrs@.take(i as int)).len() == 0,
                first matches Some(attr) ==> *attr == hooks_of(func.attrs@.take(i as int))[0],
                second is None <==> hooks_of(func.attrs@.take(i as int)).len() < 2,
                second matches Some(attr) ==> *attr == hooks_of(func.attrs@.take(i as int))[1],
            decreases func.attrs.len() - i,
        {
            let attr = &func.attrs[i];
            proof {
                lemma_filter_step(func.attrs@, hook_pred(), i as int);
                lemma_filter_step(func.attrs@, other_pred(), i as int);
            }
            if attr.path == hook_word {
                if first.is_none() {
                    first = Some(attr);
                } else if second.is_none() {
                    second = Some(attr);
                }
            } else {
                other_attrs.push(attr);
            }
            i += 1;
        }
        assert(func.attrs@.take(i as int) =~= func.attrs@);
        let hook = match first {
            None => {
                return Ok(Function { original: func, other_attrs, detour: None });
            },
            Some(hook) => hook,
        };
        if let Some(again) = second {
            let mut duplicate_error = Diagnostic::new(again.span, DUPLICATE_HOOK);
            duplicate_error.combine(Diagnostic::new(hook.span, DUPLICATE_HOOK));
            assert(duplicate_error@ =~= seq![
                (again.span, DUPLICATE_HOOK@),
                (hook.span, DUPLICATE_HOOK@),
            ]);
            return Err(duplicate_error);
        }
        let hook_data = match HookAttributeArgs::parse(&hook.tokens, hook.span) {
            Err(refused) => {
                return Err(refused);
            },
            Ok(hook_data) => hook_data,
        };
        // Hook functions can't be unsafe
        if let Some(unsafety) = func.sig.unsafety {
            match hook_data.unsafety {
                Some(hook_unsafety) => {
                    let mut detour_sig_err = Diagnostic::new(unsafety, UNSAFE_TWICE);
                    detour_sig_err.combine(Diagnostic::new(hook_unsafety, UNSAFE_DECLARED_HERE));
                    assert(detour_sig_err@ =~= seq![
                        (unsafety, UNSAFE_TWICE@),
                        (hook_unsafety, UNSAFE_DECLARED_HERE@),
                    ]);
                    return Err(detour_sig_err);
                },
                None => {
                    let mut detour_sig_err = Diagnostic::new(unsafety, UNSAFE_HOOK);
                    detour_sig_err.combine(
                        Diagnostic::new(hook_data.detour_name.span, UNSAFE_BELONGS_HERE),
                    );
                    assert(detour_sig_err@ =~= seq![
                        (unsafety, UNSAFE_HOOK@),
                        (hook_data.detour_name.span, UNSAFE_BELONGS_HERE@),
                    ]);
                    return Err(detour_sig_err);
                },
            }
        }
        Ok(Function { original: func, other_attrs, detour: Some(hook_data) })
    }

    pub fn is_detour_fn(&self) -> (r: bool)
        ensures
            r == self.detour is Some,
    {
        self.detour.is_some()
    }

    pub fn get_hook_name(&self) -> (r: Option<&Ident>)
        ensures
            match r {
                Some(name) => self.detour is Some && *name == self.detour->0.detour_name,
                None => self.detour is None,
            },
    {
        match &self.detour {
            Some(det) => Some(&det.detour_name),
            None => None,
        }
    }

    /// The visibility under which the slot is bound.
    pub fn get_hook_vis(&self) -> (r: Option<&String>)
        ensures
            match r {
                Some(vis) => self.detour is Some && *vis == self.detour->0.vis,
                None => self.detour is None,
            },
    {
        match &self.detour {
            Some(det) => Some(&det.vis),
            None => None,
        }
    }

    /// The call shape of the target: the function's parameter types and
    /// return type, with the unsafety and the calling convention that the
    /// annotation declares.
    pub fn get_type_sig(&self) -> (r: TypeBareFn)
        requires
            self.detour is Some,
            all_typed(self.original.sig.inputs@),
        ensures
            r@ == call_shape(
                self.original.sig@,
                self.detour->0.unsafety,
                abi_view(self.detour->0.abi),
            ),
    {
        let hook = self.detour.as_ref().unwrap();
        let abi = match &hook.abi {
            Some(a) => Some(a.duplicate()),
            None => None,
        };
        let variadic = match &self.original.sig.variadic {
            Some(v) => Some(v.duplicate()),
            None => None,
        };
        TypeBareFn {
            unsafety: hook.unsafety,
            abi,
            inputs: bare_fn_inputs(&self.original.sig),
            variadic,
            output: self.original.sig.output.clone(),
        }
    }

    /// The names under which the trampoline forwards its parameters, in
    /// order; or the refusal of the first parameter that has none.
    pub fn get_arg_names(&self) -> (r: Result<Vec<&'a Pat>, Diagnostic>)
        ensures
            match r {
                Ok(names) => arg_names(self.original.sig.inputs@) == Ok::<_, Refusal>(
                    pointees(names@),
                ),
                Err(d) => arg_names(self.original.sig.inputs@) is Err && d@ == seq![
                    arg_names(self.original.sig.inputs@)->Err_0,
                ],
            },
    {
        fn_arg_names(&self.original.sig)
    }

    /// The lookup that the annotation asks for inside the named module.
    pub fn get_lookup_data_constructor(&self, library_name: &LitStr) -> (r: Option<LookupData>)
        ensures
            match r {
                None => self.detour is None,
                Some(lookup) => self.detour is Some && lookup@ == lookup_for(
                    self.detour->0.hook_info@,
                    library_name.value@,
                ),
            },
    {
        match &self.detour {
            Some(det) => Some(det.hook_info.get_lookup_data_new_fn(library_name)),
            None => None,
        }
    }

    /// The function as it is emitted: without its hook annotation, and
    /// otherwise as it was written.
    pub fn get_modified_fn_item(&self) -> (r: ItemFn)
        ensures
            r@ == (ItemFnView { attrs: attr_views(self.kept_attrs()), ..self.original@ }),
    {
        let mut attrs: Vec<Attribute> = Vec::new();
        let mut i: usize = 0;
        let ghost kept = attr_views(self.kept_attrs());
        while i < self.other_attrs.len()
            invariant
                i <= self.other_attrs.len(),
                kept == attr_views(self.kept_attrs()),
                attr_views(attrs@) == kept.take(i as int),
            decreases self.other_attrs.len() - i,
        {
            let ghost before = attrs@;
            attrs.push(self.other_attrs[i].duplicate());
            assert(attr_views(attrs@) =~= attr_views(before).push(
                kept[i as int],
            ));
            i += 1;
        }
        assert(kept.take(i as int) =~= kept);
        ItemFn {
            attrs,
            vis: self.original.vis.clone(),
            sig: self.original.sig.duplicate(),
            block: self.original.block.clone(),
            span: self.original.span,
        }
    }
}


/// The items of a module block; none for a module without a body.
pub open spec fn items_of(node: ItemMod) -> Seq<Item> {
    match node.content {
        Some(items) => items@,
        None => Seq::empty(),
    }
}

pub open spec fn fn_of_item() -> spec_fn(Item) -> Option<ItemFn> {
    |item: Item|
        match item {
            Item::Fn(func) => Some(func),
            _ => None,
        }
}

pub open spec fn plain_pred() -> spec_fn(Item) -> bool {
    |item: Item| !(item is Fn)
}

/// The functions among the items, in order.
pub open spec fn fns_of(items: Seq<Item>) -> Seq<ItemFn> {
    items.filter_map(fn_of_item())
}

/// The items that are no functions, in order.
pub open spec fn plain_items_of(items: Seq<Item>) -> Seq<Item> {
    items.filter(plain_pred())
}

/// The refusal of the first function that is refused, if one is.
pub open spec fn module_refusal(items: Seq<Item>) -> Option<Seq<Refusal>>
    decreases items.len(),
{
    if items.len() == 0 {
        None
    } else {
        match module_refusal(items.drop_last()) {
            Some(refusal) => Some(refusal),
            None => match items.last() {
                Item::Fn(func) => match function_check(func) {
                    Err(refusal) => Some(refusal),
                    Ok(_) => None,
                },
                _ => None,
            },
        }
    }
}

/// A refusal among the first items is the refusal of the whole module.
pub proof fn lemma_module_refused(items: Seq<Item>, n: int)
    requires
        0 <= n <= items.len(),
        module_refusal(items.take(n)) is Some,
    ensures
        module_refusal(items) == module_refusal(items.take(n)),
    decreases items.len(),
{
    if n == items.len() {
        assert(items.take(n) =~= items);
    } else {
        assert(items.drop_last().take(n) =~= items.take(n));
        lemma_module_refused(items.drop_last(), n);
    }
}

/// A module block with its functions checked and its other items set
/// apart.
pub struct Module<'a> {
    pub original: &'a ItemMod,
    pub library_module: &'a LitStr,
    pub functions: Vec<Function<'a>>,
    pub other_items: Vec<&'a Item>,
}

pub open spec fn detour_fn_pred<'a>() -> spec_fn(Function<'a>) -> bool {
    |func: Function<'a>| func.detour is Some
}

pub open spec fn normal_fn_pred<'a>() -> spec_fn(Function<'a>) -> bool {
    |func: Function<'a>| func.detour is None
}

impl<'a> Module<'a> {
    /// The functions as they were written, in order.
    pub open spec fn originals(&self) -> Seq<ItemFn> {
        self.functions@.map_values(|func: Function<'a>| *func.original)
    }

    /// The module was accepted: every function was, in the order of the
    /// source, and the items that are no functions stand in their order.
    pub open spec fn wf(&self) -> bool {
        &&& pointees(self.other_items@) == plain_items_of(items_of(*self.original))
        &&& self.originals() == fns_of(items_of(*self.original))
        &&& forall|i: int| 0 <= i < self.functions@.len() ==> (#[trigger] self.functions@[i]).wf()
    }

    pub fn from_syn(node: &'a ItemMod, module_name_meta: &'a LitStr) -> (r: Result<
        Module<'a>,
        Diagnostic,
    >)
        ensures
            match r {
                Ok(module) => {
                    &&& module.original == node
                    &&& module.library_module == module_name_meta
                    &&& module.wf()
                    &&& module_refusal(items_of(*node)) is None
                },
                Err(d) => module_refusal(items_of(*node)) == Some(d@),
            },
    {
        let mut functions: Vec<Function<'a>> = Vec::new();
        let mut other_items: Vec<&'a Item> = Vec::new();
        let ghost items = items_of(*node);
        proof {
            reveal(Seq::filter);
            assert(pointees(other_items@) =~= Seq::<Item>::empty());
            assert(functions@.map_values(|func: Function<'a>| *func.original) =~= Seq::<
                ItemFn,
            >::empty());
        }
        if let Some(content) = &node.content {
            let mut i: usize = 0;
            while i < content.len()
                invariant
                    i <= content.len(),
                    items == content@,
                    items == items_of(*node),
                    pointees(other_items@) == plain_items_of(items.take(i as int)),
                    functions@.map_values(|func: Function<'a>| *func.original) == fns_of(
                        items.take(i as int),
                    ),
                    forall|k: int|
                        0 <= k < functions@.len() ==> (#[trigger] functions@[k]).wf(),
                    module_refusal(items.take(i as int)) is None,
                decreases content.len() - i,
            {
                let item = &content[i];
                proof {
                    lemma_filter_step(items, plain_pred(), i as int);
                    items.lemma_filter_map_take_succ(fn_of_item(), i as int);
                    assert(items.take(i as int + 1).drop_last() =~= items.take(i as int));
                }
                match item {
                    Item::Fn(func) => {
                        match Function::from_syn(func) {
                            Err(d) => {
                                proof {
                                    lemma_module_refused(items, i as int + 1);
                                }
                                return Err(d);
                            },
                            Ok(function) => {
                                functions.push(function);
                            },
                        }
                    },
                    _ => {
                        other_items.push(item);
                    },
                }
                i += 1;
            }
            assert(items.take(i as int) =~= items);
        }
        Ok(Module { original: node, functions, other_items, library_module: module_name_meta })
    }

    pub fn get_fns(&self) -> (r: Vec<&Function<'a>>)
        ensures
            pointees(r@) == self.functions@,
    {
        let mut fns: Vec<&Function<'a>> = Vec::new();
        let mut i: usize = 0;
        while i < self.functions.len()
            invariant
                i <= self.functions.len(),
                pointees(fns@) == self.functions@.take(i as int),
            decreases self.functions.len() - i,
        {
            let ghost before = fns@;
            fns.push(&self.functions[i]);
            assert(pointees(fns@) =~= pointees(before).push(self.functions@[i as int]));
            i += 1;
        }
        fns
    }

    pub fn get_module_ident(&self) -> (r: &Ident)
        ensures
            *r == self.original.ident,
    {
        &self.original.ident
    }

    /// The functions that are no hooks, in order.
    pub fn get_normal_fns(&self) -> (r: Vec<&Function<'a>>)
        ensures
            pointees(r@) == self.functions@.filter(normal_fn_pred()),
    {
        let mut fns: Vec<&Function<'a>> = Vec::new();
        let mut i: usize = 0;
        proof {
            reveal(Seq::filter);
        }
        while i < self.functions.len()
            invariant
                i <= self.functions.len(),
                pointees(fns@) == self.functions@.take(i as int).filter(normal_fn_pred()),
            decreases self.functions.len() - i,
        {
            proof {
                lemma_filter_step(self.functions@, normal_fn_pred(), i as int);
            }
            if !self.functions[i].is_detour_fn() {
                fns.push(&self.functions[i]);
            }
            i += 1;
        }
        assert(self.functions@.take(i as int) =~= self.functions@);
        fns
    }

    /// The hook functions, in order.
    pub fn get_detour_fns(&self) -> (r: Vec<&Function<'a>>)
        ensures
            pointees(r@) == self.functions@.filter(detour_fn_pred()),
    {
        let mut fns: Vec<&Function<'a>> = Vec::new();
        let mut i: usize = 0;
        proof {
            reveal(Seq::filter);
        }
        while i < self.functions.len()
            invariant
                i <= self.functions.len(),
                pointees(fns@) == self.functions@.take(i as int).filter(detour_fn_pred()),
            decreases self.functions.len() - i,
        {
            proof {
                lemma_filter_step(self.functions@, detour_fn_pred(), i as int);
            }
            if self.functions[i].is_detour_fn() {
                fns.push(&self.functions[i]);
            }
            i += 1;
        }
        assert(self.functions@.take(i as int) =~= self.functions@);
        fns
    }

    /// Returns a list of items other than functions that were originally in this module
    /// (things that should not be modified by the macro)
    pub fn get_items(&self) -> (r: &Vec<&'a Item>)
        ensures
            *r == self.other_items,
    {
        &self.other_items
    }

    pub fn library_name(&self) -> (r: &LitStr)
        ensures
            r == self.library_module,
    {
        self.library_module
    }
}


/// A function with more than one hook annotation is refused, and the
/// refusal points at the second annotation and at the first.
pub proof fn lemma_duplicate_hooks_refused(func: ItemFn)
    requires
        hooks_of(func.attrs@).len() >= 2,
    ensures
        function_check(func) == Err::<Option<HookAttributeArgsView>, _>(
            seq![
                (hooks_of(func.attrs@)[1].span, DUPLICATE_HOOK@),
                (hooks_of(func.attrs@)[0].span, DUPLICATE_HOOK@),
            ],
        ),
        function_check(func)->Err_0.len() == 2,
        function_check(func)->Err_0[0].0 == hooks_of(func.attrs@)[1].span,
        function_check(func)->Err_0[1].0 == hooks_of(func.attrs@)[0].span,
{
}

/// A function with one hook annotation that is itself declared `unsafe` is
/// refused, and never with the refusal of a repeated annotation.
pub proof fn lemma_unsafe_hook_refused(func: ItemFn)
    requires
        hooks_of(func.attrs@).len() == 1,
        func.sig.unsafety is Some,
    ensures
        function_check(func) is Err,
        function_check(func)->Err_0.len() == 1 || function_check(func)->Err_0[0].1
            != DUPLICATE_HOOK@,
        parse_hook_attribute(hooks_of(func.attrs@)[0].tokens@, hooks_of(func.attrs@)[0].span)
            is Ok ==> function_check(func)->Err_0.len() == 2 && function_check(func)->Err_0[0].0
            == func.sig.unsafety->0,
{
    reveal_strlit("Only 1 #[hook] can be applied to a function");
    reveal_strlit(
        "Hook functions can't be unsafe!\nYou've already marked the target function as unsafe. \nIf that's what you want, you can remove this `unsafe`",
    );
    reveal_strlit(
        "Hook functions can't be unsafe!\nIf your target function is unsafe, add it in the #[hook] macro",
    );
    assert(DUPLICATE_HOOK@[0] == 'O');
}

/// A module with a function that is refused is refused.
pub proof fn lemma_refused_function_refuses_module(items: Seq<Item>, i: int)
    requires
        0 <= i < items.len(),
        items[i] is Fn,
        function_check(items[i]->Fn_0) is Err,
    ensures
        module_refusal(items) is Some,
    decreases items.len(),
{
    if i < items.len() - 1 {
        lemma_refused_function_refuses_module(items.drop_last(), i);
    }
}

/// A module whose functions are all accepted is not refused.
pub proof fn lemma_accepted_functions_accept_module(items: Seq<Item>)
    requires
        forall|i: int|
            0 <= i < items.len() && (#[trigger] items[i]) is Fn ==> function_check(items[i]->Fn_0)
                is Ok,
    ensures
        module_refusal(items) is None,
    decreases items.len(),
{
    if items.len() > 0 {
        let rest = items.drop_last();
        assert forall|i: int| 0 <= i < rest.len() && (#[trigger] rest[i]) is Fn implies function_check(
            rest[i]->Fn_0,
        ) is Ok by {}
        lemma_accepted_functions_accept_module(rest);
    }
}

/// A function without a hook annotation keeps all its attributes.
pub proof fn lemma_no_hooks_keeps_attrs(attrs: Seq<Attribute>)
    requires
        hooks_of(attrs).len() == 0,
    ensures
        others_of(attrs) == attrs,
    decreases attrs.len(),
{
    reveal(Seq::filter);
    if attrs.len() > 0 {
        let rest = attrs.drop_last();
        if is_hook(attrs.last()) {
        } else {
            lemma_no_hooks_keeps_attrs(rest);
        }
    } else {
    }
}


/// The refusal of a module is that of its first refused function.
pub proof fn lemma_first_refusal_is_reported(items: Seq<Item>, i: int)
    requires
        0 <= i < items.len(),
        items[i] is Fn,
        function_check(items[i]->Fn_0) is Err,
        forall|k: int|
            0 <= k < i && (#[trigger] items[k]) is Fn ==> function_check(items[k]->Fn_0) is Ok,
    ensures
        module_refusal(items) == Some(function_check(items[i]->Fn_0)->Err_0),
{
    let first = items.take(i + 1);
    assert forall|k: int| 0 <= k < first.drop_last().len() && (
    #[trigger] first.drop_last()[k]) is Fn implies function_check(first.drop_last()[k]->Fn_0)
        is Ok by {}
    lemma_accepted_functions_accept_module(first.drop_last());
    lemma_module_refused(items, i + 1);
}

} // verus!
