//! Collecting the hooks of a module one function at a time: each function is
//! handed over, gives up its hook annotations, and comes back without them.

use vstd::prelude::*;
use crate::expand::{
    TRAMPOLINE_NAME,
    detour_def,
    lemma_forwarded_are_typed,
    trampoline_sig,
};
use crate::helpers::{
    fn_type,
    is_str_type,
    str_type_from_span,
};
use crate::output::{
    InitDetour,
    InitDetourView,
    InitDetoursFn,
    ModuleNameDecl,
    StaticDetour,
    Trampoline,
};
use crate::parse::{
    HookAttributeArgs,
    HookAttributeArgsView,
    Refusal,
    is_word,
    lookup_for,
    parse_hook_attribute,
};
use crate::syntax::{
    Attribute,
    Ident,
    IdentView,
    ItemFn,
    ItemFnView,
    LitStr,
    Pat,
    Signature,
    SignatureView,
    Type,
    TypeBareFn,
    attr_views,
};
use crate::token::{Token, TokenKind};
use crate::types::{
    arg_names,
    fn_arg_names,
    is_hook,
    lemma_filter_step,
    other_pred,
    others_of,
    pointees,
};

verus! {

/// One hook: what its annotation says, and the signature it was written on.
#[derive(Debug, Clone, PartialEq, Eq)]
pub struct DetourInfo {
    pub hook_attr: HookAttributeArgs,
    pub fn_sig: Signature,
}

/// The hooks of a module, in the order in which they were found.
#[derive(Debug, Clone, PartialEq, Eq)]
pub struct Detours {
    pub module_name: LitStr,
    pub detours: Vec<DetourInfo>,
}

pub struct DetourInfoView {
    pub hook_attr: HookAttributeArgsView,
    pub fn_sig: SignatureView,
}

impl View for DetourInfo {
    type V = DetourInfoView;

    open spec fn view(&self) -> DetourInfoView {
        DetourInfoView { hook_attr: self.hook_attr@, fn_sig: self.fn_sig@ }
    }
}

/// The values of a list of hooks.
pub open spec fn info_views(infos: Seq<DetourInfo>) -> Seq<DetourInfoView> {
    infos.map_values(|info: DetourInfo| info@)
}

/// The hooks that the attributes of one function declare: one for each hook
/// annotation that is well formed, in order. An annotation that is not well
/// formed declares nothing.
pub open spec fn declared(attrs: Seq<Attribute>, sig: SignatureView) -> Seq<DetourInfoView>
    decreases attrs.len(),
{
    if attrs.len() == 0 {
        Seq::empty()
    } else {
        let before = declared(attrs.drop_last(), sig);
        if is_hook(attrs.last()) {
            match parse_hook_attribute(attrs.last().tokens@, attrs.last().span) {
                Ok(hook) => before.push(DetourInfoView { hook_attr: hook, fn_sig: sig }),
                Err(_) => before,
            }
        } else {
            before
        }
    }
}

/// The activation statement of a hook.
pub open spec fn detour_init(
    info: DetourInfoView,
    library: Seq<char>,
    parent: IdentView,
    krate: IdentView,
) -> InitDetourView {
    InitDetourView {
        lookup: lookup_for(info.hook_attr.hook_info, library),
        detour_name: info.hook_attr.detour_name,
        orig_func_name: info.fn_sig.ident,
        parent_krate: parent,
        detour_krate: krate,
        span: info.hook_attr.span,
    }
}

/// Whether the trampoline of every hook can forward every parameter.
pub open spec fn all_forward(infos: Seq<DetourInfo>) -> bool {
    forall|i: int| 0 <= i < infos.len() ==> arg_names((#[trigger] infos[i]).fn_sig.inputs@) is Ok
}


impl DetourInfo {
    /// The signature of the slot's trampoline.
    pub fn target_fn_decl(&self) -> (r: Signature)
        ensures
            r@ == trampoline_sig(self.fn_sig@, self.hook_attr@),
    {
        let copy = self.fn_sig.duplicate();
        let abi = match &self.hook_attr.abi {
            Some(a) => Some(a.duplicate()),
            None => None,
        };
        Signature {
            unsafety: self.hook_attr.unsafety,
            abi,
            ident: Ident::new(TRAMPOLINE_NAME, self.fn_sig.ident.span),
            inputs: copy.inputs,
            variadic: copy.variadic,
            output: copy.output,
        }
    }

    /// The definition of the hook's slot. A hook with a parameter that the
    /// trampoline cannot forward has none.
    pub fn get_static_detour(&self, detour_krate: &Ident) -> (r: StaticDetour)
        requires
            arg_names(self.fn_sig.inputs@) is Ok,
        ensures
            detour_def(self.fn_sig@, self.hook_attr@, detour_krate@) == Ok::<
                _,
                Refusal,
            >(r@),
    {
        proof {
            lemma_forwarded_are_typed(self.fn_sig.inputs@);
        }
        let names = match fn_arg_names(&self.fn_sig) {
            Ok(names) => names,
            Err(_) => Vec::new(),
        };
        let mut args: Vec<Pat> = Vec::new();
        let mut i: usize = 0;
        while i < names.len()
            invariant
                i <= names.len(),
                args@ == pointees(names@).take(i as int),
            decreases names.len() - i,
        {
            args.push(names[i].duplicate());
            i += 1;
        }
        assert(pointees(names@).take(i as int) =~= pointees(names@));
        let shape = match fn_type(&self.fn_sig, &self.hook_attr) {
            Type::BareFn(shape) => shape,
            _ => TypeBareFn {
                unsafety: None,
                abi: None,
                inputs: Vec::new(),
                variadic: None,
                output: String::new(),
            },
        };
        StaticDetour {
            vis: self.hook_attr.vis.clone(),
            name: self.hook_attr.detour_name.duplicate(),
            krate: detour_krate.duplicate(),
            shape,
            trampoline: Trampoline {
                sig: self.target_fn_decl(),
                slot: self.hook_attr.detour_name.duplicate(),
                args,
            },
            span: self.hook_attr.detour_name.span,
        }
    }

    /// The activation statement of the hook.
    pub fn generate_detour_init(
        &self,
        module_name: &LitStr,
        parent_krate: &Ident,
        detour_krate: &Ident,
    ) -> (r: InitDetour)
        ensures
            r@ == detour_init(self@, module_name.value@, parent_krate@, detour_krate@),
    {
        InitDetour {
            lookup: self.hook_attr.hook_info.get_lookup_data_new_fn(module_name),
            detour_name: self.hook_attr.detour_name.duplicate(),
            orig_func_name: self.fn_sig.ident.duplicate(),
            parent_krate: parent_krate.duplicate(),
            detour_krate: detour_krate.duplicate(),
            span: self.hook_attr.span,
        }
    }
}

impl Detours {
    pub fn new(module_name: LitStr) -> (r: Detours)
        ensures
            r.module_name == module_name,
            r.detours@.len() == 0,
    {
        Detours { module_name, detours: Vec::new() }
    }

    /// The slot definitions of all hooks, in order.
    pub fn generate_detour_decls(&self, detour_krate: &Ident) -> (r: Vec<StaticDetour>)
        requires
            all_forward(self.detours@),
        ensures
            r@.len() == self.detours@.len(),
            forall|i: int|
                0 <= i < r@.len() ==> detour_def(
                    self.detours@[i].fn_sig@,
                    self.detours@[i].hook_attr@,
                    detour_krate@,
                ) == Ok::<_, Refusal>((#[trigger] r@[i])@),
    {
        let mut decls: Vec<StaticDetour> = Vec::new();
        let mut i: usize = 0;
        while i < self.detours.len()
            invariant
                i <= self.detours.len(),
                all_forward(self.detours@),
                decls@.len() == i,
                forall|k: int|
                    0 <= k < i ==> detour_def(
                        self.detours@[k].fn_sig@,
                        self.detours@[k].hook_attr@,
                        detour_krate@,
                    ) == Ok::<_, Refusal>((#[trigger] decls@[k])@),
            decreases self.detours.len() - i,
        {
            decls.push(self.detours[i].get_static_detour(detour_krate));
            i += 1;
        }
        decls
    }

    /// Returns the constant that holds the module's name:
    /// `pub const MODULE_NAME: &str = "lua52.dll";`
    pub fn get_module_name_decl(&self) -> (r: ModuleNameDecl)
        ensures
            r.ident@ == (IdentView { name: "MODULE_NAME"@, span: self.module_name.span }),
            r.value == self.module_name,
            r.allow.path@ == "allow"@,
            r.allow.span == self.module_name.span,
            r.allow.tokens@.len() == 1,
            is_word(r.allow.tokens@[0], "unused"@),
            r.allow.tokens@[0].span == self.module_name.span,
            is_str_type(r.ty, self.module_name.span),
    {
        let span = self.module_name.span;
        let mut tokens: Vec<Token> = Vec::new();
        tokens.push(Token { kind: TokenKind::Ident, text: "unused".to_owned(), span });
        ModuleNameDecl {
            allow: Attribute { path: "allow".to_owned(), tokens, span },
            ident: Ident::new("MODULE_NAME", self.module_name.span),
            ty: str_type_from_span(self.module_name.span),
            value: self.module_name.duplicate(),
        }
    }

    /// The activation routine over all hooks, in order.
    pub fn generate_init_detours(&self, parent_krate: &Ident, detour_krate: &Ident) -> (r:
        InitDetoursFn)
        ensures
            r.krate_name == *parent_krate,
            r.init_funcs@.len() == self.detours@.len(),
            forall|i: int|
                0 <= i < r.init_funcs@.len() ==> (#[trigger] r.init_funcs@[i])@ == detour_init(
                    self.detours@[i]@,
                    self.module_name.value@,
                    parent_krate@,
                    detour_krate@,
                ),
    {
        let mut init_funcs: Vec<InitDetour> = Vec::new();
        let mut i: usize = 0;
        while i < self.detours.len()
            invariant
                i <= self.detours.len(),
                init_funcs@.len() == i,
                forall|k: int|
                    0 <= k < i ==> (#[trigger] init_funcs@[k])@ == detour_init(
                        self.detours@[k]@,
                        self.module_name.value@,
                        parent_krate@,
                        detour_krate@,
                    ),
            decreases self.detours.len() - i,
        {
            init_funcs.push(
                self.detours[i].generate_detour_init(&self.module_name, parent_krate, detour_krate),
            );
            i += 1;
        }
        InitDetoursFn { krate_name: parent_krate.duplicate(), init_funcs }
    }

    /// Takes the hook annotations off a function and remembers what each
    /// well-formed one declares. The function comes back with its other
    /// attributes, and otherwise as it was.
    pub fn fold_item_fn(&mut self, item_fn: ItemFn) -> (r: ItemFn)
        ensures
            r@ == (ItemFnView { attrs: attr_views(others_of(item_fn.attrs@)), ..item_fn@ }),
            final(self).module_name == old(self).module_name,
            info_views(final(self).detours@) == info_views(old(self).detours@) + declared(
                item_fn.attrs@,
                item_fn.sig@,
            ),
    {
        let ItemFn { attrs: found, vis, sig, block, span } = item_fn;
        let mut attrs: Vec<Attribute> = Vec::new();
        let hook_word = "hook".to_owned();
        let mut i: usize = 0;
        proof {
            reveal(Seq::filter);
        }
        while i < found.len()
            invariant
                i <= found.len(),
                hook_word@ == "hook"@,
                self.module_name == old(self).module_name,
                attr_views(attrs@) == attr_views(others_of(found@.take(i as int))),
                info_views(self.detours@) == info_views(old(self).detours@) + declared(
                    found@.take(i as int),
                    sig@,
                ),
            decreases found.len() - i,
        {
            let attr = &found[i];
            proof {
                lemma_filter_step(found@, other_pred(), i as int);
                assert(found@.take(i as int + 1).drop_last() =~= found@.take(i as int));
            }
            if attr.path == hook_word {
                if let Ok(hook_attr) = HookAttributeArgs::parse(&attr.tokens, attr.span) {
                    let ghost before = self.detours@;
                    let info = DetourInfo { hook_attr, fn_sig: sig.duplicate() };
                    self.detours.push(info);
                    assert(info_views(self.detours@) =~= info_views(before).push(info@));
                }
            } else {
                let ghost before = attrs@;
                let copy = attr.duplicate();
                attrs.push(copy);
                assert(attr_views(attrs@) =~= attr_views(before).push(copy@));
            }
            i += 1;
        }
        assert(found@.take(i as int) =~= found@);
        ItemFn { attrs, vis, sig, block, span }
    }
}

} // verus!
