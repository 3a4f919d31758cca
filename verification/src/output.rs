//! What the compiler emits for a module of declarations, as plain data: the
//! slot definitions with their trampolines, the activation routine, and what
//! passes through.

use vstd::prelude::*;
use crate::lookup::{LookupData, LookupView};
use crate::syntax::{
    Ident,
    IdentView,
    Item,
    ItemFn,
    ItemFnView,
    ItemView,
    item_views,
    LitStr,
    LitStrView,
    Pat,
    Signature,
    SignatureView,
    Span,
    TypeBareFn,
    TypeBareFnView,
};

verus! {

/// The forwarding function of a slot. Its body does one thing: it calls the
/// call-through path of `slot` with `args`, in this order, and returns what
/// comes back.
#[derive(Debug, Clone, PartialEq, Eq)]
pub struct Trampoline {
    pub sig: Signature,
    pub slot: Ident,
    pub args: Vec<Pat>,
}

/// The definition of one slot: a binding `vis static name`, of the engine's
/// slot type over the call shape, made from the trampoline.
#[derive(Debug, Clone, PartialEq, Eq)]
pub struct StaticDetour {
    pub vis: String,
    pub name: Ident,
    /// The crate of the hooking engine.
    pub krate: Ident,
    pub shape: TypeBareFn,
    pub trampoline: Trampoline,
    pub span: Span,
}

/// One statement of the activation routine: resolve `lookup`, initialize
/// the slot `detour_name` with the address and the function
/// `orig_func_name`, and enable it; leave the routine on failure.
#[derive(Debug, Clone, PartialEq, Eq)]
pub struct InitDetour {
    pub lookup: LookupData,
    pub detour_name: Ident,
    pub orig_func_name: Ident,
    pub parent_krate: Ident,
    pub detour_krate: Ident,
    pub span: Span,
}

/// The activation routine `init_detours`: its statements in order, and the
/// crate whose error type it returns.
#[derive(Debug, Clone, PartialEq, Eq)]
pub struct InitDetoursFn {
    pub krate_name: Ident,
    pub init_funcs: Vec<InitDetour>,
}

/// The constant that holds the library's name:
/// `pub const MODULE_NAME: &str = value;`, allowed to stay unused.
#[derive(Debug, Clone, PartialEq, Eq)]
pub struct ModuleNameDecl {
    pub allow: crate::syntax::Attribute,
    pub ident: Ident,
    pub ty: crate::syntax::Type,
    pub value: LitStr,
}

/// The emitted module.
#[derive(Debug, Clone, PartialEq, Eq)]
pub struct Expansion {
    pub mod_name: Ident,
    /// The value of the constant `MODULE_NAME`.
    pub library_name: LitStr,
    pub init_detours_fn: InitDetoursFn,
    /// The items that are no functions, as they were written.
    pub items: Vec<Item>,
    /// The functions, without their hook annotations.
    pub funcs: Vec<ItemFn>,
    pub detours_defs: Vec<StaticDetour>,
}

pub struct TrampolineView {
    pub sig: SignatureView,
    pub slot: IdentView,
    pub args: Seq<Pat>,
}

pub struct StaticDetourView {
    pub vis: Seq<char>,
    pub name: IdentView,
    pub krate: IdentView,
    pub shape: TypeBareFnView,
    pub trampoline: TrampolineView,
    pub span: Span,
}

pub struct InitDetourView {
    pub lookup: LookupView,
    pub detour_name: IdentView,
    pub orig_func_name: IdentView,
    pub parent_krate: IdentView,
    pub detour_krate: IdentView,
    pub span: Span,
}

pub struct InitDetoursFnView {
    pub krate_name: IdentView,
    pub init_funcs: Seq<InitDetourView>,
}

pub struct ExpansionView {
    pub mod_name: IdentView,
    pub library_name: LitStrView,
    pub init_detours_fn: InitDetoursFnView,
    pub items: Seq<ItemView>,
    pub funcs: Seq<ItemFnView>,
    pub detours_defs: Seq<StaticDetourView>,
}

impl View for Trampoline {
    type V = TrampolineView;

    open spec fn view(&self) -> TrampolineView {
        TrampolineView { sig: self.sig@, slot: self.slot@, args: self.args@ }
    }
}

impl View for StaticDetour {
    type V = StaticDetourView;

    open spec fn view(&self) -> StaticDetourView {
        StaticDetourView {
            vis: self.vis@,
            name: self.name@,
            krate: self.krate@,
            shape: self.shape@,
            trampoline: self.trampoline@,
            span: self.span,
        }
    }
}

impl View for InitDetour {
    type V = InitDetourView;

    open spec fn view(&self) -> InitDetourView {
        InitDetourView {
            lookup: self.lookup@,
            detour_name: self.detour_name@,
            orig_func_name: self.orig_func_name@,
            parent_krate: self.parent_krate@,
            detour_krate: self.detour_krate@,
            span: self.span,
        }
    }
}

/// The values of a list of activation statements.
pub open spec fn init_views(steps: Seq<InitDetour>) -> Seq<InitDetourView> {
    steps.map_values(|step: InitDetour| step@)
}

/// The values of a list of slot definitions.
pub open spec fn detour_views(defs: Seq<StaticDetour>) -> Seq<StaticDetourView> {
    defs.map_values(|def: StaticDetour| def@)
}

/// The values of a list of functions.
pub open spec fn fn_views(funcs: Seq<ItemFn>) -> Seq<ItemFnView> {
    funcs.map_values(|func: ItemFn| func@)
}

impl View for InitDetoursFn {
    type V = InitDetoursFnView;

    open spec fn view(&self) -> InitDetoursFnView {
        InitDetoursFnView { krate_name: self.krate_name@, init_funcs: init_views(self.init_funcs@) }
    }
}

impl View for Expansion {
    type V = ExpansionView;

    open spec fn view(&self) -> ExpansionView {
        ExpansionView {
            mod_name: self.mod_name@,
            library_name: self.library_name@,
            init_detours_fn: self.init_detours_fn@,
            items: item_views(self.items@),
            funcs: fn_views(self.funcs@),
            detours_defs: detour_views(self.detours_defs@),
        }
    }
}

} // verus!
