//! The declarations that the compiler reads, as plain data. A front end
//! builds these values from source; what the compiler carries through without
//! looking inside (types, bodies, items that are not functions) is kept as the
//! text it was written as.

use vstd::prelude::*;
use crate::token::Token;

verus! {

/// A source location. The front end numbers its locations and keeps the
/// table; the compiler only hands them back in diagnostics.
#[derive(Debug, Clone, Copy, PartialEq, Eq, Structural)]
pub struct Span(pub usize);

/// A name with the place where it was written.
#[derive(Debug, Clone, PartialEq, Eq)]
pub struct Ident {
    pub name: String,
    pub span: Span,
}

/// A string literal, by the string it denotes.
#[derive(Debug, Clone, PartialEq, Eq)]
pub struct LitStr {
    pub value: String,
    pub span: Span,
}

/// An integer literal, by the number it denotes.
#[derive(Debug, Clone, Copy, PartialEq, Eq, Structural)]
pub struct LitInt {
    pub value: usize,
    pub span: Span,
}

/// `extern`, with the calling convention's name where one is written.
#[derive(Debug, Clone, PartialEq, Eq)]
pub struct Abi {
    pub name: Option<String>,
    pub span: Span,
}

/// An attribute `#[path(tokens)]`; `tokens` is the argument list, empty
/// where there is none.
#[derive(Debug, Clone, PartialEq, Eq)]
pub struct Attribute {
    pub path: String,
    pub tokens: Vec<Token>,
    pub span: Span,
}

/// A pattern that binds one name: `ref mut name @ subpattern`, each part
/// but the name optional.
#[derive(Debug, Clone, PartialEq, Eq)]
pub struct PatIdent {
    pub ident: Ident,
    /// Where `ref` is written, if it is.
    pub by_ref: Option<Span>,
    /// Where `mut` is written, if it is.
    pub mutability: Option<Span>,
    /// The subpattern after `@`, as written, if there is one.
    pub subpat: Option<String>,
}

/// The pattern of a function parameter.
#[derive(Debug, Clone, PartialEq, Eq)]
pub enum Pat {
    /// A pattern that binds one name.
    Ident(PatIdent),
    /// A path used as a pattern.
    Path(Ident),
    /// Anything else, as written: it takes its argument apart.
    Other { text: String, span: Span },
}

/// A parameter `pat: ty`, with the attributes written on it.
#[derive(Debug, Clone, PartialEq, Eq)]
pub struct PatType {
    pub attrs: String,
    pub pat: Pat,
    pub ty: String,
}

#[derive(Debug, Clone, PartialEq, Eq)]
pub enum FnArg {
    /// `self` in one of its forms.
    Receiver(Span),
    Typed(PatType),
}

/// A trailing `...` in a parameter list.
#[derive(Debug, Clone, PartialEq, Eq)]
pub struct Variadic {
    pub attrs: String,
    pub span: Span,
}

/// A function's signature. `output` is the return type with its arrow, empty
/// where none is written.
#[derive(Debug, Clone, PartialEq, Eq)]
pub struct Signature {
    pub unsafety: Option<Span>,
    pub abi: Option<Abi>,
    pub ident: Ident,
    pub inputs: Vec<FnArg>,
    pub variadic: Option<Variadic>,
    pub output: String,
}

/// A function with its attributes, visibility and body.
#[derive(Debug, Clone, PartialEq, Eq)]
pub struct ItemFn {
    pub attrs: Vec<Attribute>,
    pub vis: String,
    pub sig: Signature,
    pub block: String,
    pub span: Span,
}

/// One item of a module: a function, or anything else as written.
#[derive(Debug, Clone, PartialEq, Eq)]
pub enum Item {
    Fn(ItemFn),
    Verbatim(String),
}

/// A module block; `content` is absent for `mod name;`.
#[derive(Debug, Clone, PartialEq, Eq)]
pub struct ItemMod {
    pub ident: Ident,
    pub content: Option<Vec<Item>>,
}

/// One parameter of a function pointer type: a type without a name.
#[derive(Debug, Clone, PartialEq, Eq)]
pub struct BareFnArg {
    pub attrs: String,
    pub ty: String,
}

/// A function pointer type `unsafe extern "abi" fn(inputs) output`.
#[derive(Debug, Clone, PartialEq, Eq)]
pub struct TypeBareFn {
    pub unsafety: Option<Span>,
    pub abi: Option<Abi>,
    pub inputs: Vec<BareFnArg>,
    pub variadic: Option<Variadic>,
    pub output: String,
}

/// A generic argument of a path segment.
#[derive(Debug, Clone, PartialEq, Eq)]
pub enum GenericArgument {
    /// A function pointer type.
    BareFn(TypeBareFn),
    /// Any other argument, as written.
    Verbatim(String),
}

/// One segment of a path, with its generic arguments in angle brackets;
/// no brackets are written where there are none.
#[derive(Debug, Clone, PartialEq, Eq)]
pub struct PathSegment {
    pub ident: Ident,
    pub arguments: Vec<GenericArgument>,
}

/// A path `::a::b<T>`.
#[derive(Debug, Clone, PartialEq, Eq)]
pub struct Path {
    pub leading_colon: Option<Span>,
    pub segments: Vec<PathSegment>,
}

/// A type that the compiler builds.
#[derive(Debug, Clone, PartialEq, Eq)]
pub enum Type {
    /// `&elem`, shared and without a lifetime.
    Reference { elem: Path, span: Span },
    Path(Path),
    BareFn(TypeBareFn),
}

/// An identifier as a value: its characters and its place.
pub struct IdentView {
    pub name: Seq<char>,
    pub span: Span,
}

/// A string literal as a value.
pub struct LitStrView {
    pub value: Seq<char>,
    pub span: Span,
}

/// A calling convention as a value.
pub struct AbiView {
    pub name: Option<Seq<char>>,
    pub span: Span,
}

impl View for Ident {
    type V = IdentView;

    open spec fn view(&self) -> IdentView {
        IdentView { name: self.name@, span: self.span }
    }
}

impl View for LitStr {
    type V = LitStrView;

    open spec fn view(&self) -> LitStrView {
        LitStrView { value: self.value@, span: self.span }
    }
}

impl View for Abi {
    type V = AbiView;

    open spec fn view(&self) -> AbiView {
        AbiView {
            name: match self.name {
                Some(n) => Some(n@),
                None => None,
            },
            span: self.span,
        }
    }
}

/// An attribute as a value.
pub struct AttributeView {
    pub path: Seq<char>,
    pub tokens: Seq<Token>,
    pub span: Span,
}

/// A signature as a value.
pub struct SignatureView {
    pub unsafety: Option<Span>,
    pub abi: Option<AbiView>,
    pub ident: IdentView,
    pub inputs: Seq<FnArg>,
    pub variadic: Option<Variadic>,
    pub output: Seq<char>,
}

/// A function pointer type as a value.
pub struct TypeBareFnView {
    pub unsafety: Option<Span>,
    pub abi: Option<AbiView>,
    pub inputs: Seq<BareFnArg>,
    pub variadic: Option<Variadic>,
    pub output: Seq<char>,
}

impl View for TypeBareFn {
    type V = TypeBareFnView;

    open spec fn view(&self) -> TypeBareFnView {
        TypeBareFnView {
            unsafety: self.unsafety,
            abi: abi_view(self.abi),
            inputs: self.inputs@,
            variadic: self.variadic,
            output: self.output@,
        }
    }
}

/// The values of a list of attributes.
pub open spec fn attr_views(attrs: Seq<Attribute>) -> Seq<AttributeView> {
    attrs.map_values(|a: Attribute| a@)
}

/// A function as a value.
pub struct ItemFnView {
    pub attrs: Seq<AttributeView>,
    pub vis: Seq<char>,
    pub sig: SignatureView,
    pub block: Seq<char>,
    pub span: Span,
}

impl View for Attribute {
    type V = AttributeView;

    open spec fn view(&self) -> AttributeView {
        AttributeView { path: self.path@, tokens: self.tokens@, span: self.span }
    }
}

impl View for Signature {
    type V = SignatureView;

    open spec fn view(&self) -> SignatureView {
        SignatureView {
            unsafety: self.unsafety,
            abi: abi_view(self.abi),
            ident: self.ident@,
            inputs: self.inputs@,
            variadic: self.variadic,
            output: self.output@,
        }
    }
}

impl View for ItemFn {
    type V = ItemFnView;

    open spec fn view(&self) -> ItemFnView {
        ItemFnView {
            attrs: attr_views(self.attrs@),
            vis: self.vis@,
            sig: self.sig@,
            block: self.block@,
            span: self.span,
        }
    }
}

/// An item as a value.
pub enum ItemView {
    Fn(ItemFnView),
    Verbatim(Seq<char>),
}

impl View for Item {
    type V = ItemView;

    open spec fn view(&self) -> ItemView {
        match self {
            Item::Fn(func) => ItemView::Fn(func@),
            Item::Verbatim(text) => ItemView::Verbatim(text@),
        }
    }
}

/// The values of a list of items.
pub open spec fn item_views(items: Seq<Item>) -> Seq<ItemView> {
    items.map_values(|item: Item| item@)
}

/// The value of an optional calling convention.
pub open spec fn abi_view(abi: Option<Abi>) -> Option<AbiView> {
    match abi {
        Some(a) => Some(a@),
        None => None,
    }
}

impl Span {
    /// The location of the macro's own invocation.
    pub fn call_site() -> (r: Span)
        ensures
            r == Span(0),
    {
        Span(0)
    }
}

impl Ident {
    pub fn new(name: &str, span: Span) -> (r: Ident)
        ensures
            r.name@ == name@,
            r.span == span,
    {
        Ident { name: name.to_owned(), span }
    }

    /// A copy of this identifier.
    pub fn duplicate(&self) -> (r: Ident)
        ensures
            r == *self,
    {
        Ident { name: self.name.clone(), span: self.span }
    }
}

impl LitStr {
    pub fn new(value: &str, span: Span) -> (r: LitStr)
        ensures
            r.value@ == value@,
            r.span == span,
    {
        LitStr { value: value.to_owned(), span }
    }

    pub fn duplicate(&self) -> (r: LitStr)
        ensures
            r == *self,
    {
        LitStr { value: self.value.clone(), span: self.span }
    }
}

impl Abi {
    pub fn duplicate(&self) -> (r: Abi)
        ensures
            r == *self,
    {
        let name = match &self.name {
            Some(n) => Some(n.clone()),
            None => None,
        };
        Abi { name, span: self.span }
    }
}

impl Attribute {
    pub fn duplicate(&self) -> (r: Attribute)
        ensures
            r@ == self@,
    {
        let mut tokens: Vec<Token> = Vec::new();
        let mut i: usize = 0;
        while i < self.tokens.len()
            invariant
                i <= self.tokens.len(),
                tokens@ == self.tokens@.take(i as int),
            decreases self.tokens.len() - i,
        {
            tokens.push(self.tokens[i].duplicate());
            i += 1;
        }
        assert(self.tokens@.take(i as int) =~= self.tokens@);
        Attribute { path: self.path.clone(), tokens, span: self.span }
    }
}

impl PatIdent {
    /// The pattern that is the name and nothing else.
    pub fn plain(name: &str, span: Span) -> (r: PatIdent)
        ensures
            r.ident@ == (IdentView { name: name@, span }),
            r.by_ref is None,
            r.mutability is None,
            r.subpat is None,
    {
        PatIdent { ident: Ident::new(name, span), by_ref: None, mutability: None, subpat: None }
    }
}

impl Pat {
    pub fn duplicate(&self) -> (r: Pat)
        ensures
            r == *self,
    {
        match self {
            Pat::Ident(name) => Pat::Ident(
                PatIdent {
                    ident: name.ident.duplicate(),
                    by_ref: name.by_ref,
                    mutability: name.mutability,
                    subpat: match &name.subpat {
                        Some(text) => Some(text.clone()),
                        None => None,
                    },
                },
            ),
            Pat::Path(path) => Pat::Path(path.duplicate()),
            Pat::Other { text, span } => Pat::Other { text: text.clone(), span: *span },
        }
    }
}

impl FnArg {
    pub fn duplicate(&self) -> (r: FnArg)
        ensures
            r == *self,
    {
        match self {
            FnArg::Receiver(span) => FnArg::Receiver(*span),
            FnArg::Typed(arg) => FnArg::Typed(
                PatType { attrs: arg.attrs.clone(), pat: arg.pat.duplicate(), ty: arg.ty.clone() },
            ),
        }
    }
}

impl ItemFn {
    pub fn duplicate(&self) -> (r: ItemFn)
        ensures
            r@ == self@,
    {
        let mut attrs: Vec<Attribute> = Vec::new();
        let mut i: usize = 0;
        let ghost goal = attr_views(self.attrs@);
        while i < self.attrs.len()
            invariant
                i <= self.attrs.len(),
                goal == attr_views(self.attrs@),
                attr_views(attrs@) == goal.take(i as int),
            decreases self.attrs.len() - i,
        {
            let ghost before = attrs@;
            attrs.push(self.attrs[i].duplicate());
            assert(attr_views(attrs@) =~= attr_views(before).push(goal[i as int]));
            i += 1;
        }
        assert(goal.take(i as int) =~= goal);
        ItemFn {
            attrs,
            vis: self.vis.clone(),
            sig: self.sig.duplicate(),
            block: self.block.clone(),
            span: self.span,
        }
    }
}

impl Item {
    pub fn duplicate(&self) -> (r: Item)
        ensures
            r@ == self@,
    {
        match self {
            Item::Fn(func) => Item::Fn(func.duplicate()),
            Item::Verbatim(text) => Item::Verbatim(text.clone()),
        }
    }
}

impl Signature {
    pub fn duplicate(&self) -> (r: Signature)
        ensures
            r@ == self@,
    {
        let mut inputs: Vec<FnArg> = Vec::new();
        let mut i: usize = 0;
        while i < self.inputs.len()
            invariant
                i <= self.inputs.len(),
                inputs@ == self.inputs@.take(i as int),
            decreases self.inputs.len() - i,
        {
            inputs.push(self.inputs[i].duplicate());
            i += 1;
        }
        assert(self.inputs@.take(i as int) =~= self.inputs@);
        let abi = match &self.abi {
            Some(a) => Some(a.duplicate()),
            None => None,
        };
        let variadic = match &self.variadic {
            Some(v) => Some(v.duplicate()),
            None => None,
        };
        Signature {
            unsafety: self.unsafety,
            abi,
            ident: self.ident.duplicate(),
            inputs,
            variadic,
            output: self.output.clone(),
        }
    }
}

impl Variadic {
    pub fn duplicate(&self) -> (r: Variadic)
        ensures
            r == *self,
    {
        Variadic { attrs: self.attrs.clone(), span: self.span }
    }
}

} // verus!
