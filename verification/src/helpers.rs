//! Builders of the types and attributes that emitted code is made of.

use vstd::prelude::*;
use vstd::string::StringExecFns;
use crate::fold::DetourInfo;
use crate::parse::{HookAttributeArgs, is_punct};
use crate::syntax::{
    Attribute,
    GenericArgument,
    Ident,
    IdentView,
    Path,
    PathSegment,
    Signature,
    Span,
    Type,
    TypeBareFn,
    abi_view,
};
use crate::token::{Token, TokenKind};
use crate::types::{all_typed, bare_fn_inputs, call_shape};

verus! {

/// Whether the type is `&str`, written at `span`: a reference to the path of
/// the one segment `str`.
pub open spec fn is_str_type(ty: Type, span: Span) -> bool {
    ty matches Type::Reference { elem, span: at } && at == span && elem.leading_colon is None
        && elem.segments@.len() == 1 && elem.segments@[0].ident@ == (IdentView {
        name: "str"@,
        span,
    }) && elem.segments@[0].arguments@.len() == 0
}

/// The type `&str`, written at `span`.
pub fn str_type_from_span(span: Span) -> (r: Type)
    ensures
        is_str_type(r, span),
{
    let mut segments: Vec<PathSegment> = Vec::new();
    segments.push(PathSegment { ident: Ident::new("str", span), arguments: Vec::new() });
    Type::Reference { elem: Path { leading_colon: None, segments }, span }
}

/// The text of the string literal that denotes `value`.
pub uninterp spec fn string_literal_text(value: Seq<char>) -> Seq<char>;

/// Writes a string as a string literal, with
/// `proc_macro2::Literal::string` and the literal's `to_string`. The
/// contract only names the text: the same string is always written the same
/// way.
#[verifier::external_body]
fn string_literal(value: &str) -> (r: String)
    ensures
        r@ == string_literal_text(value@),
{
    proc_macro2::Literal::string(value).to_string()
}

/// The tokens of a list of literals with a comma between two of them, all at
/// the call site.
pub open spec fn listed(literals: Seq<Seq<char>>, tokens: Seq<Token>) -> bool {
    &&& literals.len() == 0 ==> tokens.len() == 0
    &&& literals.len() > 0 ==> tokens.len() == 2 * literals.len() - 1
    &&& forall|i: int|
        0 <= i < tokens.len() ==> (#[trigger] tokens[i]).span == Span(0) && if i % 2 == 0 {
            tokens[i].kind == TokenKind::Literal && tokens[i].text@ == literals[i / 2]
        } else {
            is_punct(tokens[i], ',')
        }
}

/// The texts of a list of strings.
pub open spec fn texts(strings: Seq<String>) -> Seq<Seq<char>> {
    strings.map_values(|s: String| s@)
}

/// The literals that denote a list of strings.
pub open spec fn literal_texts(strings: Seq<String>) -> Seq<Seq<char>> {
    strings.map_values(|s: String| string_literal_text(s@))
}

/// The attribute `#[allow(..)]` over lints that are already written as
/// literals: the literals in order, with a comma between two of them.
pub fn allow_attr_of(literals: Vec<String>) -> (r: Attribute)
    ensures
        r.path@ == "allow"@,
        r.span == Span(0),
        listed(texts(literals@), r.tokens@),
{
    let mut tokens: Vec<Token> = Vec::new();
    let mut i: usize = 0;
    let ghost goal = texts(literals@);
    while i < literals.len()
        invariant
            i <= literals.len(),
            goal == texts(literals@),
            listed(goal.take(i as int), tokens@),
        decreases literals.len() - i,
    {
        let ghost before = tokens@;
        if i > 0 {
            let comma = Token {
                kind: TokenKind::Punct,
                text: String::from_str(","),
                span: Span::call_site(),
            };
            proof {
                reveal_strlit(",");
                assert(","@ =~= seq![',']);
            }
            tokens.push(comma);
        }
        tokens.push(
            Token { kind: TokenKind::Literal, text: literals[i].clone(), span: Span::call_site() },
        );
        proof {
            let next = goal.take(i as int + 1);
            assert forall|k: int| 0 <= k < tokens@.len() implies (#[trigger] tokens@[k]).span
                == Span(0) && if k % 2 == 0 {
                tokens@[k].kind == TokenKind::Literal && tokens@[k].text@ == next[k / 2]
            } else {
                is_punct(tokens@[k], ',')
            } by {
                if k < before.len() {
                    assert(tokens@[k] == before[k]);
                    assert(next[k / 2] == goal.take(i as int)[k / 2]);
                }
            }
        }
        i += 1;
    }
    assert(goal.take(i as int) =~= goal);
    Attribute { path: String::from_str("allow"), tokens, span: Span::call_site() }
}

/// The attribute `#[allow(..)]` over the given lints: each lint as a string
/// literal, with a comma between two of them.
pub fn allow_attr(allows: &Vec<String>) -> (r: Attribute)
    ensures
        r.path@ == "allow"@,
        r.span == Span(0),
        listed(literal_texts(allows@), r.tokens@),
{
    let mut literals: Vec<String> = Vec::new();
    let mut i: usize = 0;
    while i < allows.len()
        invariant
            i <= allows.len(),
            texts(literals@) == literal_texts(allows@).take(i as int),
        decreases allows.len() - i,
    {
        let ghost before = literals@;
        let literal = string_literal(allows[i].as_str());
        literals.push(literal);
        assert(texts(literals@) =~= texts(before).push(literal@));
        assert(literal_texts(allows@).take(i as int).push(literal@) =~= literal_texts(
            allows@,
        ).take(i as int + 1));
        i += 1;
    }
    assert(literal_texts(allows@).take(i as int) =~= literal_texts(allows@));
    allow_attr_of(literals)
}

/// The call shape of a hook: the parameter types and the return type of the
/// signature, with the unsafety and the calling convention that the
/// annotation declares. A signature with `self` has no call shape.
pub fn fn_type(fn_sig: &Signature, hook_info: &HookAttributeArgs) -> (r: Type)
    requires
        all_typed(fn_sig.inputs@),
    ensures
        r matches Type::BareFn(shape) && shape@ == call_shape(
            fn_sig@,
            hook_info.unsafety,
            abi_view(hook_info.abi),
        ),
{
    let abi = match &hook_info.abi {
        Some(a) => Some(a.duplicate()),
        None => None,
    };
    let variadic = match &fn_sig.variadic {
        Some(v) => Some(v.duplicate()),
        None => None,
    };
    Type::BareFn(
        TypeBareFn {
            unsafety: hook_info.unsafety,
            abi,
            inputs: bare_fn_inputs(fn_sig),
            variadic,
            output: fn_sig.output.clone(),
        },
    )
}

/// The type of a slot: `::krate::StaticDetour<shape>`, where `krate` is the
/// hooking engine's crate and `shape` the call shape of the hook.
pub fn static_detour_ty(info: &DetourInfo, detour_krate: &Ident) -> (r: Type)
    requires
        all_typed(info.fn_sig.inputs@),
    ensures
        r matches Type::Path(path) && {
            &&& path.leading_colon == Some(info.hook_attr.span)
            &&& path.segments@.len() == 2
            &&& path.segments@[0].ident == *detour_krate
            &&& path.segments@[0].arguments@.len() == 0
            &&& path.segments@[1].ident@ == (IdentView {
                name: "StaticDetour"@,
                span: info.hook_attr.span,
            })
            &&& path.segments@[1].arguments@.len() == 1
            &&& path.segments@[1].arguments@[0] matches GenericArgument::BareFn(shape) && shape@
                == call_shape(
                info.fn_sig@,
                info.hook_attr.unsafety,
                abi_view(info.hook_attr.abi),
            )
        },
{
    let span = info.hook_attr.span;
    let shape = match fn_type(&info.fn_sig, &info.hook_attr) {
        Type::BareFn(shape) => GenericArgument::BareFn(shape),
        _ => GenericArgument::Verbatim(String::new()),
    };
    let mut arguments: Vec<GenericArgument> = Vec::new();
    arguments.push(shape);
    let mut segments: Vec<PathSegment> = Vec::new();
    segments.push(PathSegment { ident: detour_krate.duplicate(), arguments: Vec::new() });
    segments.push(PathSegment { ident: Ident::new("StaticDetour", span), arguments });
    Type::Path(Path { leading_colon: Some(span), segments })
}

} // verus!
