//! The argument list of a hook annotation:
//! `vis unsafe extern "abi" NAME, offset = INT` or `..., symbol = "STR"`,
//! where the visibility, `unsafe` and the calling convention are optional.
//!
//! The grammar is decided on the tokens together with their readings: what
//! the language's own readers say of each token's text. `parse` reads the
//! tokens and hands them to `parse_read`.

use vstd::prelude::*;
use vstd::string::StringExecFns;
use crate::diagnostic::Diagnostic;
use crate::lookup::{LookupData, LookupView};
use crate::syntax::{Abi, AbiView, Ident, IdentView, LitInt, LitStr, Span, abi_view};
use crate::token::{
    Reading,
    ReadingView,
    Token,
    TokenKind,
    accept_int_literal,
    blank,
    has_odd_radix,
    offset_value,
    read_tokens,
    reading_views,
    readings_of,
};

verus! {

/// Where the target of a hook is found: the one recognised key with its
/// literal.
#[derive(Debug, Clone, PartialEq, Eq)]
pub enum HookArg {
    Offset { value: LitInt },
    Symbol { value: LitStr },
}

/// Everything a hook annotation says.
#[derive(Debug, Clone, PartialEq, Eq)]
pub struct HookAttributeArgs {
    /// The visibility of the slot, as written; empty for a private slot.
    pub vis: String,
    /// Where the target is declared unsafe, if it is.
    pub unsafety: Option<Span>,
    /// The calling convention of the target.
    pub abi: Option<Abi>,
    /// The name under which the slot is bound.
    pub detour_name: Ident,
    pub hook_info: HookArg,
    /// The place of the annotation.
    pub span: Span,
}

pub enum HookArgView {
    Offset { value: usize, span: Span },
    Symbol { value: Seq<char>, span: Span },
}

pub struct HookAttributeArgsView {
    pub vis: Seq<char>,
    pub unsafety: Option<Span>,
    pub abi: Option<AbiView>,
    pub detour_name: IdentView,
    pub hook_info: HookArgView,
    pub span: Span,
}

impl View for HookArg {
    type V = HookArgView;

    open spec fn view(&self) -> HookArgView {
        match self {
            HookArg::Offset { value } => HookArgView::Offset {
                value: value.value,
                span: value.span,
            },
            HookArg::Symbol { value } => HookArgView::Symbol {
                value: value.value@,
                span: value.span,
            },
        }
    }
}

impl View for HookAttributeArgs {
    type V = HookAttributeArgsView;

    open spec fn view(&self) -> HookAttributeArgsView {
        HookAttributeArgsView {
            vis: self.vis@,
            unsafety: self.unsafety,
            abi: abi_view(self.abi),
            detour_name: self.detour_name@,
            hook_info: self.hook_info@,
            span: self.span,
        }
    }
}

/// The lookup that a hook's argument asks for inside the module `module`.
pub open spec fn lookup_for(arg: HookArgView, module: Seq<char>) -> LookupView {
    match arg {
        HookArgView::Offset { value, .. } => LookupView::Offset { module, offset: value },
        HookArgView::Symbol { value, .. } => LookupView::Symbol { module, symbol: value },
    }
}

/// A refusal by the parser: the place and the message.
pub type Refusal = (Span, Seq<char>);

/// Whether the token is the given word.
pub open spec fn is_word(token: Token, word: Seq<char>) -> bool {
    token.kind == TokenKind::Ident && token.text@ == word
}

/// Whether the token is the given punctuation character.
pub open spec fn is_punct(token: Token, c: char) -> bool {
    token.kind == TokenKind::Punct && token.text@ == seq![c]
}

/// The reading of the token at `at`; blank where no reading is given.
pub open spec fn reading_at(readings: Seq<ReadingView>, at: int) -> ReadingView {
    if 0 <= at < readings.len() {
        readings[at]
    } else {
        blank()
    }
}

/// Whether the token is a string literal.
pub open spec fn is_str_literal(token: Token, reading: ReadingView) -> bool {
    token.kind == TokenKind::Literal && reading.string is Some
}

/// Whether the token is an integer literal that gives an offset.
pub open spec fn is_int_literal(token: Token, reading: ReadingView) -> bool {
    token.kind == TokenKind::Literal && offset_value(token.text@, reading) is Some
}

/// Whether the token is a name: an identifier that is no reserved word.
pub open spec fn is_name(token: Token, reading: ReadingView) -> bool {
    token.kind == TokenKind::Ident && reading.identifier
}

/// Whether the token is a group that restricts `pub` before it.
pub open spec fn is_restriction(token: Token, reading: ReadingView) -> bool {
    token.kind == TokenKind::Group && reading.restriction
}

/// The place of the token at `at`, or `end` where the tokens have run out.
pub open spec fn place(tokens: Seq<Token>, at: int, end: Span) -> Span {
    if 0 <= at < tokens.len() {
        tokens[at].span
    } else {
        end
    }
}

/// How many tokens the visibility takes: `pub`, and after it the group that
/// makes one visibility with it. Any other group is no part of it.
pub open spec fn vis_end(tokens: Seq<Token>, readings: Seq<ReadingView>) -> int {
    if tokens.len() > 0 && is_word(tokens[0], "pub"@) {
        if tokens.len() > 1 && is_restriction(tokens[1], reading_at(readings, 1)) {
            2
        } else {
            1
        }
    } else {
        0
    }
}

/// The visibility as written.
pub open spec fn vis_text(tokens: Seq<Token>, readings: Seq<ReadingView>) -> Seq<char> {
    if vis_end(tokens, readings) == 2 {
        "pub"@ + tokens[1].text@
    } else if vis_end(tokens, readings) == 1 {
        "pub"@
    } else {
        Seq::empty()
    }
}

/// Where the tokens stand after the visibility and `unsafe`.
pub open spec fn unsafety_end(tokens: Seq<Token>, readings: Seq<ReadingView>) -> int {
    let at = vis_end(tokens, readings);
    if at < tokens.len() && is_word(tokens[at], "unsafe"@) {
        at + 1
    } else {
        at
    }
}

/// The place of `unsafe`, if it is written.
pub open spec fn unsafety_of(tokens: Seq<Token>, readings: Seq<ReadingView>) -> Option<Span> {
    if unsafety_end(tokens, readings) > vis_end(tokens, readings) {
        Some(tokens[vis_end(tokens, readings)].span)
    } else {
        None
    }
}

/// Where the tokens stand after the calling convention: `extern`, and a
/// string literal after it.
pub open spec fn abi_end(tokens: Seq<Token>, readings: Seq<ReadingView>) -> int {
    let at = unsafety_end(tokens, readings);
    if at < tokens.len() && is_word(tokens[at], "extern"@) {
        if at + 1 < tokens.len() && is_str_literal(tokens[at + 1], reading_at(readings, at + 1)) {
            at + 2
        } else {
            at + 1
        }
    } else {
        at
    }
}

/// The calling convention, if one is written.
pub open spec fn abi_of(tokens: Seq<Token>, readings: Seq<ReadingView>) -> Option<AbiView> {
    let at = unsafety_end(tokens, readings);
    if abi_end(tokens, readings) == at + 2 {
        Some(AbiView { name: reading_at(readings, at + 1).string, span: tokens[at].span })
    } else if abi_end(tokens, readings) == at + 1 {
        Some(AbiView { name: None, span: tokens[at].span })
    } else {
        None
    }
}

/// The message for a lookup argument of the wrong shape.
pub open spec fn expected_lookup() -> Seq<char> {
    "expected exactly one of `offset = 0x1234` or `symbol = \"name\"`"@
}

/// What the tokens from `at` on say of the target, given their readings:
/// exactly one of `offset = <integer literal>` and
/// `symbol = <string literal>`, and nothing after it.
pub open spec fn hook_arg(
    tokens: Seq<Token>,
    readings: Seq<ReadingView>,
    at: int,
    end: Span,
) -> Result<HookArgView, Refusal> {
    if at >= tokens.len() {
        Err((end, expected_lookup()))
    } else if !is_word(tokens[at], "offset"@) && !is_word(tokens[at], "symbol"@) {
        Err((tokens[at].span, expected_lookup()))
    } else if at + 1 >= tokens.len() || !is_punct(tokens[at + 1], '=') {
        Err((place(tokens, at + 1, end), "expected `=`"@))
    } else if is_word(tokens[at], "offset"@) {
        if at + 2 >= tokens.len() || !is_int_literal(tokens[at + 2], reading_at(readings, at + 2)) {
            Err(
                (
                    place(tokens, at + 2, end),
                    "expected an integer literal, decimal or hexadecimal with `0x`"@,
                ),
            )
        } else if at + 3 < tokens.len() {
            Err((tokens[at + 3].span, expected_lookup()))
        } else {
            Ok(
                HookArgView::Offset {
                    value: offset_value(tokens[at + 2].text@, reading_at(readings, at + 2))->0,
                    span: tokens[at + 2].span,
                },
            )
        }
    } else {
        if at + 2 >= tokens.len() || !is_str_literal(tokens[at + 2], reading_at(readings, at + 2)) {
            Err((place(tokens, at + 2, end), "expected a string literal"@))
        } else if at + 3 < tokens.len() {
            Err((tokens[at + 3].span, expected_lookup()))
        } else {
            Ok(
                HookArgView::Symbol {
                    value: reading_at(readings, at + 2).string->0,
                    span: tokens[at + 2].span,
                },
            )
        }
    }
}

/// What a hook annotation's tokens say, given their readings, or why they
/// are refused. `span` is the place of the annotation; it stands in for the
/// place of a token that is missing.
pub open spec fn hook_attribute(
    tokens: Seq<Token>,
    readings: Seq<ReadingView>,
    span: Span,
) -> Result<HookAttributeArgsView, Refusal> {
    let at = abi_end(tokens, readings);
    if at >= tokens.len() || !is_name(tokens[at], reading_at(readings, at)) {
        Err((place(tokens, at, span), "expected the name of the detour"@))
    } else if at + 1 >= tokens.len() || !is_punct(tokens[at + 1], ',') {
        Err((place(tokens, at + 1, span), "expected `,`"@))
    } else {
        match hook_arg(tokens, readings, at + 2, span) {
            Err(refusal) => Err(refusal),
            Ok(hook_info) => Ok(
                HookAttributeArgsView {
                    vis: vis_text(tokens, readings),
                    unsafety: unsafety_of(tokens, readings),
                    abi: abi_of(tokens, readings),
                    detour_name: IdentView { name: tokens[at].text@, span: tokens[at].span },
                    hook_info,
                    span,
                },
            ),
        }
    }
}

/// What the tokens from `at` on say of the target, each token read as the
/// language reads it.
pub open spec fn parse_hook_arg(tokens: Seq<Token>, at: int, end: Span) -> Result<
    HookArgView,
    Refusal,
> {
    hook_arg(tokens, readings_of(tokens), at, end)
}

/// What a hook annotation's tokens say, each token read as the language
/// reads it.
pub open spec fn parse_hook_attribute(tokens: Seq<Token>, span: Span) -> Result<
    HookAttributeArgsView,
    Refusal,
> {
    hook_attribute(tokens, readings_of(tokens), span)
}

/// A group after `pub` that makes no visibility with it is no part of the
/// annotation's visibility: the annotation is refused at the group, where the
/// name of the detour is expected.
pub proof fn lemma_other_group_after_pub_is_refused(
    tokens: Seq<Token>,
    readings: Seq<ReadingView>,
    span: Span,
)
    requires
        tokens.len() > 1,
        is_word(tokens[0], "pub"@),
        tokens[1].kind == TokenKind::Group,
        !reading_at(readings, 1).restriction,
    ensures
        hook_attribute(tokens, readings, span) == Err::<HookAttributeArgsView, Refusal>(
            (tokens[1].span, "expected the name of the detour"@),
        ),
{
}

/// An offset is written in decimal or in hexadecimal: a literal that starts
/// like an octal or a binary one gives none, whatever number it denotes.
pub proof fn lemma_octal_and_binary_give_no_offset(text: Seq<char>, reading: ReadingView)
    requires
        has_odd_radix(text),
    ensures
        offset_value(text, reading) is None,
        forall|token: Token| token.text@ == text ==> !is_int_literal(token, reading),
{
}

/// Whether a parser's result is what the grammar says.
pub open spec fn agrees<T: View>(r: Result<T, Diagnostic>, expected: Result<T::V, Refusal>) -> bool {
    match (r, expected) {
        (Ok(value), Ok(view)) => value@ == view,
        (Err(diagnostic), Err(refusal)) => diagnostic@ == seq![refusal],
        _ => false,
    }
}

fn token_is_word(token: &Token, word: &str) -> (r: bool)
    ensures
        r == is_word(*token, word@),
{
    match token.kind {
        TokenKind::Ident => token.text == String::from_str(word),
        _ => false,
    }
}

fn token_is_punct(token: &Token, c: char) -> (r: bool)
    ensures
        r == is_punct(*token, c),
{
    match token.kind {
        TokenKind::Punct => {
            let text = token.text.as_str();
            let r = text.unicode_len() == 1 && text.get_char(0) == c;
            assert(r ==> text@ =~= seq![c]);
            r
        },
        _ => false,
    }
}

fn token_is_kind(token: &Token, kind: TokenKind) -> (r: bool)
    ensures
        r == (token.kind == kind),
{
    token.kind == kind
}

fn place_of(tokens: &Vec<Token>, at: usize, end: Span) -> (r: Span)
    ensures
        r == place(tokens@, at as int, end),
{
    if at < tokens.len() {
        tokens[at].span
    } else {
        end
    }
}

/// The string that the token at `at` denotes, if it is a string literal.
fn str_at<'a>(tokens: &Vec<Token>, readings: &'a Vec<Reading>, at: usize) -> (r: Option<&'a String>)
    ensures
        match r {
            Some(value) => at < tokens@.len() && is_str_literal(
                tokens@[at as int],
                reading_at(reading_views(readings@), at as int),
            ) && Some(value@) == reading_at(reading_views(readings@), at as int).string,
            None => at >= tokens@.len() || !is_str_literal(
                tokens@[at as int],
                reading_at(reading_views(readings@), at as int),
            ),
        },
{
    if at < tokens.len() && at < readings.len() && token_is_kind(&tokens[at], TokenKind::Literal) {
        match &readings[at].string {
            Some(value) => Some(value),
            None => None,
        }
    } else {
        None
    }
}

/// The offset that the token at `at` gives, if it is an integer literal.
fn int_at(tokens: &Vec<Token>, readings: &Vec<Reading>, at: usize) -> (r: Option<usize>)
    ensures
        match r {
            Some(value) => at < tokens@.len() && Some(value) == offset_value(
                tokens@[at as int].text@,
                reading_at(reading_views(readings@), at as int),
            ) && tokens@[at as int].kind == TokenKind::Literal,
            None => at >= tokens@.len() || !is_int_literal(
                tokens@[at as int],
                reading_at(reading_views(readings@), at as int),
            ),
        },
{
    if at < tokens.len() && at < readings.len() && token_is_kind(&tokens[at], TokenKind::Literal) {
        accept_int_literal(tokens[at].text.as_str(), &readings[at])
    } else {
        proof {
            reveal_strlit("usize");
        }
        None
    }
}

fn name_at(tokens: &Vec<Token>, readings: &Vec<Reading>, at: usize) -> (r: bool)
    ensures
        r == (at < tokens@.len() && is_name(
            tokens@[at as int],
            reading_at(reading_views(readings@), at as int),
        )),
{
    at < tokens.len() && at < readings.len() && token_is_kind(&tokens[at], TokenKind::Ident)
        && readings[at].identifier
}

fn restriction_at(tokens: &Vec<Token>, readings: &Vec<Reading>, at: usize) -> (r: bool)
    ensures
        r == (at < tokens@.len() && is_restriction(
            tokens@[at as int],
            reading_at(reading_views(readings@), at as int),
        )),
{
    at < tokens.len() && at < readings.len() && token_is_kind(&tokens[at], TokenKind::Group)
        && readings[at].restriction
}

impl HookArg {
    /// Reads the lookup argument that starts at the token `at`, from the
    /// tokens and their readings. A token without a reading is read as
    /// nothing.
    pub fn parse_read(tokens: &Vec<Token>, readings: &Vec<Reading>, at: usize, end: Span) -> (r:
        Result<HookArg, Diagnostic>)
        ensures
            agrees(r, hook_arg(tokens@, reading_views(readings@), at as int, end)),
    {
        if at >= tokens.len() {
            return Err(
                Diagnostic::new(
                    end,
                    "expected exactly one of `offset = 0x1234` or `symbol = \"name\"`",
                ),
            );
        }
        let offset = token_is_word(&tokens[at], "offset");
        let symbol = token_is_word(&tokens[at], "symbol");
        if !offset && !symbol {
            return Err(
                Diagnostic::new(
                    tokens[at].span,
                    "expected exactly one of `offset = 0x1234` or `symbol = \"name\"`",
                ),
            );
        }
        let left: usize = tokens.len() - at;
        if left < 2 || !token_is_punct(&tokens[at + 1], '=') {
            return Err(Diagnostic::new(place_of(tokens, at + 1, end), "expected `=`"));
        }
        if offset {
            let value = if left >= 3 {
                int_at(tokens, readings, at + 2)
            } else {
                None
            };
            match value {
                None => Err(
                    Diagnostic::new(
                        place_of(tokens, at + 2, end),
                        "expected an integer literal, decimal or hexadecimal with `0x`",
                    ),
                ),
                Some(value) => {
                    if left > 3 {
                        Err(
                            Diagnostic::new(
                                tokens[at + 3].span,
                                "expected exactly one of `offset = 0x1234` or `symbol = \"name\"`",
                            ),
                        )
                    } else {
                        Ok(HookArg::Offset { value: LitInt { value, span: tokens[at + 2].span } })
                    }
                },
            }
        } else {
            let value = if left >= 3 {
                str_at(tokens, readings, at + 2)
            } else {
                None
            };
            match value {
                None => Err(
                    Diagnostic::new(place_of(tokens, at + 2, end), "expected a string literal"),
                ),
                Some(value) => {
                    if left > 3 {
                        Err(
                            Diagnostic::new(
                                tokens[at + 3].span,
                                "expected exactly one of `offset = 0x1234` or `symbol = \"name\"`",
                            ),
                        )
                    } else {
                        Ok(
                            HookArg::Symbol {
                                value: LitStr { value: value.clone(), span: tokens[at + 2].span },
                            },
                        )
                    }
                },
            }
        }
    }

    /// Reads the lookup argument that starts at the token `at`.
    pub fn parse(tokens: &Vec<Token>, at: usize, end: Span) -> (r: Result<HookArg, Diagnostic>)
        ensures
            agrees(r, parse_hook_arg(tokens@, at as int, end)),
    {
        let readings = read_tokens(tokens);
        HookArg::parse_read(tokens, &readings, at, end)
    }

    /// The lookup that this argument asks for inside the named module.
    pub fn get_lookup_data_new_fn(&self, module_name: &LitStr) -> (r: LookupData)
        ensures
            r@ == lookup_for(self@, module_name.value@),
    {
        match self {
            HookArg::Offset { value } => LookupData::from_offset(
                module_name.value.clone(),
                value.value,
            ),
            HookArg::Symbol { value } => LookupData::from_symbol(
                module_name.value.clone(),
                value.value.clone(),
            ),
        }
    }

    /// The place of the literal.
    pub fn span(&self) -> (r: Span)
        ensures
            r == match self@ {
                HookArgView::Offset { span, .. } => span,
                HookArgView::Symbol { span, .. } => span,
            },
    {
        match self {
            HookArg::Offset { value } => value.span,
            HookArg::Symbol { value } => value.span,
        }
    }
}

impl HookAttributeArgs {
    /// Reads the argument list of a hook annotation written at `span`, from
    /// the tokens and their readings. A token without a reading is read as
    /// nothing.
    pub fn parse_read(tokens: &Vec<Token>, readings: &Vec<Reading>, span: Span) -> (r: Result<
        HookAttributeArgs,
        Diagnostic,
    >)
        ensures
            agrees(r, hook_attribute(tokens@, reading_views(readings@), span)),
    {
        let ghost read = reading_views(readings@);
        let mut at: usize = 0;
        let mut vis = String::new();
        if at < tokens.len() && token_is_word(&tokens[at], "pub") {
            vis = String::from_str("pub");
            at = 1;
            if restriction_at(tokens, readings, at) {
                vis = vis.concat(tokens[at].text.as_str());
                at = 2;
            }
        }
        assert(at == vis_end(tokens@, read));
        assert(vis@ =~= vis_text(tokens@, read));
        let mut unsafety: Option<Span> = None;
        if at < tokens.len() && token_is_word(&tokens[at], "unsafe") {
            unsafety = Some(tokens[at].span);
            at = at + 1;
        }
        assert(at == unsafety_end(tokens@, read));
        let mut abi: Option<Abi> = None;
        if at < tokens.len() && token_is_word(&tokens[at], "extern") {
            let extern_span = tokens[at].span;
            let name = match str_at(tokens, readings, at + 1) {
                Some(name) => Some(name.clone()),
                None => None,
            };
            at = if name.is_some() {
                at + 2
            } else {
                at + 1
            };
            abi = Some(Abi { name, span: extern_span });
        }
        assert(at == abi_end(tokens@, read));
        assert(abi_view(abi) == abi_of(tokens@, read));
        if !name_at(tokens, readings, at) {
            return Err(Diagnostic::new(place_of(tokens, at, span), "expected the name of the detour"));
        }
        if at + 1 >= tokens.len() || !token_is_punct(&tokens[at + 1], ',') {
            return Err(Diagnostic::new(place_of(tokens, at + 1, span), "expected `,`"));
        }
        let detour_name = Ident { name: tokens[at].text.clone(), span: tokens[at].span };
        match HookArg::parse_read(tokens, readings, at + 2, span) {
            Err(diagnostic) => Err(diagnostic),
            Ok(hook_info) => Ok(
                HookAttributeArgs { vis, unsafety, abi, detour_name, hook_info, span },
            ),
        }
    }

    /// Reads the argument list of a hook annotation written at `span`.
    pub fn parse(tokens: &Vec<Token>, span: Span) -> (r: Result<HookAttributeArgs, Diagnostic>)
        ensures
            agrees(r, parse_hook_attribute(tokens@, span)),
    {
        let readings = read_tokens(tokens);
        HookAttributeArgs::parse_read(tokens, &readings, span)
    }

    /// The place of the annotation.
    pub fn span(&self) -> (r: Span)
        ensures
            r == self.span,
    {
        self.span
    }
}

} // verus!
