//! Tokens of an attribute's argument list, and what the language's readers
//! say of them: which words are identifiers, which groups restrict `pub`, and
//! what literals denote.

use vstd::prelude::*;
use vstd::string::StrSliceExecFns;
use vstd::string::StringExecFns;
use crate::syntax::Span;

verus! {

/// The four kinds of token tree.
#[derive(Debug, Clone, Copy, PartialEq, Eq, Structural)]
pub enum TokenKind {
    /// A word: an identifier or a keyword.
    Ident,
    /// A single punctuation character.
    Punct,
    /// A literal, as written.
    Literal,
    /// A delimited group, as written, delimiters included.
    Group,
}

/// One token, as its text.
#[derive(Debug, Clone, PartialEq, Eq)]
pub struct Token {
    pub kind: TokenKind,
    pub text: String,
    pub span: Span,
}

impl Token {
    pub fn duplicate(&self) -> (r: Token)
        ensures
            r == *self,
    {
        Token { kind: self.kind, text: self.text.clone(), span: self.span }
    }
}

/// The string that the literal written as `text` denotes; `None` where `text`
/// is not one string literal.
pub uninterp spec fn str_literal_value(text: Seq<char>) -> Option<Seq<char>>;

/// The number that the integer literal written as `text` denotes, with the
/// literal's suffix; `None` where `text` is not one integer literal or the
/// number is no address-sized integer.
pub uninterp spec fn int_literal_parts(text: Seq<char>) -> Option<(usize, Seq<char>)>;

/// Whether `text` is one identifier that is not a reserved word.
pub uninterp spec fn names_identifier(text: Seq<char>) -> bool;

/// Whether `text` is one visibility and nothing more.
pub uninterp spec fn names_visibility(text: Seq<char>) -> bool;

/// Decodes a string literal with `syn::parse_str::<syn::LitStr>` and
/// `syn::LitStr::value`. The contract only names the result: the same text
/// always denotes the same string, and text that `syn` does not read as one
/// string literal denotes none.
#[verifier::external_body]
pub(crate) fn decode_str_literal(text: &str) -> (r: Option<String>)
    ensures
        match r {
            Some(value) => str_literal_value(text@) == Some(value@),
            None => str_literal_value(text@) is None,
        },
{
    match syn::parse_str::<syn::LitStr>(text) {
        Ok(lit) => Some(lit.value()),
        Err(_) => None,
    }
}

/// Reads an integer literal with `syn::parse_str::<syn::LitInt>`, its value
/// with `syn::LitInt::base10_parse::<usize>` and its suffix with
/// `syn::LitInt::suffix`. The contract only names the result: the same text
/// always denotes the same number with the same suffix, and text that `syn`
/// does not read as one integer literal, or whose number does not fit,
/// denotes none.
#[verifier::external_body]
pub(crate) fn decode_int_literal(text: &str) -> (r: Option<(usize, String)>)
    ensures
        match r {
            Some((value, suffix)) => int_literal_parts(text@) == Some((value, suffix@)),
            None => int_literal_parts(text@) is None,
        },
{
    match syn::parse_str::<syn::LitInt>(text) {
        Ok(lit) => match lit.base10_parse::<usize>() {
            Ok(value) => Some((value, lit.suffix().to_string())),
            Err(_) => None,
        },
        Err(_) => None,
    }
}

/// Asks `syn::parse_str::<syn::Ident>` whether `text` is an identifier; it
/// refuses reserved words. The contract only names the answer.
#[verifier::external_body]
pub(crate) fn is_identifier(text: &str) -> (r: bool)
    ensures
        r == names_identifier(text@),
{
    syn::parse_str::<syn::Ident>(text).is_ok()
}

/// Asks `syn::parse_str::<syn::Visibility>` whether `text` is a visibility
/// with nothing after it. The contract only names the answer.
#[verifier::external_body]
pub(crate) fn is_visibility(text: &str) -> (r: bool)
    ensures
        r == names_visibility(text@),
{
    syn::parse_str::<syn::Visibility>(text).is_ok()
}

/// What the readers of the language say of one token's text. The grammar
/// of annotations is decided on tokens with their readings.
#[derive(Debug, Clone, PartialEq, Eq)]
pub struct Reading {
    /// The word is an identifier and no reserved word.
    pub identifier: bool,
    /// `pub` with the group after it is one visibility.
    pub restriction: bool,
    /// The string that the literal denotes, if it is a string literal.
    pub string: Option<String>,
    /// The number that the literal denotes, if it is an integer literal.
    pub integer: Option<usize>,
    /// The suffix of the integer literal; empty where there is none.
    pub suffix: String,
}

/// A reading as a value.
pub struct ReadingView {
    pub identifier: bool,
    pub restriction: bool,
    pub string: Option<Seq<char>>,
    pub integer: Option<usize>,
    pub suffix: Seq<char>,
}

impl View for Reading {
    type V = ReadingView;

    open spec fn view(&self) -> ReadingView {
        ReadingView {
            identifier: self.identifier,
            restriction: self.restriction,
            string: match self.string {
                Some(value) => Some(value@),
                None => None,
            },
            integer: self.integer,
            suffix: self.suffix@,
        }
    }
}

/// The reading of a token of which nothing is known.
pub open spec fn blank() -> ReadingView {
    ReadingView {
        identifier: false,
        restriction: false,
        string: None,
        integer: None,
        suffix: Seq::empty(),
    }
}

/// The reading of a token: of a word, whether it is an identifier; of a
/// group, whether `pub` before it makes a visibility; of a literal, the
/// string or the number that it denotes.
pub open spec fn reading_of(token: Token) -> ReadingView {
    match token.kind {
        TokenKind::Ident => ReadingView { identifier: names_identifier(token.text@), ..blank() },
        TokenKind::Group => ReadingView {
            restriction: names_visibility("pub"@ + token.text@),
            ..blank()
        },
        TokenKind::Literal => literal_reading(token.text@),
        TokenKind::Punct => blank(),
    }
}

/// The reading of a literal written as `text`.
pub open spec fn literal_reading(text: Seq<char>) -> ReadingView {
    ReadingView {
        string: str_literal_value(text),
        integer: match int_literal_parts(text) {
            Some(parts) => Some(parts.0),
            None => None,
        },
        suffix: match int_literal_parts(text) {
            Some(parts) => parts.1,
            None => Seq::empty(),
        },
        ..blank()
    }
}

/// The readings of a list of tokens.
pub open spec fn readings_of(tokens: Seq<Token>) -> Seq<ReadingView> {
    tokens.map_values(|token: Token| reading_of(token))
}

/// The values of a list of readings.
pub open spec fn reading_views(readings: Seq<Reading>) -> Seq<ReadingView> {
    readings.map_values(|reading: Reading| reading@)
}

/// Reads a literal.
pub fn read_literal(text: &str) -> (r: Reading)
    ensures
        r@ == literal_reading(text@),
{
    let string = decode_str_literal(text);
    match decode_int_literal(text) {
        Some((value, suffix)) => Reading {
            identifier: false,
            restriction: false,
            string,
            integer: Some(value),
            suffix,
        },
        None => Reading {
            identifier: false,
            restriction: false,
            string,
            integer: None,
            suffix: String::new(),
        },
    }
}

/// Reads one token.
pub fn read_token(token: &Token) -> (r: Reading)
    ensures
        r@ == reading_of(*token),
{
    match token.kind {
        TokenKind::Ident => Reading {
            identifier: is_identifier(token.text.as_str()),
            restriction: false,
            string: None,
            integer: None,
            suffix: String::new(),
        },
        TokenKind::Group => {
            let text = String::from_str("pub").concat(token.text.as_str());
            Reading {
                identifier: false,
                restriction: is_visibility(text.as_str()),
                string: None,
                integer: None,
                suffix: String::new(),
            }
        },
        TokenKind::Literal => read_literal(token.text.as_str()),
        TokenKind::Punct => Reading {
            identifier: false,
            restriction: false,
            string: None,
            integer: None,
            suffix: String::new(),
        },
    }
}

/// Reads every token of a list.
pub fn read_tokens(tokens: &Vec<Token>) -> (r: Vec<Reading>)
    ensures
        reading_views(r@) == readings_of(tokens@),
{
    let mut readings: Vec<Reading> = Vec::new();
    let mut i: usize = 0;
    while i < tokens.len()
        invariant
            i <= tokens.len(),
            reading_views(readings@) == readings_of(tokens@).take(i as int),
        decreases tokens.len() - i,
    {
        let ghost before = readings@;
        let reading = read_token(&tokens[i]);
        readings.push(reading);
        assert(reading_views(readings@) =~= reading_views(before).push(reading@));
        assert(readings_of(tokens@).take(i as int).push(reading@) =~= readings_of(tokens@).take(
            i as int + 1,
        ));
        i += 1;
    }
    assert(readings_of(tokens@).take(i as int) =~= readings_of(tokens@));
    readings
}

/// Whether the text starts like an octal or a binary literal.
pub open spec fn has_odd_radix(text: Seq<char>) -> bool {
    text.len() >= 2 && text[0] == '0' && (text[1] == 'o' || text[1] == 'b')
}

/// The offset that an integer literal gives: the number it denotes, where it
/// is written in decimal or, after `0x`, in hexadecimal, and has no suffix
/// or the suffix `usize`.
pub open spec fn offset_value(text: Seq<char>, reading: ReadingView) -> Option<usize> {
    if has_odd_radix(text) || !(reading.suffix.len() == 0 || reading.suffix == "usize"@) {
        None
    } else {
        reading.integer
    }
}

/// Decides whether a literal that was read gives an offset.
pub fn accept_int_literal(text: &str, reading: &Reading) -> (r: Option<usize>)
    ensures
        r == offset_value(text@, reading@),
{
    let odd = text.unicode_len() >= 2 && text.get_char(0) == '0' && (text.get_char(1) == 'o'
        || text.get_char(1) == 'b');
    if odd {
        return None;
    }
    if reading.suffix.as_str().is_empty() || reading.suffix == String::from_str("usize") {
        reading.integer
    } else {
        None
    }
}

/// Reads an integer literal as an offset.
pub fn parse_int_literal(text: &str) -> (r: Option<usize>)
    ensures
        r == offset_value(text@, literal_reading(text@)),
{
    let reading = read_literal(text);
    accept_int_literal(text, &reading)
}

} // verus!
