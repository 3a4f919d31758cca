//! The names under which generated code reaches the hooking engine and this
//! library. The host finds out how the crate that is being compiled calls
//! them; here the answer becomes an identifier.

use vstd::prelude::*;
use vstd::string::StrSliceExecFns;
use crate::syntax::{Ident, Span};

verus! {

/// How a crate is known to the crate that is being compiled.
#[derive(Debug, Clone, PartialEq, Eq)]
pub enum FoundCrate {
    /// It is the crate that is being compiled.
    Itself,
    /// It is a dependency, under this name.
    Name(String),
}

/// A package name as it is written in paths: with `_` for each `-`.
pub open spec fn path_name(name: Seq<char>) -> Seq<char> {
    name.map_values(
        |c: char|
            if c == '-' {
                '_'
            } else {
                c
            },
    )
}

/// `String::push` appends the character to the string.
#[verifier::external_body]
fn push_char(text: &mut String, c: char)
    ensures
        final(text)@ == old(text)@.push(c),
{
    text.push(c)
}

fn to_path_name(name: &str) -> (r: String)
    ensures
        r@ == path_name(name@),
{
    let mut out = String::new();
    let len = name.unicode_len();
    let mut i: usize = 0;
    while i < len
        invariant
            i <= len,
            len == name@.len(),
            out@ == path_name(name@).take(i as int),
        decreases len - i,
    {
        let c = name.get_char(i);
        push_char(
            &mut out,
            if c == '-' {
                '_'
            } else {
                c
            },
        );
        i += 1;
    }
    out
}

/// The identifier of the hooking engine's crate.
pub fn retour_crate(found: &FoundCrate) -> (r: Ident)
    ensures
        r.span == Span(0),
        r.name@ == match *found {
            FoundCrate::Itself => "retour"@,
            FoundCrate::Name(name) => name@,
        },
{
    match found {
        FoundCrate::Itself => Ident::new("retour", Span::call_site()),
        FoundCrate::Name(name) => Ident::new(name.as_str(), Span::call_site()),
    }
}

/// The identifier of this library's crate.
pub fn parent_crate(found: &FoundCrate) -> (r: Ident)
    ensures
        r.span == Span(0),
        r.name@ == match *found {
            FoundCrate::Itself => "retour_utils"@,
            FoundCrate::Name(name) => path_name(name@),
        },
{
    match found {
        FoundCrate::Itself => Ident::new("retour_utils", Span::call_site()),
        FoundCrate::Name(name) => Ident { name: to_path_name(name.as_str()), span: Span::call_site() },
    }
}

} // verus!
