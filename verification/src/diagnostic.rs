//! What the compiler reports when a declaration is refused: an ordered list
//! of messages, each tied to a source location.

use vstd::prelude::*;
use crate::syntax::Span;

verus! {

/// One message at one location.
#[derive(Debug, Clone, PartialEq, Eq)]
pub struct Message {
    pub span: Span,
    pub text: String,
}

/// A refusal: one message or more, in the order in which they are shown.
#[derive(Debug, Clone, PartialEq, Eq)]
pub struct Diagnostic {
    pub messages: Vec<Message>,
}

impl View for Diagnostic {
    type V = Seq<(Span, Seq<char>)>;

    /// The locations and texts, in order.
    open spec fn view(&self) -> Seq<(Span, Seq<char>)> {
        self.messages@.map_values(|m: Message| (m.span, m.text@))
    }
}

impl Diagnostic {
    /// A refusal with a single message.
    pub fn new(span: Span, text: &str) -> (r: Diagnostic)
        ensures
            r@ == seq![(span, text@)],
    {
        let mut messages: Vec<Message> = Vec::new();
        messages.push(Message { span, text: text.to_owned() });
        let r = Diagnostic { messages };
        r
    }

    /// Adds the messages of `another` after this one's.
    pub fn combine(&mut self, another: Diagnostic)
        ensures
            final(self)@ == old(self)@ + another@,
    {
        let mut rest = another.messages;
        self.messages.append(&mut rest);
    }
}

} // verus!
