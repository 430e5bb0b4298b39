//! Diagnostic lines and the two sinks they are written to.
use vstd::prelude::*;

verus! {

/// The sink a diagnostic line is written to.
#[derive(Clone, Copy, Debug, PartialEq, Eq, Structural)]
pub enum Stream {
    Normal,
    Error,
}

/// One human-readable line for one of the two sinks.
#[derive(Debug)]
pub struct Diagnostic {
    pub stream: Stream,
    pub text: String,
}

impl View for Diagnostic {
    type V = (Stream, Seq<char>);

    open spec fn view(&self) -> (Stream, Seq<char>) {
        (self.stream, self.text@)
    }
}

/// The views of a sequence of diagnostics.
pub open spec fn lines_of(ds: Seq<Diagnostic>) -> Seq<(Stream, Seq<char>)> {
    ds.map_values(|d: Diagnostic| d@)
}

/// A line made of `prefix` followed by `body`.
pub fn tagged(stream: Stream, prefix: &str, body: &str) -> (r: Diagnostic)
    ensures
        r@ == (stream, prefix@ + body@),
{
    let mut text = String::from_str(prefix);
    text.append(body);
    Diagnostic { stream, text }
}

} // verus!
