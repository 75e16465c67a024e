//! Diagnostics of the parser and the sink that collects them.
use vstd::prelude::*;

verus! {

/// A message about the source, tied to the span `lo..hi` of byte positions
/// in the source map of the parse that produced it.
#[derive(Clone, Debug)]
pub struct Diagnostic {
    pub category: String,
    pub message: String,
    pub lo: u32,
    pub hi: u32,
}

/// The title under which syntax errors are reported.
pub open spec fn parse_failure_category() -> Seq<char> {
    "Parsing css source code failed"@
}

/// The title under which syntax errors are reported.
pub fn parse_failure_title() -> (r: String)
    ensures
        r@ == parse_failure_category(),
{
    String::from_str("Parsing css source code failed")
}

/// Collects the diagnostics of the parses it is handed to, in the order they
/// were emitted.
pub struct DiagnosticSink {
    pub diagnostics: Vec<Diagnostic>,
}

impl DiagnosticSink {
    /// A sink that holds nothing yet.
    pub fn new() -> (r: DiagnosticSink)
        ensures
            r.diagnostics@ == Seq::<Diagnostic>::empty(),
    {
        DiagnosticSink { diagnostics: Vec::new() }
    }

    /// Adds `d` after the diagnostics already collected.
    pub fn emit(&mut self, d: Diagnostic)
        ensures
            final(self).diagnostics@ == old(self).diagnostics@.push(d),
    {
        self.diagnostics.push(d);
    }

    /// The number of diagnostics collected.
    pub fn len(&self) -> (r: usize)
        ensures
            r == self.diagnostics@.len(),
    {
        self.diagnostics.len()
    }
}

} // verus!
