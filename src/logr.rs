//! A diagnostic channel that labels every message with a prefix.
use vstd::prelude::*;

verus! {

/// The message as it is shown to the user: `#[<prefix>] <msg>`.
pub open spec fn tagged(prefix: Seq<char>, msg: Seq<char>) -> Seq<char> {
    "#["@ + prefix + "] "@ + msg
}

/// How a diagnostic affects the expansion that raised it.
#[derive(Clone, Copy, Debug, PartialEq, Eq, Structural)]
pub enum Severity {
    /// Stops the current expansion.
    Abort,
    /// Recorded; the expansion goes on.
    Error,
    /// Recorded; the expansion goes on.
    Warning,
}

/// A labelled message raised during one expansion.
#[derive(Debug)]
pub struct Diagnostic {
    pub severity: Severity,
    pub message: String,
}

impl View for Diagnostic {
    type V = (Severity, Seq<char>);

    open spec fn view(&self) -> (Severity, Seq<char>) {
        (self.severity, self.message@)
    }
}

/// Labels the messages of one macro instance with its prefix.
#[derive(Debug)]
pub struct Logr {
    pub prefix: String,
}

impl Logr {
    pub fn new(prefix: String) -> (r: Logr)
        ensures
            r.prefix@ == prefix@,
    {
        Logr { prefix }
    }

    /// `#[<prefix>] <msg>`
    pub fn fmt_msg(&self, msg: &str) -> (r: String)
        ensures
            r@ == tagged(self.prefix@, msg@),
    {
        let s = String::from_str("#[");
        let s = s.concat(self.prefix.as_str());
        let s = s.concat("] ");
        s.concat(msg)
    }

    /// A diagnostic that ends the expansion.
    pub fn abort_call_site(&self, msg: &str) -> (r: Diagnostic)
        ensures
            r.severity == Severity::Abort,
            r.message@ == tagged(self.prefix@, msg@),
    {
        Diagnostic { severity: Severity::Abort, message: self.fmt_msg(msg) }
    }

    /// A recoverable error.
    pub fn emit_call_site_error(&self, msg: &str) -> (r: Diagnostic)
        ensures
            r.severity == Severity::Error,
            r.message@ == tagged(self.prefix@, msg@),
    {
        Diagnostic { severity: Severity::Error, message: self.fmt_msg(msg) }
    }

    /// A warning.
    pub fn emit_call_site_warning(&self, msg: &str) -> (r: Diagnostic)
        ensures
            r.severity == Severity::Warning,
            r.message@ == tagged(self.prefix@, msg@),
    {
        Diagnostic { severity: Severity::Warning, message: self.fmt_msg(msg) }
    }
}

} // verus!
