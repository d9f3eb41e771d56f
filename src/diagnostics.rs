//! The diagnostics publisher: after every change of a document the client is
//! sent one fixed informational diagnostic for it.

use crate::completion::Position;
use vstd::prelude::*;
use vstd::string::StringExecFns;

verus! {

/// How serious a diagnostic is.
#[derive(Clone, Copy, Debug, PartialEq, Eq, Structural)]
pub enum DiagnosticSeverity {
    Error,
    Warning,
    Information,
    Hint,
}

/// A span of a document, from `start` up to `end`.
#[derive(Clone, Copy, Debug, PartialEq, Eq, Structural)]
pub struct Range {
    pub start: Position,
    pub end: Position,
}

/// A message about a span of a document.
#[derive(Clone, Debug)]
pub struct Diagnostic {
    pub range: Range,
    pub severity: DiagnosticSeverity,
    pub source: String,
    pub message: String,
}

/// The diagnostics of one document, as published to the client.
#[derive(Clone, Debug)]
pub struct PublishDiagnostics {
    pub uri: String,
    pub diagnostics: Vec<Diagnostic>,
    pub version: Option<i32>,
}

/// The placeholder diagnostic: informational, over the first character of
/// the document, with a fixed source and message.
pub open spec fn is_placeholder(d: Diagnostic) -> bool {
    &&& d.range == Range {
        start: Position { line: 0, character: 0 },
        end: Position { line: 0, character: 1 },
    }
    &&& d.severity == DiagnosticSeverity::Information
    &&& d.source@ == "minimal_lsp"@
    &&& d.message@ == "dummy diagnostic"@
}

/// What is published for document `uri` after it changed.
pub open spec fn published_for(p: PublishDiagnostics, uri: Seq<char>) -> bool {
    &&& p.uri@ == uri
    &&& p.diagnostics@.len() == 1
    &&& is_placeholder(p.diagnostics@[0])
    &&& p.version is None
}

/// The diagnostics to publish for document `uri` after it changed.
pub fn diagnostics_for(uri: String) -> (r: PublishDiagnostics)
    ensures
        published_for(r, uri@),
{
    let range = Range { start: Position::new(0, 0), end: Position::new(0, 1) };
    let diag = Diagnostic {
        range,
        severity: DiagnosticSeverity::Information,
        source: String::from_str("minimal_lsp"),
        message: String::from_str("dummy diagnostic"),
    };
    let mut diagnostics: Vec<Diagnostic> = Vec::new();
    diagnostics.push(diag);
    PublishDiagnostics { uri, diagnostics, version: None }
}

} // verus!
