//! What the library takes from the protocol crates: the message types it
//! carries through unopened, the method names of the requests and
//! notifications it routes, and the decoding of their parameters.

use crate::completion::Position;
use lsp_types::notification::Notification as _;
use lsp_types::request::Request as _;
use vstd::prelude::*;

verus! {

/// The id of a request, echoed unchanged in its response.
#[verifier::external_type_specification]
#[verifier::external_body]
pub struct ExRequestId(lsp_server::RequestId);

/// A JSON value: the parameters of a message as they arrived.
#[verifier::external_type_specification]
#[verifier::external_body]
pub struct ExValue(serde_json::Value);

/// A failure to decode a JSON value.
#[verifier::external_type_specification]
#[verifier::external_body]
pub struct ExJsonError(serde_json::Error);

pub open spec fn shutdown_name() -> Seq<char> {
    "shutdown"@
}

pub open spec fn definition_name() -> Seq<char> {
    "textDocument/definition"@
}

pub open spec fn completion_name() -> Seq<char> {
    "textDocument/completion"@
}

pub open spec fn did_open_name() -> Seq<char> {
    "textDocument/didOpen"@
}

pub open spec fn did_change_name() -> Seq<char> {
    "textDocument/didChange"@
}

/// Relies on lsp_types' `Shutdown::METHOD`: the method of the shutdown request.
#[verifier::external_body]
pub(crate) fn shutdown_method() -> (r: &'static str)
    ensures
        r@ == shutdown_name(),
{
    lsp_types::request::Shutdown::METHOD
}

/// Relies on lsp_types' `GotoDefinition::METHOD`: the method of the
/// goto-definition request.
#[verifier::external_body]
pub(crate) fn definition_method() -> (r: &'static str)
    ensures
        r@ == definition_name(),
{
    lsp_types::request::GotoDefinition::METHOD
}

/// Relies on lsp_types' `Completion::METHOD`: the method of the completion
/// request.
#[verifier::external_body]
pub(crate) fn completion_method() -> (r: &'static str)
    ensures
        r@ == completion_name(),
{
    lsp_types::request::Completion::METHOD
}

/// Relies on lsp_types' `DidOpenTextDocument::METHOD`: the method of the
/// document-opened notification.
#[verifier::external_body]
pub(crate) fn did_open_method() -> (r: &'static str)
    ensures
        r@ == did_open_name(),
{
    lsp_types::notification::DidOpenTextDocument::METHOD
}

/// Relies on lsp_types' `DidChangeTextDocument::METHOD`: the method of the
/// document-changed notification.
#[verifier::external_body]
pub(crate) fn did_change_method() -> (r: &'static str)
    ensures
        r@ == did_change_name(),
{
    lsp_types::notification::DidChangeTextDocument::METHOD
}

/// The URI and cursor that the parameters of a completion request decode to,
/// if they decode.
pub uninterp spec fn completion_params_of(v: serde_json::Value) -> Option<(Seq<char>, Position)>;

/// The URI and text that the parameters of a document-opened notification
/// decode to, if they decode.
pub uninterp spec fn did_open_params_of(v: serde_json::Value) -> Option<(Seq<char>, Seq<char>)>;

/// The URI and the texts of the content changes, in order, that the
/// parameters of a document-changed notification decode to, if they decode.
pub uninterp spec fn did_change_params_of(v: serde_json::Value) -> Option<
    (Seq<char>, Seq<Seq<char>>),
>;

/// What a decoded completion request holds, as plain values.
pub open spec fn completion_decoded(r: Result<(String, Position), serde_json::Error>) -> Option<
    (Seq<char>, Position),
> {
    match r {
        Ok((u, p)) => Some((u@, p)),
        Err(_) => None,
    }
}

/// What a decoded document-opened notification holds, as plain values.
pub open spec fn did_open_decoded(r: Result<(String, String), serde_json::Error>) -> Option<
    (Seq<char>, Seq<char>),
> {
    match r {
        Ok((u, t)) => Some((u@, t@)),
        Err(_) => None,
    }
}

/// What a decoded document-changed notification holds, as plain values.
pub open spec fn did_change_decoded(r: Result<(String, Vec<String>), serde_json::Error>) -> Option<
    (Seq<char>, Seq<Seq<char>>),
> {
    match r {
        Ok((u, ts)) => Some((u@, ts@.map_values(|t: String| t@))),
        Err(_) => None,
    }
}

/// Relies on `serde_json::from_value` into lsp_types' `CompletionParams`: the
/// document's URI and the cursor, or the decoding error. Decoding depends on
/// the value alone.
#[verifier::external_body]
pub(crate) fn decode_completion(params: serde_json::Value) -> (r: Result<
    (String, Position),
    serde_json::Error,
>)
    ensures
        completion_params_of(params) == completion_decoded(r),
{
    match serde_json::from_value::<lsp_types::CompletionParams>(params) {
        Ok(p) => {
            let at = p.text_document_position;
            let pos = Position { line: at.position.line, character: at.position.character };
            Ok((at.text_document.uri.as_str().to_string(), pos))
        },
        Err(e) => Err(e),
    }
}

/// Relies on `serde_json::from_value` into lsp_types'
/// `DidOpenTextDocumentParams`: the document's URI and text, or the decoding
/// error. Decoding depends on the value alone.
#[verifier::external_body]
pub(crate) fn decode_did_open(params: serde_json::Value) -> (r: Result<
    (String, String),
    serde_json::Error,
>)
    ensures
        did_open_params_of(params) == did_open_decoded(r),
{
    match serde_json::from_value::<lsp_types::DidOpenTextDocumentParams>(params) {
        Ok(p) => Ok((p.text_document.uri.as_str().to_string(), p.text_document.text)),
        Err(e) => Err(e),
    }
}

/// Relies on `serde_json::from_value` into lsp_types'
/// `DidChangeTextDocumentParams`: the document's URI and the text of each
/// content change in order, or the decoding error. Decoding depends on the
/// value alone.
#[verifier::external_body]
pub(crate) fn decode_did_change(params: serde_json::Value) -> (r: Result<
    (String, Vec<String>),
    serde_json::Error,
>)
    ensures
        did_change_params_of(params) == did_change_decoded(r),
{
    match serde_json::from_value::<lsp_types::DidChangeTextDocumentParams>(params) {
        Ok(p) => {
            let texts = p.content_changes.into_iter().map(|c| c.text).collect();
            Ok((p.text_document.uri.as_str().to_string(), texts))
        },
        Err(e) => Err(e),
    }
}

} // verus!
