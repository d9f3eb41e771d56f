//! The dispatcher: routes each inbound message by its method to a handler and
//! says what the server must send in answer.

use crate::completion::{completions, handle_completions, views, CompletionItem, Position};
use crate::diagnostics::{diagnostics_for, published_for, PublishDiagnostics};
use crate::lsp::{
    completion_method, completion_name, completion_params_of, decode_completion,
    decode_did_change, decode_did_open, definition_method, definition_name, did_change_method,
    did_change_name, did_change_params_of, did_open_method, did_open_name, did_open_params_of,
    shutdown_method, shutdown_name,
};
use crate::store::{lookup, opened, replaced, DocumentStore};
use lsp_server::RequestId;
use serde_json::Value;
use vstd::prelude::*;
use vstd::string::StringExecFns;

verus! {

/// A request from the client: it is owed exactly one response.
#[derive(Debug)]
pub struct Request {
    pub id: RequestId,
    pub method: String,
    pub params: Value,
}

/// A notification from the client: it gets no response.
#[derive(Debug)]
pub struct Notification {
    pub method: String,
    pub params: Value,
}

/// An inbound message.
#[derive(Debug)]
pub enum Message {
    Request(Request),
    Notification(Notification),
    /// The client's answer to a request of the server's; the server makes
    /// none, so these are discarded.
    Response(RequestId),
}

/// Why a request failed.
#[derive(Clone, Copy, Debug, PartialEq, Eq, Structural)]
pub enum ErrorKind {
    MethodNotFound,
    InvalidParams,
}

/// A failure of a handler.
#[derive(Clone, Copy, Debug, PartialEq, Eq, Structural)]
pub enum ProtocolError {
    /// The parameters could not be decoded.
    MalformedParams,
}

/// What a response carries.
#[derive(Debug)]
pub enum ResponseBody {
    /// The (always empty) list of definition locations.
    Definition,
    /// The completion list.
    Completion(Vec<CompletionItem>),
    Error { kind: ErrorKind, message: String },
}

/// The answer to the request with id `id`.
#[derive(Debug)]
pub struct Response {
    pub id: RequestId,
    pub body: ResponseBody,
}

/// What the server does after handling one inbound message.
#[derive(Debug)]
pub enum Action {
    /// Stop accepting requests: a shutdown was asked for.
    Stop,
    /// Send this response.
    Respond(Response),
    /// Send these diagnostics.
    Publish(PublishDiagnostics),
    /// Nothing to send.
    Ignore,
    /// A notification's handler failed; it is reported locally only.
    Failed(ProtocolError),
}

/// A handler of requests.
#[derive(Clone, Copy, Debug, PartialEq, Eq, Structural)]
pub enum RequestHandler {
    Definition,
    Completion,
}

/// A handler of notifications.
#[derive(Clone, Copy, Debug, PartialEq, Eq, Structural)]
pub enum NotificationHandler {
    DidOpen,
    DidChange,
}

/// Whether `method` asks the server to shut down.
pub open spec fn is_shutdown(method: Seq<char>) -> bool {
    method == shutdown_name()
}

/// The handler registered for request method `method`.
pub open spec fn request_route(method: Seq<char>) -> Option<RequestHandler> {
    if method == definition_name() {
        Some(RequestHandler::Definition)
    } else if method == completion_name() {
        Some(RequestHandler::Completion)
    } else {
        None
    }
}

/// The handler registered for notification method `method`.
pub open spec fn notification_route(method: Seq<char>) -> Option<NotificationHandler> {
    if method == did_open_name() {
        Some(NotificationHandler::DidOpen)
    } else if method == did_change_name() {
        Some(NotificationHandler::DidChange)
    } else {
        None
    }
}

/// The text completion works on: the document's, or the empty text when it
/// is not tracked.
pub open spec fn document_text(docs: Map<Seq<char>, Seq<char>>, uri: Seq<char>) -> Seq<char> {
    match lookup(docs, uri) {
        Some(t) => t,
        None => Seq::empty(),
    }
}

/// Whether `b` is an error of kind `kind` with message `message`.
pub open spec fn is_error(b: ResponseBody, kind: ErrorKind, message: Seq<char>) -> bool {
    b matches ResponseBody::Error { kind: k, message: m } && k == kind && m@ == message
}

/// Whether `b` is the completion list for the cursor `pos` in document `uri`.
pub open spec fn completion_answer(
    b: ResponseBody,
    docs: Map<Seq<char>, Seq<char>>,
    uri: Seq<char>,
    pos: Position,
) -> bool {
    b matches ResponseBody::Completion(items) && views(items@) == completions(
        document_text(docs, uri),
        pos,
    )
}

/// Whether `b` is the error for parameters that could not be decoded.
pub open spec fn invalid_params(b: ResponseBody) -> bool {
    is_error(b, ErrorKind::InvalidParams, "invalid params"@)
}

/// Whether `r` answers a request with id `id`, method `method` and parameters
/// `params` over the documents `docs`: a shutdown stops the server, any other
/// request gets exactly one response with its id.
pub open spec fn request_answered(
    r: Action,
    id: RequestId,
    method: Seq<char>,
    params: Value,
    docs: Map<Seq<char>, Seq<char>>,
) -> bool {
    if is_shutdown(method) {
        r is Stop
    } else {
        r matches Action::Respond(resp) && resp.id == id && match request_route(method) {
            Some(RequestHandler::Definition) => resp.body is Definition,
            Some(RequestHandler::Completion) => match completion_params_of(params) {
                Some((uri, pos)) => completion_answer(resp.body, docs, uri, pos),
                None => invalid_params(resp.body),
            },
            None => is_error(resp.body, ErrorKind::MethodNotFound, "unhandled method"@),
        }
    }
}

/// Whether `r` and the documents `after` follow from handling a notification
/// with method `method` and parameters `params` over the documents `before`:
/// an open or change updates the store and publishes diagnostics for the
/// document, parameters that do not decode fail with the store unchanged, and
/// anything else is ignored.
pub open spec fn notification_handled(
    r: Action,
    method: Seq<char>,
    params: Value,
    before: Map<Seq<char>, Seq<char>>,
    after: Map<Seq<char>, Seq<char>>,
) -> bool {
    match notification_route(method) {
        None => r is Ignore && after == before,
        Some(NotificationHandler::DidOpen) => match did_open_params_of(params) {
            Some((uri, text)) => {
                &&& after == opened(before, uri, text)
                &&& r matches Action::Publish(p) && published_for(p, uri)
            },
            None => after == before && r == Action::Failed(ProtocolError::MalformedParams),
        },
        Some(NotificationHandler::DidChange) => match did_change_params_of(params) {
            Some((uri, texts)) => if texts.len() > 0 {
                &&& after == replaced(before, uri, texts[0])
                &&& r matches Action::Publish(p) && published_for(p, uri)
            } else {
                after == before && r is Ignore
            },
            None => after == before && r == Action::Failed(ProtocolError::MalformedParams),
        },
    }
}

fn error_body(kind: ErrorKind, message: &str) -> (r: ResponseBody)
    ensures
        is_error(r, kind, message@),
{
    ResponseBody::Error { kind, message: String::from_str(message) }
}

fn malformed<T, E>(r: Result<T, E>) -> (m: Result<T, ProtocolError>)
    ensures
        match r {
            Ok(x) => m == Ok::<T, ProtocolError>(x),
            Err(_) => m == Err::<T, ProtocolError>(ProtocolError::MalformedParams),
        },
{
    match r {
        Ok(x) => Ok(x),
        Err(_) => Err(ProtocolError::MalformedParams),
    }
}

/// Answers a completion request whose parameters decoded to `params`.
pub fn answer_completion(
    params: Result<(String, Position), ProtocolError>,
    docs: &DocumentStore,
) -> (r: ResponseBody)
    ensures
        match params {
            Ok((uri, pos)) => completion_answer(r, docs@, uri@, pos),
            Err(_) => invalid_params(r),
        },
{
    match params {
        Ok((uri, pos)) => {
            let text = docs.text_or_empty(uri.as_str());
            ResponseBody::Completion(handle_completions(text, &pos))
        },
        Err(_) => error_body(ErrorKind::InvalidParams, "invalid params"),
    }
}

/// Handles a document-opened notification whose parameters decoded to
/// `params` (the URI and the text).
pub fn apply_did_open(
    params: Result<(String, String), ProtocolError>,
    docs: &mut DocumentStore,
) -> (r: Action)
    ensures
        match params {
            Ok((uri, text)) => {
                &&& final(docs)@ == opened(old(docs)@, uri@, text@)
                &&& r matches Action::Publish(p) && published_for(p, uri@)
            },
            Err(e) => final(docs)@ == old(docs)@ && r == Action::Failed(e),
        },
{
    match params {
        Ok((uri, text)) => {
            let id = uri.clone();
            docs.open(uri, text);
            Action::Publish(diagnostics_for(id))
        },
        Err(e) => Action::Failed(e),
    }
}

/// Handles a document-changed notification whose parameters decoded to
/// `params` (the URI and the text of each content change). Only the first
/// change counts, as the full new text; with no change nothing happens.
pub fn apply_did_change(
    params: Result<(String, Vec<String>), ProtocolError>,
    docs: &mut DocumentStore,
) -> (r: Action)
    ensures
        match params {
            Ok((uri, changes)) => if changes@.len() > 0 {
                &&& final(docs)@ == replaced(old(docs)@, uri@, changes@[0]@)
                &&& r matches Action::Publish(p) && published_for(p, uri@)
            } else {
                final(docs)@ == old(docs)@ && r is Ignore
            },
            Err(e) => final(docs)@ == old(docs)@ && r == Action::Failed(e),
        },
{
    match params {
        Ok((uri, changes)) => {
            if changes.len() == 0 {
                return Action::Ignore;
            }
            let mut changes = changes;
            let text = changes.swap_remove(0);
            let id = uri.clone();
            docs.replace(uri, text);
            Action::Publish(diagnostics_for(id))
        },
        Err(e) => Action::Failed(e),
    }
}

/// The routing table: the shutdown method, and the handler of each request
/// and notification method the server knows.
#[derive(Debug)]
pub struct Dispatcher {
    shutdown: String,
    requests: Vec<(String, RequestHandler)>,
    notifications: Vec<(String, NotificationHandler)>,
}

impl Dispatcher {
    /// Whether the table holds exactly the server's routes.
    pub closed spec fn wf(&self) -> bool {
        &&& self.shutdown@ == shutdown_name()
        &&& self.requests@.len() == 2
        &&& self.requests@[0].0@ == definition_name()
        &&& self.requests@[0].1 == RequestHandler::Definition
        &&& self.requests@[1].0@ == completion_name()
        &&& self.requests@[1].1 == RequestHandler::Completion
        &&& self.notifications@.len() == 2
        &&& self.notifications@[0].0@ == did_open_name()
        &&& self.notifications@[0].1 == NotificationHandler::DidOpen
        &&& self.notifications@[1].0@ == did_change_name()
        &&& self.notifications@[1].1 == NotificationHandler::DidChange
    }

    /// The server's routing table.
    pub fn new() -> (r: Dispatcher)
        ensures
            r.wf(),
    {
        let mut requests: Vec<(String, RequestHandler)> = Vec::new();
        requests.push((String::from_str(definition_method()), RequestHandler::Definition));
        requests.push((String::from_str(completion_method()), RequestHandler::Completion));
        let mut notifications: Vec<(String, NotificationHandler)> = Vec::new();
        notifications.push((String::from_str(did_open_method()), NotificationHandler::DidOpen));
        notifications.push(
            (String::from_str(did_change_method()), NotificationHandler::DidChange),
        );
        Dispatcher { shutdown: String::from_str(shutdown_method()), requests, notifications }
    }

    /// Whether `method` asks the server to shut down.
    pub fn is_shutdown_method(&self, method: &String) -> (r: bool)
        requires
            self.wf(),
        ensures
            r == is_shutdown(method@),
    {
        *method == self.shutdown
    }

    /// The handler of request method `method`, if one is registered.
    pub fn request_handler(&self, method: &String) -> (r: Option<RequestHandler>)
        requires
            self.wf(),
        ensures
            r == request_route(method@),
    {
        proof {
            reveal_strlit("textDocument/definition");
            reveal_strlit("textDocument/completion");
            assert(definition_name()[13] != completion_name()[13]);
        }
        let mut i: usize = 0;
        while i < self.requests.len()
            invariant
                self.wf(),
                i <= self.requests@.len(),
                forall|j: int| 0 <= j < i ==> self.requests@[j].0@ != method@,
            decreases self.requests@.len() - i,
        {
            let entry = &self.requests[i];
            if entry.0 == *method {
                return Some(entry.1);
            }
            i = i + 1;
        }
        None
    }

    /// The handler of notification method `method`, if one is registered.
    pub fn notification_handler(&self, method: &String) -> (r: Option<NotificationHandler>)
        requires
            self.wf(),
        ensures
            r == notification_route(method@),
    {
        proof {
            reveal_strlit("textDocument/didOpen");
            reveal_strlit("textDocument/didChange");
        }
        let mut i: usize = 0;
        while i < self.notifications.len()
            invariant
                self.wf(),
                i <= self.notifications@.len(),
                forall|j: int| 0 <= j < i ==> self.notifications@[j].0@ != method@,
            decreases self.notifications@.len() - i,
        {
            let entry = &self.notifications[i];
            if entry.0 == *method {
                return Some(entry.1);
            }
            i = i + 1;
        }
        None
    }

    /// Handles a request. A shutdown stops the server; every other request
    /// gets one response, an error when no handler is registered for it.
    pub fn handle_request(&self, req: Request, docs: &mut DocumentStore) -> (r: Action)
        requires
            self.wf(),
        ensures
            final(docs)@ == old(docs)@,
            request_answered(r, req.id, req.method@, req.params, old(docs)@),
    {
        if self.is_shutdown_method(&req.method) {
            return Action::Stop;
        }
        let body = match self.request_handler(&req.method) {
            Some(RequestHandler::Definition) => ResponseBody::Definition,
            Some(RequestHandler::Completion) => {
                answer_completion(malformed(decode_completion(req.params)), docs)
            },
            None => error_body(ErrorKind::MethodNotFound, "unhandled method"),
        };
        Action::Respond(Response { id: req.id, body })
    }

    /// Handles a notification; one without a registered handler is ignored.
    pub fn handle_notification(&self, note: Notification, docs: &mut DocumentStore) -> (r: Action)
        requires
            self.wf(),
        ensures
            notification_handled(r, note.method@, note.params, old(docs)@, final(docs)@),
    {
        match self.notification_handler(&note.method) {
            Some(NotificationHandler::DidOpen) => {
                apply_did_open(malformed(decode_did_open(note.params)), docs)
            },
            Some(NotificationHandler::DidChange) => {
                apply_did_change(malformed(decode_did_change(note.params)), docs)
            },
            None => Action::Ignore,
        }
    }

    /// Handles one inbound message.
    pub fn dispatch(&self, msg: Message, docs: &mut DocumentStore) -> (r: Action)
        requires
            self.wf(),
        ensures
            match msg {
                Message::Request(req) => final(docs)@ == old(docs)@ && request_answered(
                    r,
                    req.id,
                    req.method@,
                    req.params,
                    old(docs)@,
                ),
                Message::Notification(n) => notification_handled(
                    r,
                    n.method@,
                    n.params,
                    old(docs)@,
                    final(docs)@,
                ),
                Message::Response(_) => final(docs)@ == old(docs)@ && r is Ignore,
            },
    {
        match msg {
            Message::Request(req) => self.handle_request(req, docs),
            Message::Notification(n) => self.handle_notification(n, docs),
            Message::Response(_) => Action::Ignore,
        }
    }
}

/// A request whose method has no handler, and is not a shutdown, is answered
/// with a MethodNotFound error carrying its id.
pub proof fn law_unknown_request(
    r: Action,
    id: RequestId,
    method: Seq<char>,
    params: Value,
    docs: Map<Seq<char>, Seq<char>>,
)
    requires
        request_answered(r, id, method, params, docs),
        !is_shutdown(method),
        request_route(method) is None,
    ensures
        r is Respond,
        r->Respond_0.id == id,
        r->Respond_0.body is Error,
        r->Respond_0.body->kind == ErrorKind::MethodNotFound,
{
}

} // verus!
