//! The proxy service: which request to send for a command, and what the
//! upstream's answer amounts to.

use crate::error::{joined, ProxyError, ProxyErrorView};
use crate::json::{empty_object, empty_object_value, parse_json, parsed_json};
use crate::state::{lock_failure, AppState};
use vstd::prelude::*;

verus! {

/// What a caller can ask the proxy to do.
#[derive(Debug, Clone, Copy, PartialEq, Eq)]
pub enum Operation {
    Get,
    Post,
    Put,
    Delete,
    Download,
    Upload,
}

/// The HTTP method of a request.
#[derive(Debug, Clone, Copy, PartialEq, Eq)]
pub enum Verb {
    Get,
    Post,
    Put,
    Delete,
}

/// What a request carries.
#[derive(Debug, PartialEq)]
pub enum Payload {
    /// Nothing.
    Empty,
    /// A JSON document as the body.
    Json(serde_json::Value),
    /// A multipart form with one part: the content of a file, sent in the
    /// field `field` under the name `file_name`.
    File { field: String, file_name: String, content: Vec<u8> },
}

/// A `Payload` with its texts and bytes as sequences.
pub enum PayloadView {
    Empty,
    Json(serde_json::Value),
    File { field: Seq<char>, file_name: Seq<char>, content: Seq<u8> },
}

impl View for Payload {
    type V = PayloadView;

    open spec fn view(&self) -> PayloadView {
        match self {
            Payload::Empty => PayloadView::Empty,
            Payload::Json(document) => PayloadView::Json(*document),
            Payload::File { field, file_name, content } => PayloadView::File {
                field: field@,
                file_name: file_name@,
                content: content@,
            },
        }
    }
}

/// A request that is to be sent to the upstream.
#[derive(Debug, PartialEq)]
pub struct Request {
    pub operation: Operation,
    pub url: String,
    pub payload: Payload,
}

/// A `Request` with its texts and bytes as sequences.
pub struct RequestView {
    pub operation: Operation,
    pub url: Seq<char>,
    pub payload: PayloadView,
}

impl View for Request {
    type V = RequestView;

    open spec fn view(&self) -> RequestView {
        RequestView { operation: self.operation, url: self.url@, payload: self.payload@ }
    }
}

/// A local file as the caller read it: the last component of its path,
/// where it has one that is valid text, and its content.
#[derive(Debug, PartialEq, Eq)]
pub struct FileData {
    pub name: Option<String>,
    pub content: Vec<u8>,
}

/// A `FileData` with its name and bytes as sequences.
pub struct FileDataView {
    pub name: Option<Seq<char>>,
    pub content: Seq<u8>,
}

impl View for FileData {
    type V = FileDataView;

    open spec fn view(&self) -> FileDataView {
        FileDataView {
            name: match self.name {
                Some(name) => Some(name@),
                None => None,
            },
            content: self.content@,
        }
    }
}

/// Calls `std::path::Path::file_name` on the path and hands the component
/// back where `std::ffi::OsStr::to_str` finds it to be valid text. Which
/// characters part the components depends on the platform, so nothing is
/// claimed of the result.
#[verifier::external_body]
fn last_component(path: &str) -> Option<String> {
    match std::path::Path::new(path).file_name() {
        Some(name) => match name.to_str() {
            Some(text) => Some(text.to_string()),
            None => None,
        },
        None => None,
    }
}

/// A file as it is uploaded: the content that was read from the path, under
/// the last component of the path where it has one.
pub fn file_of(path: &str, content: Vec<u8>) -> (data: FileData)
    ensures
        data.content == content,
{
    FileData { name: last_component(path), content }
}

/// A text that was read, or the cause for which it could not be.
pub open spec fn text_read(read: Result<String, String>) -> Result<Seq<char>, Seq<char>> {
    match read {
        Ok(text) => Ok(text@),
        Err(cause) => Err(cause@),
    }
}

/// Bytes that were read, or the cause for which they could not be.
pub open spec fn bytes_read(read: Result<Vec<u8>, String>) -> Result<Seq<u8>, Seq<char>> {
    match read {
        Ok(bytes) => Ok(bytes@),
        Err(cause) => Err(cause@),
    }
}

/// What the parser made of a text: the document, or its message.
pub open spec fn parse_read(parsed: Result<serde_json::Value, String>) -> Result<
    serde_json::Value,
    Seq<char>,
> {
    match parsed {
        Ok(document) => Ok(document),
        Err(cause) => Err(cause@),
    }
}

/// A file that was read, or the cause for which it could not be.
pub open spec fn file_read(read: Result<FileData, String>) -> Result<FileDataView, Seq<char>> {
    match read {
        Ok(data) => Ok(data@),
        Err(cause) => Err(cause@),
    }
}

/// A request or a failure, with texts and bytes as sequences.
pub open spec fn planned(r: Result<Request, ProxyError>) -> Result<RequestView, ProxyErrorView> {
    match r {
        Ok(request) => Ok(request@),
        Err(e) => Err(e@),
    }
}

/// A document or a failure, with texts as sequences.
pub open spec fn answered(r: Result<serde_json::Value, ProxyError>) -> Result<
    serde_json::Value,
    ProxyErrorView,
> {
    match r {
        Ok(document) => Ok(document),
        Err(e) => Err(e@),
    }
}

/// Bytes or a failure, with texts and bytes as sequences.
pub open spec fn delivered(r: Result<Vec<u8>, ProxyError>) -> Result<Seq<u8>, ProxyErrorView> {
    match r {
        Ok(bytes) => Ok(bytes@),
        Err(e) => Err(e@),
    }
}

impl Verb {
    /// The command that sends this method and nothing else.
    pub open spec fn operation(self) -> Operation {
        match self {
            Verb::Get => Operation::Get,
            Verb::Post => Operation::Post,
            Verb::Put => Operation::Put,
            Verb::Delete => Operation::Delete,
        }
    }

    /// The command that sends this method and nothing else.
    pub fn to_operation(self) -> (r: Operation)
        ensures
            r == self.operation(),
    {
        match self {
            Verb::Get => Operation::Get,
            Verb::Post => Operation::Post,
            Verb::Put => Operation::Put,
            Verb::Delete => Operation::Delete,
        }
    }
}

impl Operation {
    /// The HTTP method that the command is sent with: a download is a GET,
    /// an upload a POST.
    pub open spec fn verb(self) -> Verb {
        match self {
            Operation::Get => Verb::Get,
            Operation::Post => Verb::Post,
            Operation::Put => Verb::Put,
            Operation::Delete => Verb::Delete,
            Operation::Download => Verb::Get,
            Operation::Upload => Verb::Post,
        }
    }

    /// The HTTP method that the command is sent with.
    pub fn to_verb(self) -> (r: Verb)
        ensures
            r == self.verb(),
    {
        match self {
            Operation::Get => Verb::Get,
            Operation::Post => Verb::Post,
            Operation::Put => Verb::Put,
            Operation::Delete => Verb::Delete,
            Operation::Download => Verb::Get,
            Operation::Upload => Verb::Post,
        }
    }

    /// The name of the command in texts for people.
    pub open spec fn label(self) -> Seq<char> {
        match self {
            Operation::Get => "GET"@,
            Operation::Post => "POST"@,
            Operation::Put => "PUT"@,
            Operation::Delete => "DELETE"@,
            Operation::Download => "DOWNLOAD"@,
            Operation::Upload => "UPLOAD"@,
        }
    }

    /// The name of the command in texts for people.
    pub fn name(self) -> (r: &'static str)
        ensures
            r@ == self.label(),
    {
        match self {
            Operation::Get => "GET",
            Operation::Post => "POST",
            Operation::Put => "PUT",
            Operation::Delete => "DELETE",
            Operation::Download => "DOWNLOAD",
            Operation::Upload => "UPLOAD",
        }
    }
}

/// The request that forwards a command: its URL is the base URL followed by
/// the endpoint, with no character added, removed or changed.
pub open spec fn forwarded(
    operation: Operation,
    base_url: Seq<char>,
    endpoint: Seq<char>,
    payload: PayloadView,
) -> RequestView {
    RequestView { operation, url: base_url + endpoint, payload }
}

/// The payload of a forwarded command: the body, where there is one.
pub open spec fn body_payload(body: Option<serde_json::Value>) -> PayloadView {
    match body {
        Some(document) => PayloadView::Json(document),
        None => PayloadView::Empty,
    }
}

/// The name under which a file is uploaded: its own, or `file` where the
/// path gave none.
pub open spec fn upload_name(name: Option<Seq<char>>) -> Seq<char> {
    match name {
        Some(name) => name,
        None => "file"@,
    }
}

/// The failure reported when the file of an upload cannot be read.
pub open spec fn file_read_failure(cause: Seq<char>) -> ProxyErrorView {
    ProxyErrorView::FileReadFailure { detail: "Failed to read file: "@ + cause }
}

/// The payload of an upload: one part, in the field `file`.
pub open spec fn file_payload(file: FileDataView) -> PayloadView {
    PayloadView::File { field: "file"@, file_name: upload_name(file.name), content: file.content }
}

/// What an upload amounts to once the file was tried: the request that
/// carries the file, or the failure where the file could not be read.
pub open spec fn upload_plan(
    base_url: Seq<char>,
    endpoint: Seq<char>,
    file: Result<FileDataView, Seq<char>>,
) -> Result<RequestView, ProxyErrorView> {
    match file {
        Ok(data) => Ok(forwarded(Operation::Upload, base_url, endpoint, file_payload(data))),
        Err(cause) => Err(file_read_failure(cause)),
    }
}

/// The full URL of an endpoint: the base URL followed by the endpoint. The
/// caller supplies a well-formed endpoint; no slash is added or removed.
pub fn join_url(base_url: &str, endpoint: &str) -> (url: String)
    ensures
        url@ == base_url@ + endpoint@,
{
    joined(base_url, endpoint)
}

/// The request that forwards `verb` to `endpoint` under `base_url`, with
/// `body` where there is one.
pub fn forward(
    verb: Verb,
    base_url: &str,
    endpoint: &str,
    body: Option<serde_json::Value>,
) -> (request: Request)
    ensures
        request@ == forwarded(verb.operation(), base_url@, endpoint@, body_payload(body)),
{
    let payload = match body {
        Some(document) => Payload::Json(document),
        None => Payload::Empty,
    };
    Request { operation: verb.to_operation(), url: join_url(base_url, endpoint), payload }
}

/// The request that downloads `endpoint` under `base_url`.
pub fn download_request(base_url: &str, endpoint: &str) -> (request: Request)
    ensures
        request@ == forwarded(Operation::Download, base_url@, endpoint@, PayloadView::Empty),
{
    Request {
        operation: Operation::Download,
        url: join_url(base_url, endpoint),
        payload: Payload::Empty,
    }
}

/// The failure for a file that could not be read.
pub fn file_unreadable(cause: &str) -> (e: ProxyError)
    ensures
        e@ == file_read_failure(cause@),
{
    ProxyError::FileReadFailure { detail: joined("Failed to read file: ", cause) }
}

/// The request that uploads a file to `endpoint` under `base_url`, or the
/// failure where the file could not be read: then there is no request, so
/// nothing is sent.
pub fn upload_request(base_url: &str, endpoint: &str, file: Result<FileData, String>) -> (r:
    Result<Request, ProxyError>)
    ensures
        planned(r) == upload_plan(base_url@, endpoint@, file_read(file)),
{
    match file {
        Ok(data) => {
            let file_name = match data.name {
                Some(name) => name,
                None => String::from_str("file"),
            };
            Ok(
                Request {
                    operation: Operation::Upload,
                    url: join_url(base_url, endpoint),
                    payload: Payload::File {
                        field: String::from_str("file"),
                        file_name,
                        content: data.content,
                    },
                },
            )
        },
        Err(cause) => Err(file_unreadable(cause.as_str())),
    }
}

/// The full URL of an endpoint, given how reading the base URL ended: a
/// failed read fails the call with the read's own failure.
pub fn url_read(base_url: Result<String, ProxyError>, endpoint: &str) -> (r: Result<
    String,
    ProxyError,
>)
    ensures
        match base_url {
            Ok(base) => r matches Ok(url) && url@ == base@ + endpoint@,
            Err(e) => r == Err::<String, ProxyError>(e),
        },
{
    match base_url {
        Ok(base) => Ok(join_url(base.as_str(), endpoint)),
        Err(e) => Err(e),
    }
}

/// The request that forwards `verb` to `endpoint`, given how reading the
/// base URL ended: a failed read fails the call with the read's own
/// failure, and there is no request.
pub fn forward_read(
    verb: Verb,
    base_url: Result<String, ProxyError>,
    endpoint: &str,
    body: Option<serde_json::Value>,
) -> (r: Result<Request, ProxyError>)
    ensures
        match base_url {
            Ok(base) => planned(r) == Ok::<RequestView, ProxyErrorView>(
                forwarded(verb.operation(), base@, endpoint@, body_payload(body)),
            ),
            Err(e) => r == Err::<Request, ProxyError>(e),
        },
{
    match base_url {
        Ok(base) => Ok(forward(verb, base.as_str(), endpoint, body)),
        Err(e) => Err(e),
    }
}

/// The request that downloads `endpoint`, given how reading the base URL
/// ended: a failed read fails the call with the read's own failure.
pub fn download_read(base_url: Result<String, ProxyError>, endpoint: &str) -> (r: Result<
    Request,
    ProxyError,
>)
    ensures
        match base_url {
            Ok(base) => planned(r) == Ok::<RequestView, ProxyErrorView>(
                forwarded(Operation::Download, base@, endpoint@, PayloadView::Empty),
            ),
            Err(e) => r == Err::<Request, ProxyError>(e),
        },
{
    match base_url {
        Ok(base) => Ok(download_request(base.as_str(), endpoint)),
        Err(e) => Err(e),
    }
}

/// What an upload to `endpoint` amounts to, given how reading the base URL
/// ended and how reading the file ended. A failed read of the base URL
/// fails the call with the read's own failure, whatever became of the file.
pub fn upload_read(
    base_url: Result<String, ProxyError>,
    endpoint: &str,
    file: Result<FileData, String>,
) -> (r: Result<Request, ProxyError>)
    ensures
        match base_url {
            Ok(base) => planned(r) == upload_plan(base@, endpoint@, file_read(file)),
            Err(e) => r == Err::<Request, ProxyError>(e),
        },
{
    match base_url {
        Ok(base) => upload_request(base.as_str(), endpoint, file),
        Err(e) => Err(e),
    }
}

/// Forwards commands to the upstream whose base URL the shared state holds.
pub struct ApiClient<'a> {
    state: &'a AppState,
}

impl<'a> ApiClient<'a> {
    /// The state that the client reads the base URL from.
    pub closed spec fn state(&self) -> &AppState {
        self.state
    }

    /// A client on the shared state.
    pub fn new(state: &'a AppState) -> (client: Self)
        ensures
            client.state() == state,
    {
        ApiClient { state }
    }

    /// The full URL of an endpoint under the base URL as it is at the moment
    /// of the call. Fails only where the guard is poisoned.
    pub fn build_url(&self, endpoint: &str) -> (r: Result<String, ProxyError>)
        ensures
            r matches Ok(url) ==> exists|base_url: Seq<char>|
                url@ == #[trigger] (base_url + endpoint@),
            r matches Err(e) ==> exists|cause: Seq<char>| e@ == lock_failure(cause),
    {
        let read = self.state.get_api_url();
        let r = url_read(read, endpoint);
        assert(r matches Ok(url) ==> url@ == read->Ok_0@ + endpoint@);
        r
    }

    /// The request of a GET. Fails only where the guard is poisoned.
    pub fn get(&self, endpoint: &str) -> (r: Result<Request, ProxyError>)
        ensures
            r matches Ok(request) ==> exists|base_url: Seq<char>|
                request@ == forwarded(Operation::Get, base_url, endpoint@, PayloadView::Empty),
            r matches Err(e) ==> exists|cause: Seq<char>| e@ == lock_failure(cause),
    {
        let read = self.state.get_api_url();
        let r = forward_read(Verb::Get, read, endpoint, None);
        assert(r matches Ok(request) ==> request@ == forwarded(
            Operation::Get,
            read->Ok_0@,
            endpoint@,
            PayloadView::Empty,
        ));
        r
    }

    /// The request of a POST with a JSON body. Fails only where the guard is
    /// poisoned.
    pub fn post(&self, endpoint: &str, body: serde_json::Value) -> (r: Result<Request, ProxyError>)
        ensures
            r matches Ok(request) ==> exists|base_url: Seq<char>|
                request@ == forwarded(
                    Operation::Post,
                    base_url,
                    endpoint@,
                    PayloadView::Json(body),
                ),
            r matches Err(e) ==> exists|cause: Seq<char>| e@ == lock_failure(cause),
    {
        let read = self.state.get_api_url();
        let r = forward_read(Verb::Post, read, endpoint, Some(body));
        assert(r matches Ok(request) ==> request@ == forwarded(
            Operation::Post,
            read->Ok_0@,
            endpoint@,
            PayloadView::Json(body),
        ));
        r
    }

    /// The request of a PUT with a JSON body. Fails only where the guard is
    /// poisoned.
    pub fn put(&self, endpoint: &str, body: serde_json::Value) -> (r: Result<Request, ProxyError>)
        ensures
            r matches Ok(request) ==> exists|base_url: Seq<char>|
                request@ == forwarded(
                    Operation::Put,
                    base_url,
                    endpoint@,
                    PayloadView::Json(body),
                ),
            r matches Err(e) ==> exists|cause: Seq<char>| e@ == lock_failure(cause),
    {
        let read = self.state.get_api_url();
        let r = forward_read(Verb::Put, read, endpoint, Some(body));
        assert(r matches Ok(request) ==> request@ == forwarded(
            Operation::Put,
            read->Ok_0@,
            endpoint@,
            PayloadView::Json(body),
        ));
        r
    }

    /// The request of a DELETE. Fails only where the guard is poisoned.
    pub fn delete(&self, endpoint: &str) -> (r: Result<Request, ProxyError>)
        ensures
            r matches Ok(request) ==> exists|base_url: Seq<char>|
                request@ == forwarded(Operation::Delete, base_url, endpoint@, PayloadView::Empty),
            r matches Err(e) ==> exists|cause: Seq<char>| e@ == lock_failure(cause),
    {
        let read = self.state.get_api_url();
        let r = forward_read(Verb::Delete, read, endpoint, None);
        assert(r matches Ok(request) ==> request@ == forwarded(
            Operation::Delete,
            read->Ok_0@,
            endpoint@,
            PayloadView::Empty,
        ));
        r
    }

    /// The request of a download. Fails only where the guard is poisoned.
    pub fn download(&self, endpoint: &str) -> (r: Result<Request, ProxyError>)
        ensures
            r matches Ok(request) ==> exists|base_url: Seq<char>|
                request@ == forwarded(
                    Operation::Download,
                    base_url,
                    endpoint@,
                    PayloadView::Empty,
                ),
            r matches Err(e) ==> exists|cause: Seq<char>| e@ == lock_failure(cause),
    {
        let read = self.state.get_api_url();
        let r = download_read(read, endpoint);
        assert(r matches Ok(request) ==> request@ == forwarded(
            Operation::Download,
            read->Ok_0@,
            endpoint@,
            PayloadView::Empty,
        ));
        r
    }

    /// The request of an upload, for a file that the caller has tried to
    /// read. A poisoned guard is reported first. A file that could not be
    /// read is reported next, and then there is no request: nothing is sent.
    pub fn upload(&self, endpoint: &str, file: Result<FileData, String>) -> (r: Result<
        Request,
        ProxyError,
    >)
        ensures
            (exists|base_url: Seq<char>|
                planned(r) == upload_plan(base_url, endpoint@, file_read(file))) || (r matches Err(
                e,
            ) && exists|cause: Seq<char>| e@ == lock_failure(cause)),
            file is Err ==> r is Err,
    {
        let read = self.state.get_api_url();
        let r = upload_read(read, endpoint, file);
        assert(read is Ok ==> planned(r) == upload_plan(read->Ok_0@, endpoint@, file_read(file)));
        r
    }
}

/// Whether a status reports success: 200 up to and including 299.
pub open spec fn is_success_status(status: u16) -> bool {
    200 <= status < 300
}

/// The failure reported when a request could not be sent or no response
/// came: the connection failed, or the timeout ran out.
pub open spec fn send_failure(operation: Operation, cause: Seq<char>) -> ProxyErrorView {
    ProxyErrorView::TransportFailure {
        detail: match operation {
            Operation::Download => "Download request failed: "@,
            Operation::Upload => "Upload request failed: "@,
            _ => "Request failed: "@,
        } + cause,
    }
}

/// The failure reported for a status that is no success. It carries the
/// body where the body could be read, else a placeholder, so that reporting
/// an upstream failure never fails itself.
pub open spec fn upstream_failure(status: u16, body: Result<Seq<char>, Seq<char>>) -> ProxyErrorView {
    ProxyErrorView::UpstreamFailure {
        status,
        detail: match body {
            Ok(text) => text,
            Err(_) => "Unknown error"@,
        },
    }
}

/// The failure reported when the body of a successful response could not be
/// read as text.
pub open spec fn unreadable_body(cause: Seq<char>) -> ProxyErrorView {
    ProxyErrorView::TransportFailure { detail: "Failed to read response: "@ + cause }
}

/// The failure reported when the body of a successful download could not be
/// read.
pub open spec fn unreadable_bytes(cause: Seq<char>) -> ProxyErrorView {
    ProxyErrorView::TransportFailure { detail: "Failed to read response bytes: "@ + cause }
}

/// The failure reported when the body of a successful response is not a
/// JSON document. It carries the parser's message and the body as it came.
pub open spec fn malformed_body(cause: Seq<char>, text: Seq<char>) -> ProxyErrorView {
    ProxyErrorView::TransportFailure {
        detail: "Failed to parse response: "@ + cause + " (response text: "@ + text + ")"@,
    }
}

/// What a body that was not empty amounts to, given what the parser made of
/// it.
pub open spec fn parsed_outcome(
    text: Seq<char>,
    parsed: Result<serde_json::Value, Seq<char>>,
) -> Result<serde_json::Value, ProxyErrorView> {
    match parsed {
        Ok(document) => Ok(document),
        Err(cause) => Err(malformed_body(cause, text)),
    }
}

/// What a response amounts to. The status is looked at first: no body of a
/// response that is no success is ever parsed. Then the body must have been
/// read. An empty body stands for the empty object, and is never parsed.
/// Any other body is parsed.
pub open spec fn response_outcome(status: u16, body: Result<Seq<char>, Seq<char>>) -> Result<
    serde_json::Value,
    ProxyErrorView,
> {
    if !is_success_status(status) {
        Err(upstream_failure(status, body))
    } else {
        match body {
            Err(cause) => Err(unreadable_body(cause)),
            Ok(text) => if text.len() == 0 {
                Ok(empty_object_value())
            } else {
                parsed_outcome(text, parsed_json(text))
            },
        }
    }
}

/// Whether a status reports success.
pub fn is_success(status: u16) -> (r: bool)
    ensures
        r == is_success_status(status),
{
    200 <= status && status < 300
}

/// The failure for a request that could not be sent or was not answered.
pub fn request_failed(operation: Operation, cause: &str) -> (e: ProxyError)
    ensures
        e@ == send_failure(operation, cause@),
{
    let prefix = match operation {
        Operation::Download => "Download request failed: ",
        Operation::Upload => "Upload request failed: ",
        _ => "Request failed: ",
    };
    ProxyError::TransportFailure { detail: joined(prefix, cause) }
}

/// The failure for a status that is no success, with the body as far as it
/// could be read.
pub fn upstream_rejected(status: u16, body: Result<String, String>) -> (e: ProxyError)
    ensures
        e@ == upstream_failure(status, text_read(body)),
{
    let detail = match body {
        Ok(text) => text,
        Err(_) => String::from_str("Unknown error"),
    };
    ProxyError::UpstreamFailure { status, detail }
}

/// What a body that was not empty amounts to, given what the parser made of
/// it: the document, or the failure that carries the parser's message and
/// the body.
pub fn parsed_body(text: &str, parsed: Result<serde_json::Value, String>) -> (r: Result<
    serde_json::Value,
    ProxyError,
>)
    ensures
        answered(r) == parsed_outcome(text@, parse_read(parsed)),
{
    match parsed {
        Ok(document) => Ok(document),
        Err(cause) => {
            let mut detail = String::from_str("Failed to parse response: ");
            detail.append(cause.as_str());
            detail.append(" (response text: ");
            detail.append(text);
            detail.append(")");
            Err(ProxyError::TransportFailure { detail })
        },
    }
}

/// Classifies the response to a GET, POST, PUT, DELETE or upload from its
/// status and from its body as the caller read it as text.
pub fn handle_response(status: u16, body: Result<String, String>) -> (r: Result<
    serde_json::Value,
    ProxyError,
>)
    ensures
        answered(r) == response_outcome(status, text_read(body)),
{
    if !is_success(status) {
        return Err(upstream_rejected(status, body));
    }
    match body {
        Err(cause) => Err(
            ProxyError::TransportFailure {
                detail: joined("Failed to read response: ", cause.as_str()),
            },
        ),
        Ok(text) => {
            if text.as_str().is_empty() {
                Ok(empty_object())
            } else {
                let parsed = parse_json(text.as_str());
                parsed_body(text.as_str(), parsed)
            }
        },
    }
}

/// How the body of a response is to be read.
#[derive(Debug, Clone, Copy, PartialEq, Eq)]
pub enum BodyKind {
    /// As text, decoded as the response declares.
    Text,
    /// As the raw bytes.
    Bytes,
}

/// The body of the response to a download, as the caller read it.
#[derive(Debug, PartialEq, Eq)]
pub enum DownloadBody {
    Text(Result<String, String>),
    Bytes(Result<Vec<u8>, String>),
}

/// A `DownloadBody` with its texts and bytes as sequences.
pub enum DownloadBodyView {
    Text(Result<Seq<char>, Seq<char>>),
    Bytes(Result<Seq<u8>, Seq<char>>),
}

impl View for DownloadBody {
    type V = DownloadBodyView;

    open spec fn view(&self) -> DownloadBodyView {
        match self {
            DownloadBody::Text(read) => DownloadBodyView::Text(text_read(*read)),
            DownloadBody::Bytes(read) => DownloadBodyView::Bytes(bytes_read(*read)),
        }
    }
}

/// How the body of the response to a download is to be read: the payload of
/// a success as bytes, the explanation of a failure as text.
pub open spec fn download_body(status: u16) -> BodyKind {
    if is_success_status(status) {
        BodyKind::Bytes
    } else {
        BodyKind::Text
    }
}

/// What the response to a download amounts to. The status is looked at
/// first. A response that is no success gives an upstream failure with the
/// body where it was read as text, else with the placeholder. A success
/// gives the body as it came, with no attempt to parse it: the bytes, or
/// the encoding of the text where the caller read text.
pub open spec fn download_outcome(status: u16, body: DownloadBodyView) -> Result<
    Seq<u8>,
    ProxyErrorView,
> {
    if !is_success_status(status) {
        Err(
            upstream_failure(
                status,
                match body {
                    DownloadBodyView::Text(read) => read,
                    DownloadBodyView::Bytes(_) => Err(Seq::empty()),
                },
            ),
        )
    } else {
        match body {
            DownloadBodyView::Bytes(Ok(bytes)) => Ok(bytes),
            DownloadBodyView::Bytes(Err(cause)) => Err(unreadable_bytes(cause)),
            DownloadBodyView::Text(Ok(text)) => Ok(vstd::utf8::encode_utf8(text)),
            DownloadBodyView::Text(Err(cause)) => Err(unreadable_bytes(cause)),
        }
    }
}

/// How the body of the response to a download is to be read.
pub fn download_body_kind(status: u16) -> (kind: BodyKind)
    ensures
        kind == download_body(status),
{
    if is_success(status) {
        BodyKind::Bytes
    } else {
        BodyKind::Text
    }
}

/// The failure for the body of a download that could not be read.
pub fn bytes_unreadable(cause: &str) -> (e: ProxyError)
    ensures
        e@ == unreadable_bytes(cause@),
{
    ProxyError::TransportFailure { detail: joined("Failed to read response bytes: ", cause) }
}

/// Classifies the response to a download from its status and from its body
/// as the caller read it.
pub fn handle_download(status: u16, body: DownloadBody) -> (r: Result<Vec<u8>, ProxyError>)
    ensures
        delivered(r) == download_outcome(status, body@),
{
    if !is_success(status) {
        let e = match body {
            DownloadBody::Text(read) => upstream_rejected(status, read),
            DownloadBody::Bytes(_) => upstream_rejected(status, Err(String::new())),
        };
        return Err(e);
    }
    match body {
        DownloadBody::Bytes(Ok(bytes)) => Ok(bytes),
        DownloadBody::Bytes(Err(cause)) => Err(bytes_unreadable(cause.as_str())),
        DownloadBody::Text(Ok(text)) => Ok(text.as_str().as_bytes_vec()),
        DownloadBody::Text(Err(cause)) => Err(bytes_unreadable(cause.as_str())),
    }
}

/// A failure as it is shown to a person: the command, the URL, and the
/// failure's own text.
pub open spec fn described(operation: Operation, url: Seq<char>, e: ProxyErrorView) -> Seq<char> {
    operation.label() + " "@ + url + " - "@ + e.message()
}

/// Writes a failure as it is shown to a person.
pub fn describe(operation: Operation, url: &str, e: &ProxyError) -> (text: String)
    ensures
        text@ == described(operation, url@, e@),
{
    let message = e.message();
    let mut text = String::from_str(operation.name());
    text.append(" ");
    text.append(url);
    text.append(" - ");
    text.append(message.as_str());
    text
}

/// The URL of a forwarded request is the base URL followed by the endpoint
/// and nothing else: it begins with every character of the base URL, ends
/// with every character of the endpoint, and holds no other character. This
/// holds of every command, an upload included.
pub proof fn law_request_goes_to_base_plus_endpoint(
    operation: Operation,
    base_url: Seq<char>,
    endpoint: Seq<char>,
    payload: PayloadView,
    file: FileDataView,
)
    ensures
        ({
            let url = forwarded(operation, base_url, endpoint, payload).url;
            &&& url == base_url + endpoint
            &&& url.len() == base_url.len() + endpoint.len()
            &&& url.subrange(0, base_url.len() as int) == base_url
            &&& url.subrange(base_url.len() as int, url.len() as int) == endpoint
        }),
        upload_plan(base_url, endpoint, Ok(file)) matches Ok(request) && request.url == base_url
            + endpoint,
{
    let url = base_url + endpoint;
    assert(url.subrange(0, base_url.len() as int) =~= base_url);
    assert(url.subrange(base_url.len() as int, url.len() as int) =~= endpoint);
}

/// A command that is repeated against the same base URL is sent as the same
/// request, and the same response to it is classified as the same outcome:
/// two answers to one status and one body are one answer.
pub proof fn law_repeated_call_same_outcome(
    operation: Operation,
    base_url: Seq<char>,
    endpoint: Seq<char>,
    payload: PayloadView,
    first_request: RequestView,
    second_request: RequestView,
    status: u16,
    body: Result<Seq<char>, Seq<char>>,
    first: Result<serde_json::Value, ProxyErrorView>,
    second: Result<serde_json::Value, ProxyErrorView>,
)
    requires
        first_request == forwarded(operation, base_url, endpoint, payload),
        second_request == forwarded(operation, base_url, endpoint, payload),
        first == response_outcome(status, body),
        second == response_outcome(status, body),
    ensures
        first_request == second_request,
        first == second,
{
}

/// A success with an empty body is the empty object, never a failure, for
/// every status that reports success.
pub proof fn law_empty_body_is_empty_object(status: u16)
    requires
        is_success_status(status),
    ensures
        response_outcome(status, Ok(Seq::empty())) == Ok::<serde_json::Value, ProxyErrorView>(
            empty_object_value(),
        ),
{
}

/// The status comes before the body: a response that is no success is an
/// upstream failure with its status, whatever the body holds, also where
/// the body is no JSON document or could not be read. The same holds of a
/// download.
pub proof fn law_status_before_body(
    status: u16,
    body: Result<Seq<char>, Seq<char>>,
    downloaded: DownloadBodyView,
)
    requires
        !is_success_status(status),
    ensures
        response_outcome(status, body) == Err::<serde_json::Value, ProxyErrorView>(
            upstream_failure(status, body),
        ),
        response_outcome(status, body) matches Err(e) && e is UpstreamFailure
            && e->UpstreamFailure_status == status,
        body matches Ok(text) ==> response_outcome(status, body) matches Err(e)
            && e->UpstreamFailure_detail == text,
        download_outcome(status, downloaded) matches Err(e) && e is UpstreamFailure
            && e->UpstreamFailure_status == status,
{
}

/// An upload whose file could not be read is a failure to read the file,
/// under every base URL: there is no request to send.
pub proof fn law_unreadable_file_sends_nothing(
    base_url: Seq<char>,
    endpoint: Seq<char>,
    cause: Seq<char>,
)
    ensures
        upload_plan(base_url, endpoint, Err(cause)) == Err::<RequestView, ProxyErrorView>(
            file_read_failure(cause),
        ),
{
}

} // verus!
