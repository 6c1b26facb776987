//! Clients of the two REST APIs behind the console: mkube (the cluster) and stormd (the
//! process manager on each node). A client method describes the HTTP request to make, as an
//! `ApiRequest`; sending it and decoding the reply happen outside this library.
pub mod mkube;
pub mod stormd;

use vstd::prelude::*;
use vstd::string::*;

verus! {

/// `serde_json::Value`, a JSON document, which the library carries through without looking
/// inside it.
#[verifier::external_type_specification]
#[verifier::external_body]
pub struct ExJsonValue(serde_json::Value);

/// The HTTP method of a request.
#[derive(Debug, Clone, Copy, PartialEq, Eq, Structural)]
pub enum HttpMethod {
    Get,
    Post,
    Delete,
    Patch,
}

/// What the caller reads from the reply of a request.
#[derive(Debug, Clone, Copy, PartialEq, Eq, Structural)]
pub enum ReplyFormat {
    /// The body, decoded as JSON.
    Json,
    /// The body, as text.
    Text,
    /// Nothing: only whether the request could be sent.
    Ignored,
}

/// The step of a request that failed.
#[derive(Debug, Clone, Copy, PartialEq, Eq, Structural)]
pub enum FailureStage {
    /// The request could not be sent or no reply came.
    Send,
    /// The reply's body was no JSON of the expected shape.
    ParseJson,
    /// The reply's body could not be read as text.
    ReadText,
}

/// An HTTP request to one of the APIs.
#[derive(Debug, Clone)]
pub struct ApiRequest {
    pub method: HttpMethod,
    pub url: String,
    /// The `Content-Type` header to send, when the request sets one itself.
    pub content_type: Option<String>,
    /// The JSON document to send as the body, if any.
    pub json_body: Option<serde_json::Value>,
    pub reply: ReplyFormat,
    /// When present, error messages name the failed step after this label; when absent they
    /// are the bare error text.
    pub error_label: Option<String>,
}

/// The address that a client of the API at `base_url` works with.
pub open spec fn client_address(base_url: Seq<char>) -> Seq<char> {
    crate::text::trim_trailing_slashes(base_url)
}

/// A client's address never ends in `/`; it is the given address without the `/` characters
/// at its end; and giving the address with one more trailing slash makes the same address.
pub proof fn lemma_client_address_normalized(base_url: Seq<char>)
    ensures
        client_address(base_url).len() > 0 ==> client_address(base_url).last() != '/',
        client_address(base_url) == base_url.subrange(0, client_address(base_url).len() as int),
        forall|i: int| client_address(base_url).len() <= i < base_url.len() ==> base_url[i] == '/',
        client_address(base_url.push('/')) == client_address(base_url),
        client_address(client_address(base_url)) == client_address(base_url),
{
    crate::text::lemma_trim_shape(base_url);
    crate::text::lemma_trim_ignores_added_slash(base_url);
    crate::text::lemma_trim_idempotent(base_url);
}

/// The view of an optional text.
pub open spec fn opt_text(o: Option<String>) -> Option<Seq<char>> {
    match o {
        Some(s) => Some(s@),
        None => None,
    }
}

/// What a request is, with its texts as sequences of characters.
pub struct RequestView {
    pub method: HttpMethod,
    pub url: Seq<char>,
    pub content_type: Option<Seq<char>>,
    pub json_body: Option<serde_json::Value>,
    pub reply: ReplyFormat,
    pub error_label: Option<Seq<char>>,
}

impl View for ApiRequest {
    type V = RequestView;

    open spec fn view(&self) -> RequestView {
        RequestView {
            method: self.method,
            url: self.url@,
            content_type: opt_text(self.content_type),
            json_body: self.json_body,
            reply: self.reply,
            error_label: opt_text(self.error_label),
        }
    }
}

impl RequestView {
    /// A `GET` of `url` whose reply is read as `reply`, with failures labelled by `label`.
    pub open spec fn fetch(url: Seq<char>, reply: ReplyFormat, label: Seq<char>) -> RequestView {
        RequestView {
            method: HttpMethod::Get,
            url,
            content_type: None,
            json_body: None,
            reply,
            error_label: Some(label),
        }
    }

    /// A request with no body whose reply is ignored and whose failures are reported bare.
    pub open spec fn command(method: HttpMethod, url: Seq<char>) -> RequestView {
        RequestView {
            method,
            url,
            content_type: None,
            json_body: None,
            reply: ReplyFormat::Ignored,
            error_label: None,
        }
    }
}

/// The words that name a failed step in an error message.
pub open spec fn stage_words(stage: FailureStage) -> Seq<char> {
    match stage {
        FailureStage::Send => "request failed: "@,
        FailureStage::ParseJson => "json parse failed: "@,
        FailureStage::ReadText => "text read failed: "@,
    }
}

/// The error message for a failure of `stage` with error text `detail`.
pub open spec fn failure_message_view(label: Option<Seq<char>>, stage: FailureStage, detail: Seq<char>) -> Seq<char> {
    match label {
        Some(l) => l + stage_words(stage) + detail,
        None => detail,
    }
}

/// The error message that the caller reports when `stage` of `request` fails with the error
/// text `detail`.
pub fn failure_message(request: &ApiRequest, stage: FailureStage, detail: &str) -> (message: String)
    ensures
        message@ == failure_message_view(request@.error_label, stage, detail@),
{
    match &request.error_label {
        Some(label) => {
            let mut message = label.clone();
            let words = match stage {
                FailureStage::Send => "request failed: ",
                FailureStage::ParseJson => "json parse failed: ",
                FailureStage::ReadText => "text read failed: ",
            };
            message.append(words);
            message.append(detail);
            message
        },
        None => String::from_str(detail),
    }
}

/// A base address followed by a path.
pub fn join_url(base: &str, path: &str) -> (url: String)
    ensures
        url@ == base@ + path@,
{
    let mut url = String::from_str(base);
    url.append(path);
    url
}

/// The path of the object `name` of kind `kind` in namespace `ns`.
pub open spec fn namespaced_path(ns: Seq<char>, kind: Seq<char>, name: Seq<char>) -> Seq<char> {
    "/api/v1/namespaces/"@ + ns + "/"@ + kind + "/"@ + name
}

/// The path of all objects of kind `kind` in namespace `ns`.
pub open spec fn namespace_path(ns: Seq<char>, kind: Seq<char>) -> Seq<char> {
    "/api/v1/namespaces/"@ + ns + "/"@ + kind
}

/// `/api/v1/namespaces/{ns}/{kind}`.
pub fn namespace_path_text(ns: &str, kind: &str) -> (path: String)
    ensures
        path@ == namespace_path(ns@, kind@),
{
    let mut path = String::from_str("/api/v1/namespaces/");
    path.append(ns);
    path.append("/");
    path.append(kind);
    path
}

/// `/api/v1/namespaces/{ns}/{kind}/{name}`.
pub fn namespaced_path_text(ns: &str, kind: &str, name: &str) -> (path: String)
    ensures
        path@ == namespaced_path(ns@, kind@, name@),
{
    let mut path = namespace_path_text(ns, kind);
    path.append("/");
    path.append(name);
    path
}

/// No `/` occurs in `s`.
pub open spec fn slash_free(s: Seq<char>) -> bool {
    forall|i: int| 0 <= i < s.len() ==> s[i] != '/'
}

/// Two objects of one kind have the same path only when they have the same namespace and
/// name, provided that namespaces hold no `/` (Kubernetes namespaces never do).
pub proof fn lemma_object_paths_distinct(
    kind: Seq<char>,
    ns1: Seq<char>,
    name1: Seq<char>,
    ns2: Seq<char>,
    name2: Seq<char>,
)
    requires
        slash_free(ns1),
        slash_free(ns2),
        namespaced_path(ns1, kind, name1) == namespaced_path(ns2, kind, name2),
    ensures
        ns1 == ns2,
        name1 == name2,
{
    let pre = "/api/v1/namespaces/"@;
    let p1 = namespaced_path(ns1, kind, name1);
    let p2 = namespaced_path(ns2, kind, name2);
    let k: int = pre.len() as int;
    assert(p1 =~= pre + ns1 + ("/"@ + kind + "/"@ + name1));
    assert(p2 =~= pre + ns2 + ("/"@ + kind + "/"@ + name2));
    reveal_strlit("/");
    if ns1.len() < ns2.len() {
        assert(p1[k + ns1.len()] == '/');
        assert(p2[k + ns1.len()] == ns2[ns1.len() as int]);
        assert(false);
    } else if ns2.len() < ns1.len() {
        assert(p2[k + ns2.len()] == '/');
        assert(p1[k + ns2.len()] == ns1[ns2.len() as int]);
        assert(false);
    }
    assert(ns1 =~= p1.subrange(k, k + ns1.len()));
    assert(ns2 =~= p2.subrange(k, k + ns2.len()));
    let tail: int = k + ns1.len() + 1 + kind.len() + 1;
    assert(name1 =~= p1.subrange(tail, p1.len() as int));
    assert(name2 =~= p2.subrange(tail, p2.len() as int));
}

/// A labelled error message is the label, the words for the failed step (`request failed: `,
/// `json parse failed: ` or `text read failed: `) and the error text; an unlabelled one is the
/// error text alone.
pub proof fn lemma_failure_message_words(label: Seq<char>, detail: Seq<char>)
    ensures
        failure_message_view(Some(label), FailureStage::Send, detail) == label + "request failed: "@ + detail,
        failure_message_view(Some(label), FailureStage::ParseJson, detail) == label + "json parse failed: "@ + detail,
        failure_message_view(Some(label), FailureStage::ReadText, detail) == label + "text read failed: "@ + detail,
        failure_message_view(None, FailureStage::Send, detail) == detail,
        failure_message_view(None, FailureStage::ParseJson, detail) == detail,
        failure_message_view(None, FailureStage::ReadText, detail) == detail,
{
}

/// A copy of a JSON document, made by `<serde_json::Value as Clone>::clone`. Trusted: the
/// contract claims that the copy is the same document as the one copied, which holds because
/// `serde_json` derives `Clone` for `Value`.
#[verifier::external_body]
pub(crate) fn copy_json(value: &serde_json::Value) -> (copy: serde_json::Value)
    ensures
        copy == *value,
{
    value.clone()
}

} // verus!
