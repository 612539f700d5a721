//! The request pipeline: request URLs, status interpretation, JSON decoding
//! and the error taxonomy shared by the three query operations.
//!
//! Each public operation performs one logical exchange: it builds the request
//! path, resolves it against the fixed base URL, and interprets the outcome
//! of the HTTP GET that the caller performed for that URL — the status
//! branch, the decoding of the body, and the wrapping of every failure into
//! `ClientError`. The caller (an ordinary, unverified shell) only carries the
//! resolved URL to the network and hands back the raw reply.

use crate::json::parse_json;
use crate::json::spec_arr_field;
use crate::json::spec_parse_json;
use crate::json::spec_str_field;
use crate::json::arr_field;
use crate::json::obj_view;
use crate::json::str_field;
use crate::json::Json;
use crate::json::JsonView;
use crate::license::decode_license;
use crate::license::decode_licenses;
use crate::license::spec_license;
use crate::license::spec_licenses;
use crate::license::License;
use crate::license::LicenseView;
use vstd::prelude::*;

verus! {

/// The fixed absolute base URL of the service.
pub const BASE_URL: &'static str = "https://api.opensource.org";

/// What one HTTP GET came back with: the numeric status code and the whole
/// body, read to exhaustion.
#[derive(Debug)]
pub struct RawResponse {
    pub status: u16,
    pub body: String,
}

/// The outcome of the network exchange, as the caller hands it over: either
/// a raw response, or the message of a connection, timeout or read failure.
pub type Fetched = Result<RawResponse, String>;

/// The cause of a failed operation: exactly one variant is active, carrying
/// the underlying failure it wraps.
#[derive(Debug)]
pub enum ErrorCause {
    /// The request path could not be resolved against the base URL; carries
    /// the parse error's message.
    UrlResolutionFailed(String),
    /// The network exchange itself failed; carries the transport's message.
    TransportFailed(String),
    /// The response body was not the expected JSON shape; carries the
    /// decoder's message.
    DecodeFailed(String),
    /// The service answered with a non-success status and a well-formed
    /// error body; carries the service-reported messages.
    ApiRejected(Vec<String>),
}

/// The single error type every operation returns.
#[derive(Debug)]
pub struct ClientError {
    pub cause: ErrorCause,
}

/// The cause of a failure at the specification level: payloads that the
/// pipeline pins down exactly are carried, the free-form messages of the
/// URL and decode failures are not.
pub enum FailureView {
    UrlResolutionFailed,
    TransportFailed(Seq<char>),
    DecodeFailed,
    ApiRejected(Seq<Seq<char>>),
}

/// Whether a returned cause is the stated specification-level failure.
pub open spec fn cause_matches(c: ErrorCause, f: FailureView) -> bool {
    match f {
        FailureView::UrlResolutionFailed => c is UrlResolutionFailed,
        FailureView::TransportFailed(m) => c matches ErrorCause::TransportFailed(t) && t@ == m,
        FailureView::DecodeFailed => c is DecodeFailed,
        FailureView::ApiRejected(ms) => c matches ErrorCause::ApiRejected(v) && v.deep_view()
            == ms,
    }
}

/// The service-reported messages joined into one line.
pub open spec fn spec_join(ms: Seq<Seq<char>>) -> Seq<char>
    decreases ms.len(),
{
    if ms.len() == 0 {
        Seq::empty()
    } else if ms.len() == 1 {
        ms[0]
    } else {
        ms[0] + "; "@ + spec_join(ms.drop_first())
    }
}

/// The rendered description of a failure: the wrapped message, or the
/// joined service-reported messages.
pub open spec fn spec_describe(c: ErrorCause) -> Seq<char> {
    match c {
        ErrorCause::UrlResolutionFailed(m) => m@,
        ErrorCause::TransportFailed(m) => m@,
        ErrorCause::DecodeFailed(m) => m@,
        ErrorCause::ApiRejected(ms) => spec_join(ms.deep_view()),
    }
}

/// Joins the messages with `"; "` between them.
fn join_messages(ms: &Vec<String>) -> (r: String)
    ensures
        r@ == spec_join(ms.deep_view()),
{
    let ghost m = ms.deep_view();
    let mut out = String::new();
    proof {
        assert(m.skip(0) =~= m);
        assert(out@ + spec_join(m) =~= spec_join(m));
    }
    let mut i: usize = 0;
    while i < ms.len()
        invariant
            0 <= i <= ms@.len(),
            m == ms.deep_view(),
            m.len() == ms@.len(),
            out@ + spec_join(m.skip(i as int)) == spec_join(m),
        decreases ms@.len() - i,
    {
        proof {
            assert(m.skip(i as int)[0] == m[i as int]);
            assert(m.skip(i as int).drop_first() =~= m.skip(i as int + 1));
        }
        out.append(ms[i].as_str());
        if i + 1 < ms.len() {
            out.append("; ");
        }
        i += 1;
    }
    proof {
        assert(m.skip(ms@.len() as int).len() == 0);
        assert(out@ + Seq::<char>::empty() =~= out@);
    }
    out
}

/// What resolving the given path against the given base URL yields, by
/// RFC 3986 relative-reference resolution: the resolved absolute URL's text,
/// or `None` when the two do not resolve; a function of the two strings
/// alone.
pub uninterp spec fn resolved_url(base: Seq<char>, path: Seq<char>) -> Option<Seq<char>>;

/// Relies on `url::Url::parse` and `url::Url::join` for RFC 3986 resolution
/// of the path against the base, and on `String::from(url::Url)` for the
/// resolved text; a failure carries the message of `url::ParseError`'s
/// display form.
#[verifier::external_body]
fn join_url(base: &str, path: &str) -> (r: Result<String, String>)
    ensures
        r matches Ok(u) ==> resolved_url(base@, path@) == Some(u@),
        r is Err ==> resolved_url(base@, path@) is None,
{
    match url::Url::parse(base).and_then(|b| b.join(path)) {
        Ok(u) => Ok(String::from(u)),
        Err(e) => Err(e.to_string()),
    }
}

/// The request path of `get`.
pub open spec fn spec_license_path(id: Seq<char>) -> Seq<char> {
    "license/"@ + id
}

/// The request path of `all`.
pub open spec fn spec_all_path() -> Seq<char> {
    "licenses/"@
}

/// The request path of `tagged`.
pub open spec fn spec_tagged_path(keyword: Seq<char>) -> Seq<char> {
    "licenses/"@ + keyword
}

fn license_path(id: &str) -> (r: String)
    ensures
        r@ == spec_license_path(id@),
{
    String::from_str("license/").concat(id)
}

fn all_path() -> (r: String)
    ensures
        r@ == spec_all_path(),
{
    String::from_str("licenses/")
}

fn tagged_path(keyword: &str) -> (r: String)
    ensures
        r@ == spec_tagged_path(keyword@),
{
    String::from_str("licenses/").concat(keyword)
}

/// The network outcome at the specification level: status and body text, or
/// the transport failure's message.
pub open spec fn fetched_view(f: Fetched) -> Result<(u16, Seq<char>), Seq<char>> {
    match f {
        Ok(resp) => Ok((resp.status, resp.body@)),
        Err(m) => Err(m@),
    }
}

/// The shared pipeline, at the specification level, up to the point where a
/// success body is handed to the operation's own decoder: resolve the path
/// against the base URL, require the transport to have succeeded, and branch
/// on the status — 200 yields the body, any other status decodes the body as
/// the service's error shape and reports the rejection.
pub open spec fn spec_api_call(path: Seq<char>, fetched: Result<(u16, Seq<char>), Seq<char>>) -> Result<
    Seq<char>,
    FailureView,
> {
    if resolved_url(BASE_URL@, path) is None {
        Err(FailureView::UrlResolutionFailed)
    } else {
        match fetched {
            Err(m) => Err(FailureView::TransportFailed(m)),
            Ok((status, body)) => {
                if status == 200 {
                    Ok(body)
                } else {
                    match spec_parse_json(body) {
                        None => Err(FailureView::DecodeFailed),
                        Some(j) => match spec_error_messages(j) {
                            None => Err(FailureView::DecodeFailed),
                            Some(ms) => Err(FailureView::ApiRejected(ms)),
                        },
                    }
                }
            },
        }
    }
}

/// What `get` returns, at the specification level.
pub open spec fn spec_get(id: Seq<char>, fetched: Result<(u16, Seq<char>), Seq<char>>) -> Result<
    LicenseView,
    FailureView,
> {
    match spec_api_call(spec_license_path(id), fetched) {
        Err(f) => Err(f),
        Ok(body) => match spec_parse_json(body) {
            None => Err(FailureView::DecodeFailed),
            Some(j) => match spec_license(j) {
                None => Err(FailureView::DecodeFailed),
                Some(l) => Ok(l),
            },
        },
    }
}

/// What `all` returns, at the specification level.
pub open spec fn spec_all(fetched: Result<(u16, Seq<char>), Seq<char>>) -> Result<
    Seq<LicenseView>,
    FailureView,
> {
    match spec_api_call(spec_all_path(), fetched) {
        Err(f) => Err(f),
        Ok(body) => match spec_parse_json(body) {
            None => Err(FailureView::DecodeFailed),
            Some(j) => match spec_licenses(j) {
                None => Err(FailureView::DecodeFailed),
                Some(ls) => Ok(ls),
            },
        },
    }
}

/// What `tagged` returns, at the specification level.
pub open spec fn spec_tagged(keyword: Seq<char>, fetched: Result<(u16, Seq<char>), Seq<char>>) -> Result<
    Seq<LicenseView>,
    FailureView,
> {
    match spec_api_call(spec_tagged_path(keyword), fetched) {
        Err(f) => Err(f),
        Ok(body) => match spec_parse_json(body) {
            None => Err(FailureView::DecodeFailed),
            Some(j) => match spec_licenses(j) {
                None => Err(FailureView::DecodeFailed),
                Some(ls) => Ok(ls),
            },
        },
    }
}

/// What the body of a rejected request decodes to: an object whose `errors`
/// field is an array of objects, each carrying a string `message`.
pub open spec fn spec_error_messages(j: JsonView) -> Option<Seq<Seq<char>>> {
    match j {
        JsonView::Obj(fs) => match spec_arr_field(fs, "errors"@) {
            Some(a) => spec_message_list(a),
            None => None,
        },
        _ => None,
    }
}

/// Elementwise decoding of the `errors` array, all or nothing.
pub open spec fn spec_message_list(a: Seq<JsonView>) -> Option<Seq<Seq<char>>> {
    if forall|i: int| 0 <= i < a.len() ==> (#[trigger] spec_message(a[i])) is Some {
        Some(Seq::new(a.len(), |i: int| spec_message(a[i]).unwrap()))
    } else {
        None
    }
}

/// What one element of `errors` decodes to: its `message` text.
pub open spec fn spec_message(j: JsonView) -> Option<Seq<char>> {
    match j {
        JsonView::Obj(fs) => spec_str_field(fs, "message"@),
        _ => None,
    }
}

/// Decodes one element of `errors`.
fn decode_message(j: &Json) -> (r: Option<String>)
    ensures
        match r {
            Some(x) => spec_message(j.deep_view()) == Some(x@),
            None => spec_message(j.deep_view()) is None,
        },
{
    match j {
        Json::Obj(fields) => str_field(fields, &String::from_str("message")),
        _ => None,
    }
}

/// Decodes the body of a rejected request into the service's messages.
fn decode_messages(j: &Json) -> (r: Option<Vec<String>>)
    ensures
        match r {
            Some(v) => spec_error_messages(j.deep_view()) == Some(v.deep_view()),
            None => spec_error_messages(j.deep_view()) is None,
        },
{
    match j {
        Json::Obj(fields) => {
            match arr_field(fields, &String::from_str("errors")) {
                Some(items) => {
                    let ghost a = crate::json::arr_view(items@);
                    let mut out: Vec<String> = Vec::new();
                    let mut i: usize = 0;
                    while i < items.len()
                        invariant
                            0 <= i <= items@.len(),
                            a == crate::json::arr_view(items@),
                            a.len() == items@.len(),
                            j.deep_view() == JsonView::Obj(obj_view(fields@)),
                            spec_arr_field(obj_view(fields@), "errors"@) == Some(a),
                            out@.len() == i,
                            forall|k: int|
                                0 <= k < i ==> (#[trigger] spec_message(a[k])) is Some
                                    && out.deep_view()[k] == spec_message(a[k]).unwrap(),
                        decreases items@.len() - i,
                    {
                        match decode_message(&items[i]) {
                            Some(x) => out.push(x),
                            None => {
                                proof {
                                    assert(spec_message(a[i as int]) is None);
                                }
                                return None;
                            },
                        }
                        i += 1;
                    }
                    proof {
                        assert(out.deep_view() =~= Seq::new(
                            a.len(),
                            |k: int| spec_message(a[k]).unwrap(),
                        ));
                    }
                    Some(out)
                },
                None => None,
            }
        },
        _ => None,
    }
}

/// The shared pipeline up to the success body: resolves the path, requires
/// the transport to have succeeded, and branches on the status.
fn api_call(path: &String, fetched: Fetched) -> (r: Result<String, ClientError>)
    ensures
        match spec_api_call(path@, fetched_view(fetched)) {
            Ok(body) => r matches Ok(b) && b@ == body,
            Err(f) => r matches Err(e) && cause_matches(e.cause, f),
        },
{
    match join_url(BASE_URL, path.as_str()) {
        Err(m) => Err(ClientError { cause: ErrorCause::UrlResolutionFailed(m) }),
        Ok(_url) => match fetched {
            Err(m) => Err(ClientError { cause: ErrorCause::TransportFailed(m) }),
            Ok(resp) => {
                if resp.status == 200 {
                    Ok(resp.body)
                } else {
                    match parse_json(resp.body.as_str()) {
                        Err(m) => Err(ClientError { cause: ErrorCause::DecodeFailed(m) }),
                        Ok(j) => match decode_messages(&j) {
                            None => Err(
                                ClientError {
                                    cause: ErrorCause::DecodeFailed(
                                        String::from_str("response body is not the error shape"),
                                    ),
                                },
                            ),
                            Some(ms) => Err(ClientError { cause: ErrorCause::ApiRejected(ms) }),
                        },
                    }
                }
            },
        },
    }
}

/// The URL that `get` requests: `license/{id}` resolved against the base
/// URL, or the resolution failure.
pub fn get_url(id: &str) -> (r: Result<String, ClientError>)
    ensures
        match resolved_url(BASE_URL@, spec_license_path(id@)) {
            Some(u) => r matches Ok(s) && s@ == u,
            None => r matches Err(e) && e.cause is UrlResolutionFailed,
        },
{
    let path = license_path(id);
    match join_url(BASE_URL, path.as_str()) {
        Ok(u) => Ok(u),
        Err(m) => Err(ClientError { cause: ErrorCause::UrlResolutionFailed(m) }),
    }
}

/// The URL that `all` requests: `licenses/` resolved against the base URL.
pub fn all_url() -> (r: Result<String, ClientError>)
    ensures
        match resolved_url(BASE_URL@, spec_all_path()) {
            Some(u) => r matches Ok(s) && s@ == u,
            None => r matches Err(e) && e.cause is UrlResolutionFailed,
        },
{
    let path = all_path();
    match join_url(BASE_URL, path.as_str()) {
        Ok(u) => Ok(u),
        Err(m) => Err(ClientError { cause: ErrorCause::UrlResolutionFailed(m) }),
    }
}

/// The URL that `tagged` requests: `licenses/{keyword}` resolved against
/// the base URL.
pub fn tagged_url(keyword: &str) -> (r: Result<String, ClientError>)
    ensures
        match resolved_url(BASE_URL@, spec_tagged_path(keyword@)) {
            Some(u) => r matches Ok(s) && s@ == u,
            None => r matches Err(e) && e.cause is UrlResolutionFailed,
        },
{
    let path = tagged_path(keyword);
    match join_url(BASE_URL, path.as_str()) {
        Ok(u) => Ok(u),
        Err(m) => Err(ClientError { cause: ErrorCause::UrlResolutionFailed(m) }),
    }
}

/// Returns the license with the given `id`, out of the reply to a GET of
/// `get_url(id)`.
pub fn get(id: &str, fetched: Fetched) -> (r: Result<License, ClientError>)
    ensures
        match spec_get(id@, fetched_view(fetched)) {
            Ok(l) => r matches Ok(lic) && lic.deep_view() == l,
            Err(f) => r matches Err(e) && cause_matches(e.cause, f),
        },
{
    let path = license_path(id);
    match api_call(&path, fetched) {
        Err(e) => Err(e),
        Ok(body) => match parse_json(body.as_str()) {
            Err(m) => Err(ClientError { cause: ErrorCause::DecodeFailed(m) }),
            Ok(j) => match decode_license(&j) {
                None => Err(
                    ClientError {
                        cause: ErrorCause::DecodeFailed(
                            String::from_str("response body is not a license record"),
                        ),
                    },
                ),
                Some(l) => Ok(l),
            },
        },
    }
}

/// Returns every license the service knows, out of the reply to a GET of
/// `all_url()`.
pub fn all(fetched: Fetched) -> (r: Result<Vec<License>, ClientError>)
    ensures
        match spec_all(fetched_view(fetched)) {
            Ok(ls) => r matches Ok(v) && v.deep_view() == ls,
            Err(f) => r matches Err(e) && cause_matches(e.cause, f),
        },
{
    let path = all_path();
    match api_call(&path, fetched) {
        Err(e) => Err(e),
        Ok(body) => match parse_json(body.as_str()) {
            Err(m) => Err(ClientError { cause: ErrorCause::DecodeFailed(m) }),
            Ok(j) => match decode_licenses(&j) {
                None => Err(
                    ClientError {
                        cause: ErrorCause::DecodeFailed(
                            String::from_str("response body is not a license list"),
                        ),
                    },
                ),
                Some(ls) => Ok(ls),
            },
        },
    }
}

/// Returns the licenses tagged with `keyword`, out of the reply to a GET of
/// `tagged_url(keyword)`.
pub fn tagged(keyword: &str, fetched: Fetched) -> (r: Result<Vec<License>, ClientError>)
    ensures
        match spec_tagged(keyword@, fetched_view(fetched)) {
            Ok(ls) => r matches Ok(v) && v.deep_view() == ls,
            Err(f) => r matches Err(e) && cause_matches(e.cause, f),
        },
{
    let path = tagged_path(keyword);
    match api_call(&path, fetched) {
        Err(e) => Err(e),
        Ok(body) => match parse_json(body.as_str()) {
            Err(m) => Err(ClientError { cause: ErrorCause::DecodeFailed(m) }),
            Ok(j) => match decode_licenses(&j) {
                None => Err(
                    ClientError {
                        cause: ErrorCause::DecodeFailed(
                            String::from_str("response body is not a license list"),
                        ),
                    },
                ),
                Some(ls) => Ok(ls),
            },
        },
    }
}

/// A failed network exchange yields `TransportFailed` — never `DecodeFailed`
/// or `ApiRejected` — on each of the three operations, whenever the request
/// URL itself resolves; and the failure carries the transport's message.
pub proof fn lemma_transport_failure(id: Seq<char>, keyword: Seq<char>, m: Seq<char>)
    ensures
        resolved_url(BASE_URL@, spec_license_path(id)) is Some ==> spec_get(id, Err(m)) == Err::<
            LicenseView,
            FailureView,
        >(FailureView::TransportFailed(m)),
        resolved_url(BASE_URL@, spec_all_path()) is Some ==> spec_all(Err(m)) == Err::<
            Seq<LicenseView>,
            FailureView,
        >(FailureView::TransportFailed(m)),
        resolved_url(BASE_URL@, spec_tagged_path(keyword)) is Some ==> spec_tagged(keyword, Err(m))
            == Err::<Seq<LicenseView>, FailureView>(FailureView::TransportFailed(m)),
{
}

/// A body that is not valid JSON yields `DecodeFailed` on a success status —
/// never a silently empty or defaulted value — on each of the three
/// operations, whenever the request URL resolves.
pub proof fn lemma_malformed_body(id: Seq<char>, keyword: Seq<char>, body: Seq<char>)
    requires
        spec_parse_json(body) is None,
    ensures
        resolved_url(BASE_URL@, spec_license_path(id)) is Some ==> spec_get(id, Ok((200, body)))
            == Err::<LicenseView, FailureView>(FailureView::DecodeFailed),
        resolved_url(BASE_URL@, spec_all_path()) is Some ==> spec_all(Ok((200, body))) == Err::<
            Seq<LicenseView>,
            FailureView,
        >(FailureView::DecodeFailed),
        resolved_url(BASE_URL@, spec_tagged_path(keyword)) is Some ==> spec_tagged(
            keyword,
            Ok((200, body)),
        ) == Err::<Seq<LicenseView>, FailureView>(FailureView::DecodeFailed),
{
}

/// A rejected request — any non-success status whose body decodes as the
/// service's error shape — yields `ApiRejected` carrying exactly the
/// service-reported messages, not a panic and not `DecodeFailed`.
pub proof fn lemma_api_rejected(
    id: Seq<char>,
    status: u16,
    body: Seq<char>,
    j: JsonView,
    ms: Seq<Seq<char>>,
)
    requires
        resolved_url(BASE_URL@, spec_license_path(id)) is Some,
        status != 200,
        spec_parse_json(body) == Some(j),
        spec_error_messages(j) == Some(ms),
    ensures
        spec_get(id, Ok((status, body))) == Err::<LicenseView, FailureView>(
            FailureView::ApiRejected(ms),
        ),
{
}

/// The description of an `ApiRejected` failure is non-empty whenever the
/// service reported at least one non-empty message.
pub proof fn lemma_rejected_description_nonempty(c: ErrorCause, ms: Seq<Seq<char>>)
    requires
        cause_matches(c, FailureView::ApiRejected(ms)),
        ms.len() > 0,
        ms[0].len() > 0,
    ensures
        spec_describe(c).len() > 0,
{
}

/// `get` hands back the license record the service answered with: on a
/// success status whose body decodes to a record carrying the requested
/// identifier, the result is that record, its `id` the one asked for.
pub proof fn lemma_get_returns_requested(
    id: Seq<char>,
    body: Seq<char>,
    j: JsonView,
    l: LicenseView,
)
    requires
        resolved_url(BASE_URL@, spec_license_path(id)) is Some,
        spec_parse_json(body) == Some(j),
        spec_license(j) == Some(l),
        l.id == id,
    ensures
        spec_get(id, Ok((200, body))) == Ok::<LicenseView, FailureView>(l),
        spec_get(id, Ok((200, body))) matches Ok(out) && out.id == id,
{
}

/// `all` hands back one record per element of the service's list: the
/// result's length is exactly the length of the array the body holds.
pub proof fn lemma_all_length(body: Seq<char>, a: Seq<JsonView>, ls: Seq<LicenseView>)
    requires
        resolved_url(BASE_URL@, spec_all_path()) is Some,
        spec_parse_json(body) == Some(JsonView::Arr(a)),
        spec_licenses(JsonView::Arr(a)) == Some(ls),
    ensures
        spec_all(Ok((200, body))) == Ok::<Seq<LicenseView>, FailureView>(ls),
        ls.len() == a.len(),
{
}

/// `tagged` only hands back licenses tagged with the keyword, as far as the
/// service honours that contract: when every record in the reply carries the
/// keyword, so does every record of the result — and the reply is returned
/// unchanged, never filtered or reordered.
pub proof fn lemma_tagged_membership(
    keyword: Seq<char>,
    body: Seq<char>,
    j: JsonView,
    ls: Seq<LicenseView>,
)
    requires
        resolved_url(BASE_URL@, spec_tagged_path(keyword)) is Some,
        spec_parse_json(body) == Some(j),
        spec_licenses(j) == Some(ls),
        forall|i: int| 0 <= i < ls.len() ==> (#[trigger] ls[i].keywords).contains(keyword),
    ensures
        spec_tagged(keyword, Ok((200, body))) == Ok::<Seq<LicenseView>, FailureView>(ls),
        spec_tagged(keyword, Ok((200, body))) matches Ok(out) ==> forall|i: int|
            0 <= i < out.len() ==> (#[trigger] out[i].keywords).contains(keyword),
{
}

/// A keyword that matches nothing yields the empty sequence, not an error:
/// a success reply whose body is the empty JSON array decodes to no records.
pub proof fn lemma_tagged_empty(keyword: Seq<char>, body: Seq<char>)
    requires
        resolved_url(BASE_URL@, spec_tagged_path(keyword)) is Some,
        spec_parse_json(body) == Some(JsonView::Arr(Seq::empty())),
    ensures
        spec_tagged(keyword, Ok((200, body))) == Ok::<Seq<LicenseView>, FailureView>(
            Seq::empty(),
        ),
{
    assert(Seq::new(0, |i: int| spec_license(Seq::<JsonView>::empty()[i]).unwrap())
        =~= Seq::<LicenseView>::empty());
}

impl ClientError {
    /// The root cause of the failure.
    pub fn cause(&self) -> (r: &ErrorCause)
        ensures
            r == &self.cause,
    {
        &self.cause
    }

    /// A human-readable description of the failure: the wrapped message, or
    /// the service-reported messages joined into one line.
    pub fn describe(&self) -> (r: String)
        ensures
            r@ == spec_describe(self.cause),
    {
        match &self.cause {
            ErrorCause::UrlResolutionFailed(m) => m.clone(),
            ErrorCause::TransportFailed(m) => m.clone(),
            ErrorCause::DecodeFailed(m) => m.clone(),
            ErrorCause::ApiRejected(ms) => join_messages(ms),
        }
    }
}

} // verus!

