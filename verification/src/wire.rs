//! Messages as text: the request that is written for a method, and what a
//! frame from the server says. The JSON itself is written and read by
//! `serde_json`, over the message types of `smol_jsonrpc` and the events of
//! `ssp`.

use crate::error::{Error, ErrorView};
use crate::frame::payloads;
use crate::method::{encode, wire_name, Method};
use crate::text::{contains_text, text_contains};
use vstd::prelude::*;
use vstd::slice::slice_to_vec;
use vstd::string::*;
use vstd::utf8::{decode_utf8, valid_utf8};

verus! {

/// The protocol version that a request to enable the device asks for.
pub const ENABLE_PROTOCOL: u8 = 8;

/// Where a message of the server belongs.
#[derive(Clone, Copy, Debug, PartialEq, Eq, Structural)]
pub enum Origin {
    /// The server's answer to a request.
    Reply,
    /// A message that the server sent unasked.
    Notification,
}

/// A decoded message of the server.
#[derive(Clone, Debug, PartialEq, Eq)]
pub struct Response {
    pub origin: Origin,
    pub text: String,
}

/// A `Response` as contracts see it.
pub struct ResponseView {
    pub origin: Origin,
    pub text: Seq<char>,
}

impl View for Response {
    type V = ResponseView;

    open spec fn view(&self) -> ResponseView {
        ResponseView { origin: self.origin, text: self.text@ }
    }
}

/// The JSON text of the request that carries the given id and the given
/// method name, with the parameters that `ssp` gives the method of that name
/// by default; `None` where `serde_json` does not write it.
pub uninterp spec fn request_json(id: u64, method: Seq<char>) -> Option<Seq<char>>;

/// The JSON text of the request that carries the given id and the given
/// method name, with the parameters that enable the device under the given
/// protocol version; `None` where `serde_json` does not write it.
pub uninterp spec fn enable_request_json(id: u64, method: Seq<char>, protocol: u8) -> Option<
    Seq<char>,
>;

/// What a frame read as an answer says: the text of the event it carries, or
/// the message of the failure where it is no well-formed answer or carries
/// an error.
pub uninterp spec fn reply_json(frame: Seq<char>) -> Result<Seq<char>, Seq<char>>;

/// What a frame read as a notification says: the text of the event it
/// carries, or the message of the failure where it is no well-formed
/// notification or carries an error.
pub uninterp spec fn notification_json(frame: Seq<char>) -> Result<Seq<char>, Seq<char>>;

/// An optional text as contracts see it.
pub open spec fn text_view(text: Option<String>) -> Option<Seq<char>> {
    match text {
        Some(t) => Some(t@),
        None => None,
    }
}

/// A decoded text, or a failure's message, as contracts see them.
pub open spec fn decoded_view(decoded: Result<String, String>) -> Result<Seq<char>, Seq<char>> {
    match decoded {
        Ok(t) => Ok(t@),
        Err(m) => Err(m@),
    }
}

/// `name` is the wire name of a method.
pub open spec fn is_wire_name(name: Seq<char>) -> bool {
    exists|m: Method| #[trigger] wire_name(m) == name
}

/// Takes the event that `ssp` holds for a method name (`Event::from` of
/// `Method::from`), turns it into a `smol_jsonrpc::Request`, sets the
/// request's id and method fields to the arguments, and has
/// `serde_json::to_string` write it. The contract gives the text the name
/// `request_json`: it depends on the id and the method name alone. Only the
/// wire names of this library are handed in.
#[verifier::external_body]
fn request_text(id: u64, method: &str) -> (text: Option<String>)
    requires
        is_wire_name(method@),
    ensures
        text_view(text) == request_json(id, method@),
{
    let event = ssp::Event::from(ssp::Method::from(method));
    let request = smol_jsonrpc::Request::from(event).with_id(id).with_method(method);
    serde_json::to_string(&request).ok()
}

/// Takes the `ssp::EnableEvent` for a protocol version, turns it into a
/// `smol_jsonrpc::Request`, sets the request's id and method fields to the
/// arguments, and has `serde_json::to_string` write it. The contract gives
/// the text the name `enable_request_json`: it depends on the id, the method
/// name and the version alone.
#[verifier::external_body]
fn enable_request_text(id: u64, method: &str, protocol: u8) -> (text: Option<String>)
    ensures
        text_view(text) == enable_request_json(id, method@, protocol),
{
    let version = ssp::ProtocolVersion::from_u8(protocol);
    let event = ssp::Event::from(ssp::EnableEvent::from(version));
    let request = smol_jsonrpc::Request::from(event).with_id(id).with_method(method);
    serde_json::to_string(&request).ok()
}

/// Has `serde_json::from_str` read the frame as a `smol_jsonrpc::Response`
/// and `ssp` turn that into an event. The result is the event as `ssp`
/// displays it, or, as a failure, the parser's message or the error that the
/// event carries. The contract gives the result the name `reply_json`: it
/// depends on the frame alone.
#[verifier::external_body]
fn reply_text(frame: &str) -> (decoded: Result<String, String>)
    ensures
        decoded_view(decoded) == reply_json(frame@),
{
    match serde_json::from_str::<smol_jsonrpc::Response>(frame) {
        Ok(response) => {
            let event = ssp::Event::from(response);
            match event.payload() {
                ssp::EventPayload::Error(err) => Err(format!("{err}")),
                _ => Ok(format!("{event}")),
            }
        },
        Err(err) => Err(format!("{err}")),
    }
}

/// Has `serde_json::from_str` read the frame as a `smol_jsonrpc::Request`
/// and `ssp` turn that into an event. The result is the event as `ssp`
/// displays it, or, as a failure, the parser's message or the error that the
/// event carries. The contract gives the result the name
/// `notification_json`: it depends on the frame alone.
#[verifier::external_body]
fn notification_text(frame: &str) -> (decoded: Result<String, String>)
    ensures
        decoded_view(decoded) == notification_json(frame@),
{
    match serde_json::from_str::<smol_jsonrpc::Request>(frame) {
        Ok(request) => {
            let event = ssp::Event::from(request);
            match event.payload() {
                ssp::EventPayload::Error(err) => Err(format!("{err}")),
                _ => Ok(format!("{event}")),
            }
        },
        Err(err) => Err(format!("{err}")),
    }
}

/// Calls `String::from_utf8`, which gives the text that the bytes encode
/// where they are well-formed UTF-8, and fails otherwise.
#[verifier::external_body]
fn utf8_text(bytes: Vec<u8>) -> (text: Option<String>)
    ensures
        text is Some <==> valid_utf8(bytes@),
        text matches Some(t) ==> t@ == decode_utf8(bytes@),
{
    String::from_utf8(bytes).ok()
}

/// The text of the request with the given id for the method `m`, as the
/// outside crates write it: its method field is the wire name of `m`. The
/// device is enabled under `ENABLE_PROTOCOL`; every other method travels
/// with its default parameters.
pub open spec fn request_for(id: u64, m: Method) -> Option<Seq<char>> {
    if m == Method::Enable {
        enable_request_json(id, wire_name(m), ENABLE_PROTOCOL)
    } else {
        request_json(id, wire_name(m))
    }
}

/// A request text that was written is the request; one that was not is a
/// protocol failure.
pub open spec fn request_of(text: Option<Seq<char>>) -> Result<Seq<char>, ErrorView> {
    match text {
        Some(t) => Ok(t),
        None => Err(ErrorView::JsonRpc("request could not be encoded"@)),
    }
}

/// A request text, or the failure to write one, as contracts see them.
pub open spec fn request_view(request: Result<String, Error>) -> Result<Seq<char>, ErrorView> {
    match request {
        Ok(t) => Ok(t@),
        Err(e) => Err(e@),
    }
}

/// The request that a written text makes, or the failure where none was
/// written.
pub fn request_from(text: Option<String>) -> (request: Result<String, Error>)
    ensures
        request_view(request) == request_of(text_view(text)),
{
    match text {
        Some(t) => Ok(t),
        None => Err(Error::JsonRpc(String::from_str("request could not be encoded"))),
    }
}

/// The text of the request with the given id for the method `m`.
pub fn encode_request(id: u64, m: Method) -> (request: Result<String, Error>)
    ensures
        request_view(request) == request_of(request_for(id, m)),
{
    let name = encode(m);
    match m {
        Method::Enable => request_from(enable_request_text(id, name, ENABLE_PROTOCOL)),
        _ => {
            request_from(request_text(id, name))
        },
    }
}

/// A frame that holds the word `params` is a notification; any other frame
/// is an answer.
pub open spec fn origin_of(frame: Seq<char>) -> Origin {
    if contains_text(frame, "params"@) {
        Origin::Notification
    } else {
        Origin::Reply
    }
}

/// A decoded text is a response of the given origin; a failure's message is
/// a protocol failure.
pub open spec fn response_of(origin: Origin, decoded: Result<Seq<char>, Seq<char>>) -> Result<
    ResponseView,
    ErrorView,
> {
    match decoded {
        Ok(text) => Ok(ResponseView { origin, text }),
        Err(message) => Err(ErrorView::JsonRpc(message)),
    }
}

/// What the text of a frame says, read as what its origin asks for.
pub open spec fn decoded_text(frame: Seq<char>) -> Result<ResponseView, ErrorView> {
    match origin_of(frame) {
        Origin::Notification => response_of(Origin::Notification, notification_json(frame)),
        Origin::Reply => response_of(Origin::Reply, reply_json(frame)),
    }
}

/// What a frame says: a frame that is not well-formed UTF-8 is a protocol
/// failure, any other frame says what its text says.
pub open spec fn decoded_frame(frame: Seq<u8>) -> Result<ResponseView, ErrorView> {
    if valid_utf8(frame) {
        decoded_text(decode_utf8(frame))
    } else {
        Err(ErrorView::JsonRpc("frame is not valid UTF-8"@))
    }
}

/// A response, or a failure, as contracts see them.
pub open spec fn response_view(response: Result<Response, Error>) -> Result<
    ResponseView,
    ErrorView,
> {
    match response {
        Ok(r) => Ok(r@),
        Err(e) => Err(e@),
    }
}

/// The response of the given origin that a decoded text makes, or the
/// protocol failure that a failure's message makes.
pub fn response_from(origin: Origin, decoded: Result<String, String>) -> (response: Result<
    Response,
    Error,
>)
    ensures
        response_view(response) == response_of(origin, decoded_view(decoded)),
{
    match decoded {
        Ok(text) => Ok(Response { origin, text }),
        Err(message) => Err(Error::JsonRpc(message)),
    }
}

/// What the frame says.
pub fn decode_frame(frame: &[u8]) -> (response: Result<Response, Error>)
    ensures
        response_view(response) == decoded_frame(frame@),
{
    match utf8_text(slice_to_vec(frame)) {
        None => Err(Error::JsonRpc(String::from_str("frame is not valid UTF-8"))),
        Some(text) => {
            if text_contains(text.as_str(), "params") {
                response_from(Origin::Notification, notification_text(text.as_str()))
            } else {
                response_from(Origin::Reply, reply_text(text.as_str()))
            }
        },
    }
}

/// What the messages of one exchange come to: all of them, in their order,
/// where each is a response; the first failure among them otherwise.
pub open spec fn gathered(results: Seq<Result<ResponseView, ErrorView>>) -> Result<
    Seq<ResponseView>,
    ErrorView,
>
    decreases results.len(),
{
    if results.len() == 0 {
        Ok(Seq::empty())
    } else {
        match gathered(results.drop_last()) {
            Err(e) => Err(e),
            Ok(before) => match results.last() {
                Ok(r) => Ok(before.push(r)),
                Err(e) => Err(e),
            },
        }
    }
}

/// Responses as contracts see them.
pub open spec fn responses_view(responses: Seq<Response>) -> Seq<ResponseView> {
    responses.map_values(|r: Response| r@)
}

/// Responses, or a failure, as contracts see them.
pub open spec fn exchange_view(outcome: Result<Vec<Response>, Error>) -> Result<
    Seq<ResponseView>,
    ErrorView,
> {
    match outcome {
        Ok(responses) => Ok(responses_view(responses@)),
        Err(e) => Err(e@),
    }
}

/// Decoded messages as contracts see them.
pub open spec fn results_view(results: Seq<Result<Response, Error>>) -> Seq<
    Result<ResponseView, ErrorView>,
> {
    results.map_values(|r: Result<Response, Error>| response_view(r))
}

/// What each of the frames says.
pub open spec fn decoded_frames(frames: Seq<Seq<u8>>) -> Seq<Result<ResponseView, ErrorView>> {
    frames.map_values(|frame: Seq<u8>| decoded_frame(frame))
}

/// Where every message is a response, gathering gives them all, each in its
/// place; and only then does gathering succeed.
pub proof fn lemma_gathered_all(results: Seq<Result<ResponseView, ErrorView>>)
    ensures
        gathered(results) is Ok <==> forall|i: int|
            0 <= i < results.len() ==> (#[trigger] results[i]) is Ok,
        gathered(results) matches Ok(all) ==> all.len() == results.len() && forall|i: int|
            0 <= i < results.len() ==> #[trigger] results[i] == Ok::<ResponseView, ErrorView>(
                all[i],
            ),
    decreases results.len(),
{
    if results.len() > 0 {
        let before = results.drop_last();
        lemma_gathered_all(before);
        assert forall|i: int| 0 <= i < before.len() implies before[i] == results[i] by {}
    }
}

/// Where gathering fails, it fails with the first failure among the
/// messages.
pub proof fn lemma_gathered_first_failure(
    results: Seq<Result<ResponseView, ErrorView>>,
    error: ErrorView,
)
    requires
        gathered(results) == Err::<Seq<ResponseView>, ErrorView>(error),
    ensures
        exists|k: int|
            0 <= k < results.len() && #[trigger] results[k] == Err::<ResponseView, ErrorView>(error)
                && forall|j: int| 0 <= j < k ==> (#[trigger] results[j]) is Ok,
    decreases results.len(),
{
    let before = results.drop_last();
    if gathered(before) is Err {
        lemma_gathered_first_failure(before, error);
        let k = choose|k: int|
            0 <= k < before.len() && #[trigger] before[k] == Err::<ResponseView, ErrorView>(error)
                && forall|j: int| 0 <= j < k ==> (#[trigger] before[j]) is Ok;
        assert forall|j: int| 0 <= j < k implies (#[trigger] results[j]) is Ok by {
            assert(before[j] is Ok);
        }
    } else {
        lemma_gathered_all(before);
        let k = results.len() - 1;
        assert forall|j: int| 0 <= j < k implies (#[trigger] results[j]) is Ok by {
            assert(before[j] is Ok);
        }
    }
}

/// A failure after a run of responses decides the outcome, whatever
/// follows it.
proof fn lemma_gathered_fails_at(results: Seq<Result<ResponseView, ErrorView>>, at: int)
    requires
        0 <= at < results.len(),
        gathered(results.take(at)) is Ok,
        results[at] is Err,
    ensures
        gathered(results) == Err::<Seq<ResponseView>, ErrorView>(results[at]->Err_0),
    decreases results.len(),
{
    if at < results.len() - 1 {
        let before = results.drop_last();
        assert(before.take(at) == results.take(at));
        lemma_gathered_fails_at(before, at);
    }
}

/// All the decoded messages, in their order, where each is a response; the
/// first failure among them otherwise.
pub fn gather(results: Vec<Result<Response, Error>>) -> (outcome: Result<Vec<Response>, Error>)
    ensures
        exchange_view(outcome) == gathered(results_view(results@)),
{
    let ghost views = results_view(results@);
    let mut all: Vec<Response> = Vec::new();
    assert(responses_view(all@) == Seq::<ResponseView>::empty());
    for result in it: results.into_iter()
        invariant
            it.seq() == results@,
            views == results_view(results@),
            gathered(views.take(it.index() as int)) == Ok::<Seq<ResponseView>, ErrorView>(
                responses_view(all@),
            ),
    {
        let ghost at = it.index() as int;
        match result {
            Ok(response) => {
                let ghost before = responses_view(all@);
                all.push(response);
                proof {
                    assert(views.take(at + 1).drop_last() == views.take(at));
                    assert(responses_view(all@) == before.push(response@));
                }
            },
            Err(error) => {
                proof {
                    lemma_gathered_fails_at(views, at);
                }
                return Err(error);
            },
        }
    }
    assert(views.take(views.len() as int) == views);
    Ok(all)
}

/// What the frames of one exchange say: every response, in the order of the
/// frames, or the failure of the first frame that fails.
pub fn decode_frames(frames: &Vec<Vec<u8>>) -> (outcome: Result<Vec<Response>, Error>)
    ensures
        exchange_view(outcome) == gathered(decoded_frames(payloads(frames@))),
{
    let ghost all = decoded_frames(payloads(frames@));
    let mut results: Vec<Result<Response, Error>> = Vec::new();
    let mut i: usize = 0;
    while i < frames.len()
        invariant
            i <= frames.len(),
            all == decoded_frames(payloads(frames@)),
            results_view(results@) == all.take(i as int),
        decreases frames.len() - i,
    {
        let decoded = decode_frame(frames[i].as_slice());
        results.push(decoded);
        assert(all.take(i + 1) == all.take(i as int).push(decoded_frame(frames@[i as int]@)));
        i += 1;
    }
    assert(all.take(i as int) == all);
    gather(results)
}

} // verus!
