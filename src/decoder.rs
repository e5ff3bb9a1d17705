//! Event decoding: turning a frame's data into a typed event while reconciling
//! the SSE `event:` name with the payload's own `type` tag.

use vstd::prelude::*;
use crate::frame::{FrameView, SseFrame};
use crate::text::{same_text, starts_with_text};

verus! {

/// `serde_json::Error`, carried opaquely inside `StreamingError::Json`.
#[verifier::external_type_specification]
#[verifier::external_body]
pub struct ExJsonError(serde_json::Error);

/// Errors of one event stream. Each of them ends the stream.
#[derive(Debug)]
pub enum StreamingError {
    /// The response did not declare an event-stream media type.
    UnexpectedContentType { got: Option<String> },
    /// The unparsed tail of the stream grew past the size bound.
    EventTooLarge { limit_bytes: usize },
    /// The SSE `event:` name and the payload's `type` disagree.
    TypeMismatch { event: String, ty: String },
    /// The payload did not decode; `payload` is the frame's data as it came.
    Json { source: serde_json::Error, payload: String },
}

/// A `StreamingError` with its texts seen as character sequences.
pub enum ErrorView {
    UnexpectedContentType { got: Option<Seq<char>> },
    EventTooLarge { limit_bytes: usize },
    TypeMismatch { event: Seq<char>, ty: Seq<char> },
    Json { source: serde_json::Error, payload: Seq<char> },
}

/// An optional text seen as an optional character sequence.
pub open spec fn opt_text_view(s: Option<String>) -> Option<Seq<char>> {
    match s {
        Some(t) => Some(t@),
        None => None,
    }
}

impl View for StreamingError {
    type V = ErrorView;

    open spec fn view(&self) -> ErrorView {
        match self {
            StreamingError::UnexpectedContentType { got } => ErrorView::UnexpectedContentType {
                got: opt_text_view(*got),
            },
            StreamingError::EventTooLarge { limit_bytes } => ErrorView::EventTooLarge {
                limit_bytes: *limit_bytes,
            },
            StreamingError::TypeMismatch { event, ty } => ErrorView::TypeMismatch {
                event: event@,
                ty: ty@,
            },
            StreamingError::Json { source, payload } => ErrorView::Json {
                source: *source,
                payload: payload@,
            },
        }
    }
}

/// A result with its error seen through `ErrorView`.
pub open spec fn result_view<T>(r: Result<T, StreamingError>) -> Result<T, ErrorView> {
    match r {
        Ok(v) => Ok(v),
        Err(e) => Err(e@),
    }
}

/// The media type that an event stream declares.
pub open spec fn event_stream_type() -> Seq<char> {
    "text/event-stream"@
}

/// Checks the declared content type of a response before any byte is read:
/// it must begin with `text/event-stream`.
pub fn validate_content_type(content_type: Option<&str>) -> (r: Result<(), StreamingError>)
    ensures
        match content_type {
            Some(ct) => {
                let p = event_stream_type();
                p.len() <= ct@.len() && ct@.subrange(0, p.len() as int) == p
            },
            None => false,
        } <==> r is Ok,
        r matches Err(e) ==> e@ == (ErrorView::UnexpectedContentType {
            got: match content_type {
                Some(ct) => Some(ct@),
                None => None,
            },
        }),
{
    match content_type {
        Some(ct) => {
            if starts_with_text(ct, "text/event-stream") {
                Ok(())
            } else {
                Err(StreamingError::UnexpectedContentType { got: Some(ct.to_owned()) })
            }
        },
        None => Err(StreamingError::UnexpectedContentType { got: None }),
    }
}

/// The type strings of the events that this library knows by name.
pub open spec fn known_event_type(ty: Seq<char>) -> bool {
    ||| ty == "response.created"@
    ||| ty == "response.queued"@
    ||| ty == "response.in_progress"@
    ||| ty == "response.completed"@
    ||| ty == "response.failed"@
    ||| ty == "response.incomplete"@
    ||| ty == "response.output_item.added"@
    ||| ty == "response.output_item.done"@
    ||| ty == "response.content_part.added"@
    ||| ty == "response.content_part.done"@
    ||| ty == "response.output_text.delta"@
    ||| ty == "response.output_text.done"@
    ||| ty == "response.reasoning_summary_part.added"@
    ||| ty == "response.reasoning_summary_part.done"@
    ||| ty == "response.refusal.delta"@
    ||| ty == "response.refusal.done"@
    ||| ty == "response.reasoning.delta"@
    ||| ty == "response.reasoning.done"@
    ||| ty == "response.reasoning_summary_text.delta"@
    ||| ty == "response.reasoning_summary_text.done"@
    ||| ty == "response.output_text.annotation.added"@
    ||| ty == "response.function_call_arguments.delta"@
    ||| ty == "response.function_call_arguments.done"@
    ||| ty == "error"@
}

/// Whether `ty` is the type string of an event that this library knows by name.
pub fn is_known_event_type(ty: &str) -> (r: bool)
    ensures
        r == known_event_type(ty@),
{
    same_text(ty, "response.created") || same_text(ty, "response.queued") || same_text(
        ty,
        "response.in_progress",
    ) || same_text(ty, "response.completed") || same_text(ty, "response.failed") || same_text(
        ty,
        "response.incomplete",
    ) || same_text(ty, "response.output_item.added") || same_text(
        ty,
        "response.output_item.done",
    ) || same_text(ty, "response.content_part.added") || same_text(
        ty,
        "response.content_part.done",
    ) || same_text(ty, "response.output_text.delta") || same_text(
        ty,
        "response.output_text.done",
    ) || same_text(ty, "response.reasoning_summary_part.added") || same_text(
        ty,
        "response.reasoning_summary_part.done",
    ) || same_text(ty, "response.refusal.delta") || same_text(ty, "response.refusal.done")
        || same_text(ty, "response.reasoning.delta") || same_text(ty, "response.reasoning.done")
        || same_text(ty, "response.reasoning_summary_text.delta") || same_text(
        ty,
        "response.reasoning_summary_text.done",
    ) || same_text(ty, "response.output_text.annotation.added") || same_text(
        ty,
        "response.function_call_arguments.delta",
    ) || same_text(ty, "response.function_call_arguments.done") || same_text(ty, "error")
}

/// What a payload whose decode as a known event failed becomes: for a known
/// type string the failure stands; for any other the payload is taken as an
/// event of an unknown type, through `unknown`.
pub fn unknown_fallback<U, E>(known_failure: E, ty: &str, unknown: Result<U, E>) -> (r: Result<U, E>)
    ensures
        known_event_type(ty@) ==> r == Err::<U, E>(known_failure),
        !known_event_type(ty@) ==> r == unknown,
{
    if is_known_event_type(ty) {
        Err(known_failure)
    } else {
        unknown
    }
}

/// What a JSON text holds under one key of its top-level object.
pub enum Member {
    /// The text is not JSON, or not an object.
    NotObject,
    /// The object has no such key.
    Absent,
    /// The key holds a string.
    Text(String),
    /// The key holds something other than a string.
    NotText,
}

/// A `Member` with its string seen as a character sequence.
pub enum MemberView {
    NotObject,
    Absent,
    Text(Seq<char>),
    NotText,
}

impl View for Member {
    type V = MemberView;

    open spec fn view(&self) -> MemberView {
        match self {
            Member::NotObject => MemberView::NotObject,
            Member::Absent => MemberView::Absent,
            Member::Text(s) => MemberView::Text(s@),
            Member::NotText => MemberView::NotText,
        }
    }
}

/// What serde_json finds in `json` under `key`.
pub uninterp spec fn object_member(json: Seq<char>, key: Seq<char>) -> MemberView;

/// Relies on `serde_json::from_str` into a `serde_json::Value` and on
/// `serde_json::Map::get`: which member, if any, the parsed object holds under `key`.
#[verifier::external_body]
fn json_member(json: &str, key: &str) -> (r: Member)
    ensures
        r@ == object_member(json@, key@),
{
    match serde_json::from_str::<serde_json::Value>(json) {
        Ok(serde_json::Value::Object(map)) => match map.get(key) {
            None => Member::Absent,
            Some(serde_json::Value::String(s)) => Member::Text(s.clone()),
            Some(_) => Member::NotText,
        },
        _ => Member::NotObject,
    }
}

/// The JSON text that serde_json writes for the object of `json` with `key` set
/// to the string `value`; none where `json` is not an object.
pub uninterp spec fn with_text_member(json: Seq<char>, key: Seq<char>, value: Seq<char>) -> Option<
    Seq<char>,
>;

/// Relies on `serde_json::from_str`, `serde_json::Map::insert` and
/// `serde_json::to_string`: the object of `json` with `key` set to the string `value`.
#[verifier::external_body]
fn insert_text_member(json: &str, key: &str, value: &str) -> (r: Option<String>)
    ensures
        opt_text_view(r) == with_text_member(json@, key@, value@),
{
    match serde_json::from_str::<serde_json::Value>(json) {
        Ok(serde_json::Value::Object(mut map)) => {
            map.insert(key.to_owned(), serde_json::Value::String(value.to_owned()));
            serde_json::to_string(&serde_json::Value::Object(map)).ok()
        },
        _ => None,
    }
}

/// The key under which a payload names its own event type.
pub open spec fn type_key() -> Seq<char> {
    "type"@
}

/// The data that marks the end of the stream.
pub open spec fn done_marker() -> Seq<char> {
    "[DONE]"@
}

/// A payload that decoded: it stands unless the frame named an event and the
/// payload's `type` is a different string.
pub open spec fn accepted<T>(event: Option<Seq<char>>, member: MemberView, decoded: T) -> Result<
    T,
    ErrorView,
> {
    match (event, member) {
        (Some(name), MemberView::Text(ty)) => if name != ty {
            Err(ErrorView::TypeMismatch { event: name, ty })
        } else {
            Ok(decoded)
        },
        _ => Ok(decoded),
    }
}

/// Settles a payload that the event decoder accepted.
pub fn accept_decoded<T>(event: Option<String>, member: Member, decoded: T) -> (r: Result<
    T,
    StreamingError,
>)
    ensures
        result_view(r) == accepted(opt_text_view(event), member@, decoded),
{
    match (event, member) {
        (Some(name), Member::Text(ty)) => {
            if name != ty {
                Err(StreamingError::TypeMismatch { event: name, ty })
            } else {
                Ok(decoded)
            }
        },
        _ => Ok(decoded),
    }
}

/// What follows a payload that the event decoder refused.
pub enum Recovery {
    /// Retry with the payload's `type` set to this event name; the failure
    /// stands if the payload cannot take it.
    Inject(String, serde_json::Error),
    /// Give up with this error.
    Fail(StreamingError),
}

/// A `Recovery` with its texts seen as character sequences.
pub enum RecoveryView {
    Inject(Seq<char>, serde_json::Error),
    Fail(ErrorView),
}

impl View for Recovery {
    type V = RecoveryView;

    open spec fn view(&self) -> RecoveryView {
        match self {
            Recovery::Inject(name, failure) => RecoveryView::Inject(name@, *failure),
            Recovery::Fail(e) => RecoveryView::Fail(e@),
        }
    }
}

/// A refused payload: with an event name and an object without `type`, the
/// name is injected as the type; with a `type` string other than the name, the
/// two disagree; in every other case the decode failure stands.
pub open spec fn recovery(
    event: Option<Seq<char>>,
    data: Seq<char>,
    member: MemberView,
    failure: serde_json::Error,
) -> RecoveryView {
    let failed = RecoveryView::Fail(ErrorView::Json { source: failure, payload: data });
    match event {
        None => failed,
        Some(name) => match member {
            MemberView::Absent => RecoveryView::Inject(name, failure),
            MemberView::Text(ty) => if ty != name {
                RecoveryView::Fail(ErrorView::TypeMismatch { event: name, ty })
            } else {
                failed
            },
            _ => failed,
        },
    }
}

/// Decides what follows a payload that the event decoder refused with `failure`.
pub fn recover_refused(
    event: Option<String>,
    data: String,
    member: Member,
    failure: serde_json::Error,
) -> (r: Recovery)
    ensures
        r@ == recovery(opt_text_view(event), data@, member@, failure),
{
    match event {
        None => Recovery::Fail(StreamingError::Json { source: failure, payload: data }),
        Some(name) => match member {
            Member::Absent => Recovery::Inject(name, failure),
            Member::Text(ty) => {
                if ty != name {
                    Recovery::Fail(StreamingError::TypeMismatch { event: name, ty })
                } else {
                    Recovery::Fail(StreamingError::Json { source: failure, payload: data })
                }
            },
            _ => Recovery::Fail(StreamingError::Json { source: failure, payload: data }),
        },
    }
}

/// `decode`, handed a text that holds `text`, may give `r`.
pub open spec fn decodes<T, F: Fn(String) -> Result<T, serde_json::Error>>(
    decode: F,
    text: Seq<char>,
    r: Result<T, serde_json::Error>,
) -> bool {
    exists|s: String| s@ == text && #[trigger] call_ensures(decode, (s,), r)
}

/// The outcome of retrying a refused payload as `json`, which holds the
/// event name as its type: the second decode decides, and its failure carries
/// the frame's data as it came.
pub open spec fn retried<T, F: Fn(String) -> Result<T, serde_json::Error>>(
    decode: F,
    json: Seq<char>,
    data: Seq<char>,
    r: Result<Option<T>, ErrorView>,
) -> bool {
    exists|again: Result<T, serde_json::Error>|
        #![trigger decodes(decode, json, again)]
        decodes(decode, json, again) && r == match again {
            Ok(v) => Ok(Some(v)),
            Err(e) => Err(ErrorView::Json { source: e, payload: data }),
        }
}

/// The outcome for the frame `f` once the first decode gave `direct`.
pub open spec fn settled<T, F: Fn(String) -> Result<T, serde_json::Error>>(
    f: FrameView,
    decode: F,
    direct: Result<T, serde_json::Error>,
    r: Result<Option<T>, ErrorView>,
) -> bool {
    let member = object_member(f.data, type_key());
    match direct {
        Ok(v) => r == match accepted(f.event, member, v) {
            Ok(v) => Ok(Some(v)),
            Err(e) => Err(e),
        },
        Err(failure) => match recovery(f.event, f.data, member, failure) {
            RecoveryView::Fail(e) => r == Err::<Option<T>, ErrorView>(e),
            RecoveryView::Inject(name, _) => match with_text_member(f.data, type_key(), name) {
                None => r == Err::<Option<T>, ErrorView>(
                    ErrorView::Json { source: failure, payload: f.data },
                ),
                Some(json) => retried(decode, json, f.data, r),
            },
        },
    }
}

/// What decoding the frame `f` gives, `decode` being the event decoder: empty
/// data and the end marker give nothing; otherwise the payload is decoded and
/// reconciled with the event name, retrying once with the name injected as
/// its type where `recovery` says so.
pub open spec fn frame_decoded<T, F: Fn(String) -> Result<T, serde_json::Error>>(
    f: FrameView,
    decode: F,
    r: Result<Option<T>, ErrorView>,
) -> bool {
    if f.data.len() == 0 || f.data == done_marker() {
        r == Ok::<Option<T>, ErrorView>(None)
    } else {
        exists|direct: Result<T, serde_json::Error>|
            #![trigger decodes(decode, f.data, direct)]
            decodes(decode, f.data, direct) && settled(f, decode, direct, r)
    }
}

/// Decodes one frame with the event decoder `decode`; see `frame_decoded`.
pub fn decode_frame<T, F: Fn(String) -> Result<T, serde_json::Error>>(
    frame: SseFrame,
    decode: &F,
) -> (r: Result<Option<T>, StreamingError>)
    requires
        forall|s: String| call_requires(*decode, (s,)),
    ensures
        frame_decoded(frame@, *decode, result_view(r)),
{
    let ghost f = frame@;
    let SseFrame { event, data } = frame;
    if data.as_str().is_empty() || same_text(data.as_str(), "[DONE]") {
        return Ok(None);
    }
    let direct = decode(data.clone());
    let ghost d = direct;
    assert(decodes(*decode, f.data, d));
    let member = json_member(data.as_str(), "type");
    match direct {
        Ok(v) => match accept_decoded(event, member, v) {
            Ok(v) => Ok(Some(v)),
            Err(e) => Err(e),
        },
        Err(failure) => match recover_refused(event, data.clone(), member, failure) {
            Recovery::Fail(e) => Err(e),
            Recovery::Inject(name, refusal) => match insert_text_member(
                data.as_str(),
                "type",
                name.as_str(),
            ) {
                None => Err(StreamingError::Json { source: refusal, payload: data }),
                Some(json) => {
                    let ghost j = json@;
                    let again = decode(json);
                    let ghost a = again;
                    assert(decodes(*decode, j, a));
                    let r = match again {
                        Ok(v) => Ok(Some(v)),
                        Err(e) => Err(StreamingError::Json { source: e, payload: data }),
                    };
                    assert(retried(*decode, j, f.data, result_view(r)));
                    assert(settled(f, *decode, d, result_view(r)));
                    r
                },
            },
        },
    }
}

} // verus!
