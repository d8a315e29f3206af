//! Unwrapping of the transport envelopes around an event, and the decoding
//! of a text frame into an event.
use vstd::prelude::*;
use crate::errors::Error;
use crate::events::{
    FuturesWebsocketEvent, WebsocketEvent, classify, classify_futures, classify_futures_spec,
    classify_spec,
};
use crate::json::{Json, JsonValue, field, get, parse_json, parsed_json, set_field};
use crate::text::{before_at, to_upper, topic_symbol, upper_of};

verus! {

/// How many envelopes are unwrapped at most; what is left is classified as it is.
pub const MAX_ENVELOPE_DEPTH: usize = 4;

/// One level of the spot envelope `{"stream": topic, "data": {...}}`: the
/// data object, with `symbol` set to the upper-cased part of the topic before
/// its first `@`. Nothing when the value is no such envelope.
pub open spec fn spot_step(j: Json) -> Option<Json> {
    match j {
        Json::Object(es) => match (field(es, "stream"@), field(es, "data"@)) {
            (Some(Json::Str(s)), Some(Json::Object(d))) => Some(
                Json::Object(set_field(d, "symbol"@, Json::Str(upper_of(before_at(s))))),
            ),
            _ => None,
        },
        _ => None,
    }
}

/// One level of the derivatives envelope: the `data` field of an object.
pub open spec fn futures_step(j: Json) -> Option<Json> {
    get(j, "data"@)
}

/// A value with at most `depth` spot envelopes taken off.
pub open spec fn unwrap_spot_spec(j: Json, depth: nat) -> Json
    decreases depth,
{
    if depth == 0 {
        j
    } else {
        match spot_step(j) {
            Some(w) => unwrap_spot_spec(w, (depth - 1) as nat),
            None => j,
        }
    }
}

/// A value with at most `depth` derivatives envelopes taken off.
pub open spec fn unwrap_futures_spec(j: Json, depth: nat) -> Json
    decreases depth,
{
    if depth == 0 {
        j
    } else {
        match futures_step(j) {
            Some(w) => unwrap_futures_spec(w, (depth - 1) as nat),
            None => j,
        }
    }
}

/// Takes one spot envelope off `v`; gives `v` back unchanged when it is none.
pub fn unwrap_spot_once(v: JsonValue) -> (r: Result<JsonValue, JsonValue>)
    ensures
        match spot_step(v@) {
            Some(w) => r matches Ok(x) && x@ == w,
            None => r == Err::<JsonValue, JsonValue>(v),
        },
{
    let symbol = match v.get("stream") {
        Some(stream) => match stream.as_str() {
            Some(s) => to_upper(topic_symbol(s)),
            None => return Err(v),
        },
        None => return Err(v),
    };
    let data_is_object = match v.get("data") {
        Some(d) => d.is_object(),
        None => false,
    };
    if !data_is_object {
        return Err(v);
    }
    match v.take_field("data") {
        Some(data) => {
            let key = String::from_str("symbol");
            Ok(data.with_field(key, JsonValue::Str(symbol)))
        },
        None => Err(JsonValue::Null),
    }
}

/// Takes one derivatives envelope off `v`; gives `v` back unchanged when it
/// has no `data` field.
pub fn unwrap_futures_once(v: JsonValue) -> (r: Result<JsonValue, JsonValue>)
    ensures
        match futures_step(v@) {
            Some(w) => r matches Ok(x) && x@ == w,
            None => r == Err::<JsonValue, JsonValue>(v),
        },
{
    if v.get("data").is_none() {
        return Err(v);
    }
    match v.take_field("data") {
        Some(data) => Ok(data),
        None => Err(JsonValue::Null),
    }
}

/// Takes off the spot envelopes around an event, at most `MAX_ENVELOPE_DEPTH`.
pub fn unwrap_spot(v: JsonValue) -> (r: JsonValue)
    ensures
        r@ == unwrap_spot_spec(v@, MAX_ENVELOPE_DEPTH as nat),
{
    let ghost start = v@;
    let mut cur = v;
    let mut k: usize = 0;
    while k < MAX_ENVELOPE_DEPTH
        invariant
            k <= MAX_ENVELOPE_DEPTH,
            start == v@,
            unwrap_spot_spec(start, MAX_ENVELOPE_DEPTH as nat) == unwrap_spot_spec(
                cur@,
                (MAX_ENVELOPE_DEPTH - k) as nat,
            ),
        decreases MAX_ENVELOPE_DEPTH - k,
    {
        match unwrap_spot_once(cur) {
            Ok(w) => {
                cur = w;
            },
            Err(same) => {
                return same;
            },
        }
        k = k + 1;
    }
    cur
}

/// Takes off the derivatives envelopes around an event, at most
/// `MAX_ENVELOPE_DEPTH`.
pub fn unwrap_futures(v: JsonValue) -> (r: JsonValue)
    ensures
        r@ == unwrap_futures_spec(v@, MAX_ENVELOPE_DEPTH as nat),
{
    let ghost start = v@;
    let mut cur = v;
    let mut k: usize = 0;
    while k < MAX_ENVELOPE_DEPTH
        invariant
            k <= MAX_ENVELOPE_DEPTH,
            start == v@,
            unwrap_futures_spec(start, MAX_ENVELOPE_DEPTH as nat) == unwrap_futures_spec(
                cur@,
                (MAX_ENVELOPE_DEPTH - k) as nat,
            ),
        decreases MAX_ENVELOPE_DEPTH - k,
    {
        match unwrap_futures_once(cur) {
            Ok(w) => {
                cur = w;
            },
            Err(same) => {
                return same;
            },
        }
        k = k + 1;
    }
    cur
}

/// The spot event that a parsed document stands for, if any.
pub open spec fn spot_event_of(j: Json) -> Option<(crate::events::EventTag, Json)> {
    classify_spec(unwrap_spot_spec(j, MAX_ENVELOPE_DEPTH as nat))
}

/// The derivatives event that a parsed document stands for, if any.
pub open spec fn futures_event_of(j: Json) -> Option<(crate::events::EventTag, Json)> {
    classify_futures_spec(unwrap_futures_spec(j, MAX_ENVELOPE_DEPTH as nat))
}

/// Decodes a parsed document of the spot feed: envelopes off, then classified.
pub fn decode_spot_value(v: JsonValue) -> (r: Option<WebsocketEvent>)
    ensures
        match r {
            Some(e) => spot_event_of(v@) == Some(e.view()),
            None => spot_event_of(v@) is None,
        },
{
    classify(unwrap_spot(v))
}

/// Decodes a parsed document of the derivatives feed.
pub fn decode_futures_value(v: JsonValue) -> (r: Option<FuturesWebsocketEvent>)
    ensures
        match r {
            Some(e) => futures_event_of(v@) == Some(e.view()),
            None => futures_event_of(v@) is None,
        },
{
    classify_futures(unwrap_futures(v))
}

/// Decodes a text frame of the spot feed: an error when it is not one JSON
/// document, nothing when the document is no known event.
pub fn decode_spot(text: &str) -> (r: Result<Option<WebsocketEvent>, Error>)
    ensures
        match parsed_json(text@) {
            None => r matches Err(Error::Json),
            Some(j) => match r {
                Ok(Some(e)) => spot_event_of(j) == Some(e.view()),
                Ok(None) => spot_event_of(j) is None,
                Err(_) => false,
            },
        },
{
    match parse_json(text) {
        Some(v) => Ok(decode_spot_value(v)),
        None => Err(Error::Json),
    }
}

/// Decodes a text frame of the derivatives feed.
pub fn decode_futures(text: &str) -> (r: Result<Option<FuturesWebsocketEvent>, Error>)
    ensures
        match parsed_json(text@) {
            None => r matches Err(Error::Json),
            Some(j) => match r {
                Ok(Some(e)) => futures_event_of(j) == Some(e.view()),
                Ok(None) => futures_event_of(j) is None,
                Err(_) => false,
            },
        },
{
    match parse_json(text) {
        Some(v) => Ok(decode_futures_value(v)),
        None => Err(Error::Json),
    }
}

/// Unwrapping a spot envelope sets `symbol` in its data object to the
/// upper-cased part of the topic before its first `@`, and keeps every other
/// field of the data object.
pub proof fn lemma_spot_envelope_symbol(
    es: Seq<(Seq<char>, Json)>,
    topic: Seq<char>,
    d: Seq<(Seq<char>, Json)>,
    key: Seq<char>,
)
    requires
        field(es, "stream"@) == Some(Json::Str(topic)),
        field(es, "data"@) == Some(Json::Object(d)),
    ensures
        get(spot_step(Json::Object(es))->0, "symbol"@) == Some(Json::Str(upper_of(before_at(topic)))),
        key != "symbol"@ ==> get(spot_step(Json::Object(es))->0, key) == field(d, key),
{
    crate::json::lemma_set_field(d, "symbol"@, Json::Str(upper_of(before_at(topic))), key);
}

/// A derivatives envelope `{"data": inner}`, with or without a `stream`
/// field, unwraps to `inner` when `inner` is no envelope itself.
pub proof fn lemma_futures_envelope(j: Json, inner: Json)
    requires
        get(j, "data"@) == Some(inner),
        get(inner, "data"@) is None,
    ensures
        unwrap_futures_spec(j, MAX_ENVELOPE_DEPTH as nat) == inner,
        futures_event_of(j) == classify_futures_spec(inner),
{
    assert(unwrap_futures_spec(inner, (MAX_ENVELOPE_DEPTH - 1) as nat) == inner);
}

} // verus!
