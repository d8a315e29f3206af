//! The library's error type, and the error bodies that the REST interface
//! answers with.
use vstd::prelude::*;
use crate::json::{Json, JsonValue, get};

verus! {

/// An error body of the REST interface.
#[derive(Clone, Debug, PartialEq)]
pub struct BinanceContentError {
    pub code: i16,
    pub msg: String,
}

/// The bodies that a failed REST call may carry, tried in this order.
#[derive(Debug, PartialEq)]
pub enum BinanceContent {
    /// A cancel-and-replace that failed part way, with its report.
    CancelReplace { code: i16, msg: String, data: JsonValue },
    /// A plain error.
    Error(BinanceContentError),
}

/// The stage of opening a connection that failed.
#[derive(Clone, Copy, PartialEq, Eq, Structural, Debug)]
pub enum TransportStage {
    Tcp,
    Tls,
    Handshake,
}

#[derive(Debug, PartialEq)]
pub enum Error {
    /// A cancel-and-replace failed; its report.
    CancelReplaceError(JsonValue),
    /// The REST interface answered with an error body.
    BinanceError(BinanceContentError),
    /// The endpoint text is not a URL.
    UrlParse,
    /// The endpoint URL names no host.
    MissingHost,
    /// Opening the connection failed at a stage, for the reason given.
    Transport(TransportStage, String),
    /// A text frame does not hold one JSON document.
    Json,
    /// The event handler failed, with its message.
    Handler(String),
    /// The peer closed the connection, with its reason if it gave one.
    Disconnected(Option<String>),
    /// Too many reads in a row timed out without an answer to the probes.
    LoopDead,
    /// A liveness probe could not be written.
    ProbeFailed,
    /// The answer to a ping could not be written.
    PongFailed,
    /// The caller asked the loop to stop.
    Stopped,
    /// There is no open connection.
    NotConnected,
}

impl Error {
    /// The report of a failed cancel-and-replace, when this is one.
    pub fn cancel_replace(&self) -> (r: Option<&JsonValue>)
        ensures
            match self {
                Error::CancelReplaceError(d) => r == Some(d),
                _ => r is None,
            },
    {
        match self {
            Error::CancelReplaceError(d) => Some(d),
            _ => None,
        }
    }

    /// The error that an error body stands for.
    pub fn from_content(c: BinanceContent) -> (r: Error)
        ensures
            match c {
                BinanceContent::CancelReplace { data, .. } => r == Error::CancelReplaceError(data),
                BinanceContent::Error(e) => r == Error::BinanceError(e),
            },
    {
        match c {
            BinanceContent::CancelReplace { data, .. } => Error::CancelReplaceError(data),
            BinanceContent::Error(e) => Error::BinanceError(e),
        }
    }
}

/// The `i16` that a JSON integer holds, if it fits.
pub open spec fn json_i16(j: Json) -> Option<i16> {
    match j {
        Json::UInt(n) => if n <= i16::MAX as u64 { Some(n as i16) } else { None },
        Json::Int(n) => if i16::MIN <= n { Some(n as i16) } else { None },
        _ => None,
    }
}

fn to_i16(v: &JsonValue) -> (r: Option<i16>)
    ensures
        r == json_i16(v@),
{
    match v {
        JsonValue::UInt(n) => if *n <= 32767 { Some(*n as i16) } else { None },
        JsonValue::Int(n) => if *n >= -32768 { Some(*n as i16) } else { None },
        _ => None,
    }
}

/// The code and message of an error body, when it has both.
pub open spec fn content_head(j: Json) -> Option<(i16, Seq<char>)> {
    match (get(j, "code"@), get(j, "msg"@)) {
        (Some(c), Some(Json::Str(m))) => match json_i16(c) {
            Some(code) => Some((code, m)),
            None => None,
        },
        _ => None,
    }
}

impl BinanceContent {
    /// Decodes an error body: a cancel-and-replace report when it has a
    /// code, a message and an object `data`; else a plain error when it has a
    /// code and a message; else nothing.
    pub fn from_json(v: JsonValue) -> (r: Option<BinanceContent>)
        ensures
            match r {
                Some(BinanceContent::CancelReplace { code, msg, data }) => content_head(v@) == Some(
                    (code, msg@),
                ) && get(v@, "data"@) == Some(data@) && data@ is Object,
                Some(BinanceContent::Error(e)) => content_head(v@) == Some((e.code, e.msg@)) && !(
                match get(v@, "data"@) {
                    Some(d) => d is Object,
                    None => false,
                }),
                None => content_head(v@) is None,
            },
    {
        let code = match v.get("code") {
            Some(c) => match to_i16(c) {
                Some(code) => code,
                None => return None,
            },
            None => return None,
        };
        let msg = match v.get("msg") {
            Some(m) => match m.as_str() {
                Some(s) => String::from_str(s),
                None => return None,
            },
            None => return None,
        };
        let has_data = match v.get("data") {
            Some(d) => d.is_object(),
            None => false,
        };
        if has_data {
            match v.take_field("data") {
                Some(data) => Some(BinanceContent::CancelReplace { code, msg, data }),
                None => None,
            }
        } else {
            Some(BinanceContent::Error(BinanceContentError { code, msg }))
        }
    }
}

} // verus!
