//! The closed set of event shapes that the feed carries, and the ordered,
//! first-match classification of an unwrapped JSON value into one of them.
use vstd::prelude::*;
use crate::json::{Json, JsonValue, find_key, field, entries_view, items_view, lemma_array_view, lemma_object_view};

verus! {

/// The JSON kind that a required field must have.
#[derive(Clone, Copy, PartialEq, Eq, Structural, Debug)]
pub enum FieldKind {
    /// A string.
    Text,
    /// A non-negative integer that fits in `u64`.
    Unsigned,
    /// An integer that fits in `i64`.
    Signed,
    /// A boolean.
    Flag,
    /// A nested object.
    Object,
    /// A list.
    Array,
}

pub open spec fn is_kind(j: Json, k: FieldKind) -> bool {
    match k {
        FieldKind::Text => j is Str,
        FieldKind::Unsigned => j is UInt,
        FieldKind::Signed => match j {
            Json::UInt(n) => n <= i64::MAX,
            Json::Int(_) => true,
            _ => false,
        },
        FieldKind::Flag => j is Bool,
        FieldKind::Object => j is Object,
        FieldKind::Array => j is Array,
    }
}

/// The kind of one event shape: a single record, or a list of records.
#[derive(Clone, Copy, PartialEq, Eq, Structural, Debug)]
pub enum EventTag {
    /// An account position update.
    AccountUpdate,
    /// A balance change.
    BalanceUpdate,
    /// A spot order or trade update.
    OrderTrade,
    /// A derivatives order or trade update.
    FuturesOrderTrade,
    /// An aggregate trade.
    AggrTrades,
    /// A raw trade.
    Trade,
    /// A full order book snapshot.
    OrderBook,
    /// A rolling 24h ticker.
    DayTicker,
    /// A rolling 24h mini ticker.
    MiniTicker,
    /// An index price.
    IndexPrice,
    /// A mark price.
    MarkPrice,
    /// A candlestick.
    Kline,
    /// A continuous-contract candlestick.
    ContinuousKline,
    /// An index-price candlestick.
    IndexKline,
    /// A liquidation order.
    Liquidation,
    /// A depth-diff update.
    DepthOrderBook,
    /// A best bid/ask ticker.
    BookTicker,
    /// A listen-key expiry notice.
    UserDataStreamExpired,
    /// A list of records of shape `DayTicker`.
    DayTickerAll,
    /// A list of records of shape `MiniTicker`.
    MiniTickerAll,
    /// A list of records of shape `MarkPrice`.
    MarkPriceAll,
}

/// The record shape that each element of a list tag has.
pub open spec fn element_tag(t: EventTag) -> Option<EventTag> {
    match t {
        EventTag::DayTickerAll => Some(EventTag::DayTicker),
        EventTag::MiniTickerAll => Some(EventTag::MiniTicker),
        EventTag::MarkPriceAll => Some(EventTag::MarkPrice),
        _ => None,
    }
}

/// The fields that a record of shape `t` requires, each with its kind; other
/// fields may be present and are kept. A nested record or list is checked for
/// its JSON kind only.
pub open spec fn record_fields(t: EventTag) -> Seq<(&'static str, FieldKind)> {
    match t {
        EventTag::AccountUpdate => seq![("e", FieldKind::Text), ("E", FieldKind::Unsigned), ("u", FieldKind::Unsigned), ("B", FieldKind::Array)],
        EventTag::BalanceUpdate => seq![("e", FieldKind::Text), ("E", FieldKind::Unsigned), ("a", FieldKind::Text), ("d", FieldKind::Text), ("T", FieldKind::Unsigned)],
        EventTag::OrderTrade => seq![("e", FieldKind::Text), ("E", FieldKind::Unsigned), ("s", FieldKind::Text), ("c", FieldKind::Text), ("S", FieldKind::Text), ("o", FieldKind::Text), ("f", FieldKind::Text), ("q", FieldKind::Text), ("p", FieldKind::Text), ("P", FieldKind::Text), ("F", FieldKind::Text), ("C", FieldKind::Text), ("x", FieldKind::Text), ("X", FieldKind::Text), ("r", FieldKind::Text), ("i", FieldKind::Unsigned), ("l", FieldKind::Text), ("z", FieldKind::Text), ("L", FieldKind::Text), ("n", FieldKind::Text), ("T", FieldKind::Unsigned), ("t", FieldKind::Signed), ("m", FieldKind::Flag), ("M", FieldKind::Flag)],
        EventTag::FuturesOrderTrade => seq![("e", FieldKind::Text), ("E", FieldKind::Unsigned), ("T", FieldKind::Unsigned), ("o", FieldKind::Object)],
        EventTag::AggrTrades => seq![("e", FieldKind::Text), ("E", FieldKind::Unsigned), ("s", FieldKind::Text), ("a", FieldKind::Unsigned), ("p", FieldKind::Text), ("q", FieldKind::Text), ("f", FieldKind::Unsigned), ("l", FieldKind::Unsigned), ("T", FieldKind::Unsigned), ("m", FieldKind::Flag), ("M", FieldKind::Flag)],
        EventTag::Trade => seq![("e", FieldKind::Text), ("E", FieldKind::Unsigned), ("s", FieldKind::Text), ("t", FieldKind::Unsigned), ("p", FieldKind::Text), ("q", FieldKind::Text), ("b", FieldKind::Unsigned), ("a", FieldKind::Unsigned), ("T", FieldKind::Unsigned), ("m", FieldKind::Flag), ("M", FieldKind::Flag)],
        EventTag::OrderBook => seq![("lastUpdateId", FieldKind::Unsigned), ("bids", FieldKind::Array), ("asks", FieldKind::Array)],
        EventTag::DayTicker => seq![("e", FieldKind::Text), ("E", FieldKind::Unsigned), ("s", FieldKind::Text), ("p", FieldKind::Text), ("P", FieldKind::Text), ("w", FieldKind::Text), ("x", FieldKind::Text), ("c", FieldKind::Text), ("Q", FieldKind::Text), ("b", FieldKind::Text), ("B", FieldKind::Text), ("a", FieldKind::Text), ("A", FieldKind::Text), ("o", FieldKind::Text), ("h", FieldKind::Text), ("l", FieldKind::Text), ("v", FieldKind::Text), ("q", FieldKind::Text), ("O", FieldKind::Unsigned), ("C", FieldKind::Unsigned), ("F", FieldKind::Signed), ("L", FieldKind::Signed), ("n", FieldKind::Unsigned)],
        EventTag::MiniTicker => seq![("e", FieldKind::Text), ("E", FieldKind::Unsigned), ("s", FieldKind::Text), ("c", FieldKind::Text), ("o", FieldKind::Text), ("h", FieldKind::Text), ("l", FieldKind::Text), ("v", FieldKind::Text), ("q", FieldKind::Text)],
        EventTag::IndexPrice => seq![("e", FieldKind::Text), ("E", FieldKind::Unsigned), ("i", FieldKind::Text), ("p", FieldKind::Text)],
        EventTag::MarkPrice => seq![("e", FieldKind::Text), ("E", FieldKind::Unsigned), ("s", FieldKind::Text), ("p", FieldKind::Text), ("i", FieldKind::Text), ("P", FieldKind::Text), ("r", FieldKind::Text), ("T", FieldKind::Unsigned)],
        EventTag::Kline => seq![("e", FieldKind::Text), ("E", FieldKind::Unsigned), ("s", FieldKind::Text), ("k", FieldKind::Object)],
        EventTag::ContinuousKline => seq![("e", FieldKind::Text), ("E", FieldKind::Unsigned), ("ps", FieldKind::Text), ("ct", FieldKind::Text), ("k", FieldKind::Object)],
        EventTag::IndexKline => seq![("e", FieldKind::Text), ("E", FieldKind::Unsigned), ("ps", FieldKind::Text), ("k", FieldKind::Object)],
        EventTag::Liquidation => seq![("e", FieldKind::Text), ("E", FieldKind::Unsigned), ("o", FieldKind::Object)],
        EventTag::DepthOrderBook => seq![("e", FieldKind::Text), ("E", FieldKind::Unsigned), ("s", FieldKind::Text), ("U", FieldKind::Unsigned), ("u", FieldKind::Unsigned), ("b", FieldKind::Array), ("a", FieldKind::Array)],
        EventTag::BookTicker => seq![("u", FieldKind::Unsigned), ("s", FieldKind::Text), ("b", FieldKind::Text), ("B", FieldKind::Text), ("a", FieldKind::Text), ("A", FieldKind::Text)],
        EventTag::UserDataStreamExpired => seq![("e", FieldKind::Text), ("E", FieldKind::Unsigned)],
        _ => Seq::empty(),
    }
}

/// The entries of an object have every field that `fields` requires, of its kind.
pub open spec fn has_fields(es: Seq<(Seq<char>, Json)>, fields: Seq<(&'static str, FieldKind)>) -> bool {
    forall|i: int|
        0 <= i < fields.len() ==> match #[trigger] field(es, fields[i].0@) {
            Some(x) => is_kind(x, fields[i].1),
            None => false,
        }
}

/// A JSON value is a record of shape `t`.
pub open spec fn fits_record(j: Json, t: EventTag) -> bool {
    match j {
        Json::Object(es) => has_fields(es, record_fields(t)),
        _ => false,
    }
}

/// A JSON value decodes as an event of tag `t`.
pub open spec fn fits_tag(j: Json, t: EventTag) -> bool {
    match element_tag(t) {
        Some(e) => match j {
            Json::Array(items) => forall|i: int| 0 <= i < items.len() ==> fits_record(#[trigger] items[i], e),
            _ => false,
        },
        None => fits_record(j, t),
    }
}

/// The first tag of `order` that the value decodes as.
pub open spec fn first_fit(j: Json, order: Seq<EventTag>) -> Option<EventTag>
    decreases order.len(),
{
    if order.len() == 0 {
        None
    } else if fits_tag(j, order[0]) {
        Some(order[0])
    } else {
        first_fit(j, order.drop_first())
    }
}

/// The order in which the spot feed tries its shapes.
pub open spec fn spot_order() -> Seq<EventTag> {
    seq![EventTag::DayTickerAll, EventTag::BalanceUpdate, EventTag::DayTicker, EventTag::BookTicker, EventTag::AccountUpdate, EventTag::OrderTrade, EventTag::AggrTrades, EventTag::Trade, EventTag::Kline, EventTag::OrderBook, EventTag::DepthOrderBook]
}

/// The order in which the derivatives feed tries its shapes.
pub open spec fn futures_order() -> Seq<EventTag> {
    seq![EventTag::DayTickerAll, EventTag::DayTicker, EventTag::BookTicker, EventTag::MiniTicker, EventTag::MiniTickerAll, EventTag::AccountUpdate, EventTag::FuturesOrderTrade, EventTag::AggrTrades, EventTag::MarkPrice, EventTag::IndexPrice, EventTag::MarkPriceAll, EventTag::Trade, EventTag::Kline, EventTag::ContinuousKline, EventTag::IndexKline, EventTag::Liquidation, EventTag::OrderBook, EventTag::DepthOrderBook, EventTag::UserDataStreamExpired]
}

fn has_kind(v: &JsonValue, k: FieldKind) -> (r: bool)
    ensures
        r == is_kind(v@, k),
{
    match k {
        FieldKind::Text => match v {
            JsonValue::Str(_) => true,
            _ => false,
        },
        FieldKind::Unsigned => match v {
            JsonValue::UInt(_) => true,
            _ => false,
        },
        FieldKind::Signed => match v {
            JsonValue::UInt(n) => *n <= i64::MAX as u64,
            JsonValue::Int(_) => true,
            _ => false,
        },
        FieldKind::Flag => match v {
            JsonValue::Bool(_) => true,
            _ => false,
        },
        FieldKind::Object => match v {
            JsonValue::Object(_) => true,
            _ => false,
        },
        FieldKind::Array => match v {
            JsonValue::Array(_) => true,
            _ => false,
        },
    }
}

fn check_fields(entries: &Vec<(String, JsonValue)>, fields: &[(&'static str, FieldKind)]) -> (r: bool)
    ensures
        r == has_fields(entries_view(entries@), fields@),
{
    let ghost es = entries_view(entries@);
    let mut i: usize = 0;
    while i < fields.len()
        invariant
            es == entries_view(entries@),
            i <= fields@.len(),
            forall|k: int|
                0 <= k < i ==> match #[trigger] field(es, fields@[k].0@) {
                    Some(x) => is_kind(x, fields@[k].1),
                    None => false,
                },
        decreases fields@.len() - i,
    {
        let (key, kind) = fields[i];
        match find_key(entries, key) {
            Some(p) => {
                if !has_kind(&entries[p].1, kind) {
                    assert(field(es, fields@[i as int].0@) == Some(es[p as int].1));
                    return false;
                }
            },
            None => {
                assert(field(es, fields@[i as int].0@) is None);
                return false;
            },
        }
        i = i + 1;
    }
    true
}

fn check_record(v: &JsonValue, t: EventTag) -> (r: bool)
    ensures
        r == fits_record(v@, t),
{
    match v {
        JsonValue::Object(entries) => {
            proof {
                lemma_object_view(*entries);
            }
            match t {
                EventTag::AccountUpdate => {
                    let f = [("e", FieldKind::Text), ("E", FieldKind::Unsigned), ("u", FieldKind::Unsigned), ("B", FieldKind::Array)];
                    assert(f@ =~= record_fields(t));
                    check_fields(entries, &f)
                },
                EventTag::BalanceUpdate => {
                    let f = [("e", FieldKind::Text), ("E", FieldKind::Unsigned), ("a", FieldKind::Text), ("d", FieldKind::Text), ("T", FieldKind::Unsigned)];
                    assert(f@ =~= record_fields(t));
                    check_fields(entries, &f)
                },
                EventTag::OrderTrade => {
                    let f = [("e", FieldKind::Text), ("E", FieldKind::Unsigned), ("s", FieldKind::Text), ("c", FieldKind::Text), ("S", FieldKind::Text), ("o", FieldKind::Text), ("f", FieldKind::Text), ("q", FieldKind::Text), ("p", FieldKind::Text), ("P", FieldKind::Text), ("F", FieldKind::Text), ("C", FieldKind::Text), ("x", FieldKind::Text), ("X", FieldKind::Text), ("r", FieldKind::Text), ("i", FieldKind::Unsigned), ("l", FieldKind::Text), ("z", FieldKind::Text), ("L", FieldKind::Text), ("n", FieldKind::Text), ("T", FieldKind::Unsigned), ("t", FieldKind::Signed), ("m", FieldKind::Flag), ("M", FieldKind::Flag)];
                    assert(f@ =~= record_fields(t));
                    check_fields(entries, &f)
                },
                EventTag::FuturesOrderTrade => {
                    let f = [("e", FieldKind::Text), ("E", FieldKind::Unsigned), ("T", FieldKind::Unsigned), ("o", FieldKind::Object)];
                    assert(f@ =~= record_fields(t));
                    check_fields(entries, &f)
                },
                EventTag::AggrTrades => {
                    let f = [("e", FieldKind::Text), ("E", FieldKind::Unsigned), ("s", FieldKind::Text), ("a", FieldKind::Unsigned), ("p", FieldKind::Text), ("q", FieldKind::Text), ("f", FieldKind::Unsigned), ("l", FieldKind::Unsigned), ("T", FieldKind::Unsigned), ("m", FieldKind::Flag), ("M", FieldKind::Flag)];
                    assert(f@ =~= record_fields(t));
                    check_fields(entries, &f)
                },
                EventTag::Trade => {
                    let f = [("e", FieldKind::Text), ("E", FieldKind::Unsigned), ("s", FieldKind::Text), ("t", FieldKind::Unsigned), ("p", FieldKind::Text), ("q", FieldKind::Text), ("b", FieldKind::Unsigned), ("a", FieldKind::Unsigned), ("T", FieldKind::Unsigned), ("m", FieldKind::Flag), ("M", FieldKind::Flag)];
                    assert(f@ =~= record_fields(t));
                    check_fields(entries, &f)
                },
                EventTag::OrderBook => {
                    let f = [("lastUpdateId", FieldKind::Unsigned), ("bids", FieldKind::Array), ("asks", FieldKind::Array)];
                    assert(f@ =~= record_fields(t));
                    check_fields(entries, &f)
                },
                EventTag::DayTicker => {
                    let f = [("e", FieldKind::Text), ("E", FieldKind::Unsigned), ("s", FieldKind::Text), ("p", FieldKind::Text), ("P", FieldKind::Text), ("w", FieldKind::Text), ("x", FieldKind::Text), ("c", FieldKind::Text), ("Q", FieldKind::Text), ("b", FieldKind::Text), ("B", FieldKind::Text), ("a", FieldKind::Text), ("A", FieldKind::Text), ("o", FieldKind::Text), ("h", FieldKind::Text), ("l", FieldKind::Text), ("v", FieldKind::Text), ("q", FieldKind::Text), ("O", FieldKind::Unsigned), ("C", FieldKind::Unsigned), ("F", FieldKind::Signed), ("L", FieldKind::Signed), ("n", FieldKind::Unsigned)];
                    assert(f@ =~= record_fields(t));
                    check_fields(entries, &f)
                },
                EventTag::MiniTicker => {
                    let f = [("e", FieldKind::Text), ("E", FieldKind::Unsigned), ("s", FieldKind::Text), ("c", FieldKind::Text), ("o", FieldKind::Text), ("h", FieldKind::Text), ("l", FieldKind::Text), ("v", FieldKind::Text), ("q", FieldKind::Text)];
                    assert(f@ =~= record_fields(t));
                    check_fields(entries, &f)
                },
                EventTag::IndexPrice => {
                    let f = [("e", FieldKind::Text), ("E", FieldKind::Unsigned), ("i", FieldKind::Text), ("p", FieldKind::Text)];
                    assert(f@ =~= record_fields(t));
                    check_fields(entries, &f)
                },
                EventTag::MarkPrice => {
                    let f = [("e", FieldKind::Text), ("E", FieldKind::Unsigned), ("s", FieldKind::Text), ("p", FieldKind::Text), ("i", FieldKind::Text), ("P", FieldKind::Text), ("r", FieldKind::Text), ("T", FieldKind::Unsigned)];
                    assert(f@ =~= record_fields(t));
                    check_fields(entries, &f)
                },
                EventTag::Kline => {
                    let f = [("e", FieldKind::Text), ("E", FieldKind::Unsigned), ("s", FieldKind::Text), ("k", FieldKind::Object)];
                    assert(f@ =~= record_fields(t));
                    check_fields(entries, &f)
                },
                EventTag::ContinuousKline => {
                    let f = [("e", FieldKind::Text), ("E", FieldKind::Unsigned), ("ps", FieldKind::Text), ("ct", FieldKind::Text), ("k", FieldKind::Object)];
                    assert(f@ =~= record_fields(t));
                    check_fields(entries, &f)
                },
                EventTag::IndexKline => {
                    let f = [("e", FieldKind::Text), ("E", FieldKind::Unsigned), ("ps", FieldKind::Text), ("k", FieldKind::Object)];
                    assert(f@ =~= record_fields(t));
                    check_fields(entries, &f)
                },
                EventTag::Liquidation => {
                    let f = [("e", FieldKind::Text), ("E", FieldKind::Unsigned), ("o", FieldKind::Object)];
                    assert(f@ =~= record_fields(t));
                    check_fields(entries, &f)
                },
                EventTag::DepthOrderBook => {
                    let f = [("e", FieldKind::Text), ("E", FieldKind::Unsigned), ("s", FieldKind::Text), ("U", FieldKind::Unsigned), ("u", FieldKind::Unsigned), ("b", FieldKind::Array), ("a", FieldKind::Array)];
                    assert(f@ =~= record_fields(t));
                    check_fields(entries, &f)
                },
                EventTag::BookTicker => {
                    let f = [("u", FieldKind::Unsigned), ("s", FieldKind::Text), ("b", FieldKind::Text), ("B", FieldKind::Text), ("a", FieldKind::Text), ("A", FieldKind::Text)];
                    assert(f@ =~= record_fields(t));
                    check_fields(entries, &f)
                },
                EventTag::UserDataStreamExpired => {
                    let f = [("e", FieldKind::Text), ("E", FieldKind::Unsigned)];
                    assert(f@ =~= record_fields(t));
                    check_fields(entries, &f)
                },
                _ => {
                    let f: [(&'static str, FieldKind); 0] = [];
                    assert(f@ =~= record_fields(t));
                    check_fields(entries, &f)
                },
            }
        },
        _ => false,
    }
}

proof fn lemma_list_misfit(j: Json, t: EventTag, e: EventTag, js: Seq<Json>, i: int)
    requires
        element_tag(t) == Some(e),
        j == Json::Array(js),
        0 <= i < js.len(),
        !fits_record(js[i], e),
    ensures
        !fits_tag(j, t),
{
    assert(match j {
        Json::Array(items) => items == js,
        _ => false,
    });
    assert(fits_tag(j, t) == (forall|k: int| 0 <= k < js.len() ==> fits_record(#[trigger] js[k], e)));
}

fn check_tag(v: &JsonValue, t: EventTag) -> (r: bool)
    ensures
        r == fits_tag(v@, t),
{
    let element = match t {
        EventTag::DayTickerAll => Some(EventTag::DayTicker),
        EventTag::MiniTickerAll => Some(EventTag::MiniTicker),
        EventTag::MarkPriceAll => Some(EventTag::MarkPrice),
        _ => None,
    };
    assert(element == element_tag(t));
    match element {
        Some(e) => match v {
            JsonValue::Array(items) => {
                proof {
                    lemma_array_view(*items);
                }
                let ghost js = items_view(items@);
                let mut i: usize = 0;
                while i < items.len()
                    invariant
                        js == items_view(items@),
                        v@ == Json::Array(js),
                        element_tag(t) == Some(e),
                        i <= items@.len(),
                        forall|k: int| 0 <= k < i ==> fits_record(#[trigger] js[k], e),
                    decreases items@.len() - i,
                {
                    if !check_record(&items[i], e) {
                        proof {
                            lemma_list_misfit(v@, t, e, js, i as int);
                        }
                        return false;
                    }
                    i = i + 1;
                }
                true
            },
            _ => false,
        },
        None => check_record(v, t),
    }
}

/// A tag that `first_fit` picks is one of the order, and the value fits it.
pub proof fn lemma_first_fit(j: Json, order: Seq<EventTag>)
    ensures
        match first_fit(j, order) {
            Some(t) => order.contains(t) && fits_tag(j, t),
            None => forall|i: int| 0 <= i < order.len() ==> !fits_tag(j, #[trigger] order[i]),
        },
    decreases order.len(),
{
    if order.len() > 0 && !fits_tag(j, order[0]) {
        let rest = order.drop_first();
        lemma_first_fit(j, rest);
        match first_fit(j, rest) {
            Some(t) => {
                let k = choose|k: int| 0 <= k < rest.len() && rest[k] == t;
                assert(order[k + 1] == t);
            },
            None => {
                assert forall|i: int| 0 <= i < order.len() implies !fits_tag(j, #[trigger] order[i]) by {
                    if i > 0 {
                        assert(order[i] == rest[i - 1]);
                    }
                }
            },
        }
    } else if order.len() > 0 {
        assert(order[0] == order[0]);
    }
}

/// The first tag of `order` that `v` decodes as; nothing when it fits none.
pub fn first_fit_tag(v: &JsonValue, order: &[EventTag]) -> (r: Option<EventTag>)
    ensures
        r == first_fit(v@, order@),
{
    let mut i: usize = 0;
    assert(order@.subrange(0, order@.len() as int) =~= order@);
    while i < order.len()
        invariant
            i <= order@.len(),
            first_fit(v@, order@) == first_fit(v@, order@.subrange(i as int, order@.len() as int)),
        decreases order@.len() - i,
    {
        let ghost rest = order@.subrange(i as int, order@.len() as int);
        if check_tag(v, order[i]) {
            return Some(order[i]);
        }
        assert(rest.drop_first() =~= order@.subrange(i + 1, order@.len() as int));
        i = i + 1;
    }
    None
}

/// An event of the spot feed.
#[derive(Debug, PartialEq)]
pub enum WebsocketEvent {
    AccountUpdate(JsonValue),
    BalanceUpdate(JsonValue),
    OrderTrade(JsonValue),
    AggrTrades(JsonValue),
    Trade(JsonValue),
    OrderBook(JsonValue),
    DayTicker(JsonValue),
    DayTickerAll(Vec<JsonValue>),
    Kline(JsonValue),
    DepthOrderBook(JsonValue),
    BookTicker(JsonValue),
}

impl WebsocketEvent {
    /// The tag of this event and the model of its payload.
    pub open spec fn view(&self) -> (EventTag, Json) {
        match self {
            WebsocketEvent::AccountUpdate(x) => (EventTag::AccountUpdate, x@),
            WebsocketEvent::BalanceUpdate(x) => (EventTag::BalanceUpdate, x@),
            WebsocketEvent::OrderTrade(x) => (EventTag::OrderTrade, x@),
            WebsocketEvent::AggrTrades(x) => (EventTag::AggrTrades, x@),
            WebsocketEvent::Trade(x) => (EventTag::Trade, x@),
            WebsocketEvent::OrderBook(x) => (EventTag::OrderBook, x@),
            WebsocketEvent::DayTicker(x) => (EventTag::DayTicker, x@),
            WebsocketEvent::DayTickerAll(items) => (EventTag::DayTickerAll, Json::Array(items_view(items@))),
            WebsocketEvent::Kline(x) => (EventTag::Kline, x@),
            WebsocketEvent::DepthOrderBook(x) => (EventTag::DepthOrderBook, x@),
            WebsocketEvent::BookTicker(x) => (EventTag::BookTicker, x@),
        }
    }

    /// The tag of this event.
    pub fn tag(&self) -> (r: EventTag)
        ensures
            r == self.view().0,
    {
        match self {
            WebsocketEvent::AccountUpdate(_) => EventTag::AccountUpdate,
            WebsocketEvent::BalanceUpdate(_) => EventTag::BalanceUpdate,
            WebsocketEvent::OrderTrade(_) => EventTag::OrderTrade,
            WebsocketEvent::AggrTrades(_) => EventTag::AggrTrades,
            WebsocketEvent::Trade(_) => EventTag::Trade,
            WebsocketEvent::OrderBook(_) => EventTag::OrderBook,
            WebsocketEvent::DayTicker(_) => EventTag::DayTicker,
            WebsocketEvent::DayTickerAll(_) => EventTag::DayTickerAll,
            WebsocketEvent::Kline(_) => EventTag::Kline,
            WebsocketEvent::DepthOrderBook(_) => EventTag::DepthOrderBook,
            WebsocketEvent::BookTicker(_) => EventTag::BookTicker,
        }
    }

    /// The record that a single-record event carries.
    pub fn record(&self) -> (r: Option<&JsonValue>)
        ensures
            match r {
                Some(x) => element_tag(self.view().0) is None && x@ == self.view().1,
                None => element_tag(self.view().0) is Some,
            },
    {
        match self {
            WebsocketEvent::AccountUpdate(x) => Some(x),
            WebsocketEvent::BalanceUpdate(x) => Some(x),
            WebsocketEvent::OrderTrade(x) => Some(x),
            WebsocketEvent::AggrTrades(x) => Some(x),
            WebsocketEvent::Trade(x) => Some(x),
            WebsocketEvent::OrderBook(x) => Some(x),
            WebsocketEvent::DayTicker(x) => Some(x),
            WebsocketEvent::DayTickerAll(_) => None,
            WebsocketEvent::Kline(x) => Some(x),
            WebsocketEvent::DepthOrderBook(x) => Some(x),
            WebsocketEvent::BookTicker(x) => Some(x),
        }
    }

    /// The records that a list event carries.
    pub fn records(&self) -> (r: Option<&Vec<JsonValue>>)
        ensures
            match r {
                Some(xs) => element_tag(self.view().0) is Some && Json::Array(items_view(xs@)) == self.view().1,
                None => element_tag(self.view().0) is None,
            },
    {
        match self {
            WebsocketEvent::AccountUpdate(_) => None,
            WebsocketEvent::BalanceUpdate(_) => None,
            WebsocketEvent::OrderTrade(_) => None,
            WebsocketEvent::AggrTrades(_) => None,
            WebsocketEvent::Trade(_) => None,
            WebsocketEvent::OrderBook(_) => None,
            WebsocketEvent::DayTicker(_) => None,
            WebsocketEvent::DayTickerAll(xs) => Some(xs),
            WebsocketEvent::Kline(_) => None,
            WebsocketEvent::DepthOrderBook(_) => None,
            WebsocketEvent::BookTicker(_) => None,
        }
    }
}

/// The event of the spot feed that an unwrapped value decodes as: the
/// first tag of its order that fits, with the value as payload.
pub open spec fn classify_spec(j: Json) -> Option<(EventTag, Json)> {
    match first_fit(j, spot_order()) {
        Some(t) => Some((t, j)),
        None => None,
    }
}

/// Classifies an unwrapped value of the spot feed; a value that fits no
/// shape gives nothing.
pub fn classify(v: JsonValue) -> (r: Option<WebsocketEvent>)
    ensures
        match r {
            Some(e) => classify_spec(v@) == Some(e.view()),
            None => classify_spec(v@) is None,
        },
{
    let order = [EventTag::DayTickerAll, EventTag::BalanceUpdate, EventTag::DayTicker, EventTag::BookTicker, EventTag::AccountUpdate, EventTag::OrderTrade, EventTag::AggrTrades, EventTag::Trade, EventTag::Kline, EventTag::OrderBook, EventTag::DepthOrderBook];
    assert(order@ =~= spot_order());
    let tag = match first_fit_tag(&v, &order) {
        Some(t) => t,
        None => return None,
    };
    proof {
        lemma_first_fit(v@, order@);
    }
    match tag {
        EventTag::AccountUpdate => Some(WebsocketEvent::AccountUpdate(v)),
        EventTag::BalanceUpdate => Some(WebsocketEvent::BalanceUpdate(v)),
        EventTag::OrderTrade => Some(WebsocketEvent::OrderTrade(v)),
        EventTag::AggrTrades => Some(WebsocketEvent::AggrTrades(v)),
        EventTag::Trade => Some(WebsocketEvent::Trade(v)),
        EventTag::OrderBook => Some(WebsocketEvent::OrderBook(v)),
        EventTag::DayTicker => Some(WebsocketEvent::DayTicker(v)),
        EventTag::DayTickerAll => match v {
            JsonValue::Array(items) => {
                proof {
                    lemma_array_view(items);
                }
                Some(WebsocketEvent::DayTickerAll(items))
            },
            _ => None,
        },
        EventTag::Kline => Some(WebsocketEvent::Kline(v)),
        EventTag::DepthOrderBook => Some(WebsocketEvent::DepthOrderBook(v)),
        EventTag::BookTicker => Some(WebsocketEvent::BookTicker(v)),
        _ => None,
    }
}

/// An event of the derivatives feed.
#[derive(Debug, PartialEq)]
pub enum FuturesWebsocketEvent {
    AccountUpdate(JsonValue),
    OrderTrade(JsonValue),
    AggrTrades(JsonValue),
    Trade(JsonValue),
    OrderBook(JsonValue),
    DayTicker(JsonValue),
    MiniTicker(JsonValue),
    MiniTickerAll(Vec<JsonValue>),
    IndexPrice(JsonValue),
    MarkPrice(JsonValue),
    MarkPriceAll(Vec<JsonValue>),
    DayTickerAll(Vec<JsonValue>),
    Kline(JsonValue),
    ContinuousKline(JsonValue),
    IndexKline(JsonValue),
    Liquidation(JsonValue),
    DepthOrderBook(JsonValue),
    BookTicker(JsonValue),
    UserDataStreamExpiredEvent(JsonValue),
}

impl FuturesWebsocketEvent {
    /// The tag of this event and the model of its payload.
    pub open spec fn view(&self) -> (EventTag, Json) {
        match self {
            FuturesWebsocketEvent::AccountUpdate(x) => (EventTag::AccountUpdate, x@),
            FuturesWebsocketEvent::OrderTrade(x) => (EventTag::FuturesOrderTrade, x@),
            FuturesWebsocketEvent::AggrTrades(x) => (EventTag::AggrTrades, x@),
            FuturesWebsocketEvent::Trade(x) => (EventTag::Trade, x@),
            FuturesWebsocketEvent::OrderBook(x) => (EventTag::OrderBook, x@),
            FuturesWebsocketEvent::DayTicker(x) => (EventTag::DayTicker, x@),
            FuturesWebsocketEvent::MiniTicker(x) => (EventTag::MiniTicker, x@),
            FuturesWebsocketEvent::MiniTickerAll(items) => (EventTag::MiniTickerAll, Json::Array(items_view(items@))),
            FuturesWebsocketEvent::IndexPrice(x) => (EventTag::IndexPrice, x@),
            FuturesWebsocketEvent::MarkPrice(x) => (EventTag::MarkPrice, x@),
            FuturesWebsocketEvent::MarkPriceAll(items) => (EventTag::MarkPriceAll, Json::Array(items_view(items@))),
            FuturesWebsocketEvent::DayTickerAll(items) => (EventTag::DayTickerAll, Json::Array(items_view(items@))),
            FuturesWebsocketEvent::Kline(x) => (EventTag::Kline, x@),
            FuturesWebsocketEvent::ContinuousKline(x) => (EventTag::ContinuousKline, x@),
            FuturesWebsocketEvent::IndexKline(x) => (EventTag::IndexKline, x@),
            FuturesWebsocketEvent::Liquidation(x) => (EventTag::Liquidation, x@),
            FuturesWebsocketEvent::DepthOrderBook(x) => (EventTag::DepthOrderBook, x@),
            FuturesWebsocketEvent::BookTicker(x) => (EventTag::BookTicker, x@),
            FuturesWebsocketEvent::UserDataStreamExpiredEvent(x) => (EventTag::UserDataStreamExpired, x@),
        }
    }

    /// The tag of this event.
    pub fn tag(&self) -> (r: EventTag)
        ensures
            r == self.view().0,
    {
        match self {
            FuturesWebsocketEvent::AccountUpdate(_) => EventTag::AccountUpdate,
            FuturesWebsocketEvent::OrderTrade(_) => EventTag::FuturesOrderTrade,
            FuturesWebsocketEvent::AggrTrades(_) => EventTag::AggrTrades,
            FuturesWebsocketEvent::Trade(_) => EventTag::Trade,
            FuturesWebsocketEvent::OrderBook(_) => EventTag::OrderBook,
            FuturesWebsocketEvent::DayTicker(_) => EventTag::DayTicker,
            FuturesWebsocketEvent::MiniTicker(_) => EventTag::MiniTicker,
            FuturesWebsocketEvent::MiniTickerAll(_) => EventTag::MiniTickerAll,
            FuturesWebsocketEvent::IndexPrice(_) => EventTag::IndexPrice,
            FuturesWebsocketEvent::MarkPrice(_) => EventTag::MarkPrice,
            FuturesWebsocketEvent::MarkPriceAll(_) => EventTag::MarkPriceAll,
            FuturesWebsocketEvent::DayTickerAll(_) => EventTag::DayTickerAll,
            FuturesWebsocketEvent::Kline(_) => EventTag::Kline,
            FuturesWebsocketEvent::ContinuousKline(_) => EventTag::ContinuousKline,
            FuturesWebsocketEvent::IndexKline(_) => EventTag::IndexKline,
            FuturesWebsocketEvent::Liquidation(_) => EventTag::Liquidation,
            FuturesWebsocketEvent::DepthOrderBook(_) => EventTag::DepthOrderBook,
            FuturesWebsocketEvent::BookTicker(_) => EventTag::BookTicker,
            FuturesWebsocketEvent::UserDataStreamExpiredEvent(_) => EventTag::UserDataStreamExpired,
        }
    }

    /// The record that a single-record event carries.
    pub fn record(&self) -> (r: Option<&JsonValue>)
        ensures
            match r {
                Some(x) => element_tag(self.view().0) is None && x@ == self.view().1,
                None => element_tag(self.view().0) is Some,
            },
    {
        match self {
            FuturesWebsocketEvent::AccountUpdate(x) => Some(x),
            FuturesWebsocketEvent::OrderTrade(x) => Some(x),
            FuturesWebsocketEvent::AggrTrades(x) => Some(x),
            FuturesWebsocketEvent::Trade(x) => Some(x),
            FuturesWebsocketEvent::OrderBook(x) => Some(x),
            FuturesWebsocketEvent::DayTicker(x) => Some(x),
            FuturesWebsocketEvent::MiniTicker(x) => Some(x),
            FuturesWebsocketEvent::MiniTickerAll(_) => None,
            FuturesWebsocketEvent::IndexPrice(x) => Some(x),
            FuturesWebsocketEvent::MarkPrice(x) => Some(x),
            FuturesWebsocketEvent::MarkPriceAll(_) => None,
            FuturesWebsocketEvent::DayTickerAll(_) => None,
            FuturesWebsocketEvent::Kline(x) => Some(x),
            FuturesWebsocketEvent::ContinuousKline(x) => Some(x),
            FuturesWebsocketEvent::IndexKline(x) => Some(x),
            FuturesWebsocketEvent::Liquidation(x) => Some(x),
            FuturesWebsocketEvent::DepthOrderBook(x) => Some(x),
            FuturesWebsocketEvent::BookTicker(x) => Some(x),
            FuturesWebsocketEvent::UserDataStreamExpiredEvent(x) => Some(x),
        }
    }

    /// The records that a list event carries.
    pub fn records(&self) -> (r: Option<&Vec<JsonValue>>)
        ensures
            match r {
                Some(xs) => element_tag(self.view().0) is Some && Json::Array(items_view(xs@)) == self.view().1,
                None => element_tag(self.view().0) is None,
            },
    {
        match self {
            FuturesWebsocketEvent::AccountUpdate(_) => None,
            FuturesWebsocketEvent::OrderTrade(_) => None,
            FuturesWebsocketEvent::AggrTrades(_) => None,
            FuturesWebsocketEvent::Trade(_) => None,
            FuturesWebsocketEvent::OrderBook(_) => None,
            FuturesWebsocketEvent::DayTicker(_) => None,
            FuturesWebsocketEvent::MiniTicker(_) => None,
            FuturesWebsocketEvent::MiniTickerAll(xs) => Some(xs),
            FuturesWebsocketEvent::IndexPrice(_) => None,
            FuturesWebsocketEvent::MarkPrice(_) => None,
            FuturesWebsocketEvent::MarkPriceAll(xs) => Some(xs),
            FuturesWebsocketEvent::DayTickerAll(xs) => Some(xs),
            FuturesWebsocketEvent::Kline(_) => None,
            FuturesWebsocketEvent::ContinuousKline(_) => None,
            FuturesWebsocketEvent::IndexKline(_) => None,
            FuturesWebsocketEvent::Liquidation(_) => None,
            FuturesWebsocketEvent::DepthOrderBook(_) => None,
            FuturesWebsocketEvent::BookTicker(_) => None,
            FuturesWebsocketEvent::UserDataStreamExpiredEvent(_) => None,
        }
    }
}

/// The event of the derivatives feed that an unwrapped value decodes as: the
/// first tag of its order that fits, with the value as payload.
pub open spec fn classify_futures_spec(j: Json) -> Option<(EventTag, Json)> {
    match first_fit(j, futures_order()) {
        Some(t) => Some((t, j)),
        None => None,
    }
}

/// Classifies an unwrapped value of the derivatives feed; a value that fits no
/// shape gives nothing.
pub fn classify_futures(v: JsonValue) -> (r: Option<FuturesWebsocketEvent>)
    ensures
        match r {
            Some(e) => classify_futures_spec(v@) == Some(e.view()),
            None => classify_futures_spec(v@) is None,
        },
{
    let order = [EventTag::DayTickerAll, EventTag::DayTicker, EventTag::BookTicker, EventTag::MiniTicker, EventTag::MiniTickerAll, EventTag::AccountUpdate, EventTag::FuturesOrderTrade, EventTag::AggrTrades, EventTag::MarkPrice, EventTag::IndexPrice, EventTag::MarkPriceAll, EventTag::Trade, EventTag::Kline, EventTag::ContinuousKline, EventTag::IndexKline, EventTag::Liquidation, EventTag::OrderBook, EventTag::DepthOrderBook, EventTag::UserDataStreamExpired];
    assert(order@ =~= futures_order());
    let tag = match first_fit_tag(&v, &order) {
        Some(t) => t,
        None => return None,
    };
    proof {
        lemma_first_fit(v@, order@);
    }
    match tag {
        EventTag::AccountUpdate => Some(FuturesWebsocketEvent::AccountUpdate(v)),
        EventTag::FuturesOrderTrade => Some(FuturesWebsocketEvent::OrderTrade(v)),
        EventTag::AggrTrades => Some(FuturesWebsocketEvent::AggrTrades(v)),
        EventTag::Trade => Some(FuturesWebsocketEvent::Trade(v)),
        EventTag::OrderBook => Some(FuturesWebsocketEvent::OrderBook(v)),
        EventTag::DayTicker => Some(FuturesWebsocketEvent::DayTicker(v)),
        EventTag::MiniTicker => Some(FuturesWebsocketEvent::MiniTicker(v)),
        EventTag::MiniTickerAll => match v {
            JsonValue::Array(items) => {
                proof {
                    lemma_array_view(items);
                }
                Some(FuturesWebsocketEvent::MiniTickerAll(items))
            },
            _ => None,
        },
        EventTag::IndexPrice => Some(FuturesWebsocketEvent::IndexPrice(v)),
        EventTag::MarkPrice => Some(FuturesWebsocketEvent::MarkPrice(v)),
        EventTag::MarkPriceAll => match v {
            JsonValue::Array(items) => {
                proof {
                    lemma_array_view(items);
                }
                Some(FuturesWebsocketEvent::MarkPriceAll(items))
            },
            _ => None,
        },
        EventTag::DayTickerAll => match v {
            JsonValue::Array(items) => {
                proof {
                    lemma_array_view(items);
                }
                Some(FuturesWebsocketEvent::DayTickerAll(items))
            },
            _ => None,
        },
        EventTag::Kline => Some(FuturesWebsocketEvent::Kline(v)),
        EventTag::ContinuousKline => Some(FuturesWebsocketEvent::ContinuousKline(v)),
        EventTag::IndexKline => Some(FuturesWebsocketEvent::IndexKline(v)),
        EventTag::Liquidation => Some(FuturesWebsocketEvent::Liquidation(v)),
        EventTag::DepthOrderBook => Some(FuturesWebsocketEvent::DepthOrderBook(v)),
        EventTag::BookTicker => Some(FuturesWebsocketEvent::BookTicker(v)),
        EventTag::UserDataStreamExpired => Some(FuturesWebsocketEvent::UserDataStreamExpiredEvent(v)),
        _ => None,
    }
}

/// A value that fits some shape of the spot order is classified as the
/// first shape it fits, with the value itself as payload; a value that fits
/// none is classified as nothing.
pub proof fn lemma_spot_classification(j: Json)
    ensures
        (exists|i: int| 0 <= i < spot_order().len() && fits_tag(j, #[trigger] spot_order()[i]))
            ==> match classify_spec(j) {
            Some((t, p)) => p == j && fits_tag(j, t) && spot_order().contains(t),
            None => false,
        },
        (forall|i: int| 0 <= i < spot_order().len() ==> !fits_tag(j, #[trigger] spot_order()[i]))
            ==> classify_spec(j) is None,
{
    lemma_first_fit(j, spot_order());
}

/// A value that fits some shape of the derivatives order is classified as the
/// first shape it fits, with the value itself as payload; a value that fits
/// none is classified as nothing.
pub proof fn lemma_futures_classification(j: Json)
    ensures
        (exists|i: int| 0 <= i < futures_order().len() && fits_tag(j, #[trigger] futures_order()[i]))
            ==> match classify_futures_spec(j) {
            Some((t, p)) => p == j && fits_tag(j, t) && futures_order().contains(t),
            None => false,
        },
        (forall|i: int| 0 <= i < futures_order().len() ==> !fits_tag(j, #[trigger] futures_order()[i]))
            ==> classify_futures_spec(j) is None,
{
    lemma_first_fit(j, futures_order());
}

} // verus!
