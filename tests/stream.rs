use binance_stream::endpoint::{Config, FuturesMarket, FuturesWebsocketAPI, WebsocketAPI, join_topics};
use binance_stream::envelope::{decode_futures, decode_spot, unwrap_futures_once, unwrap_spot_once};
use binance_stream::errors::{BinanceContent, BinanceContentError, Error};
use binance_stream::events::{EventTag, FuturesWebsocketEvent, WebsocketEvent, classify, first_fit_tag};
use binance_stream::json::JsonValue;
use binance_stream::session::{
    EventHandler, Frame, FuturesWebSockets, WebSockets, FUTURES_DEAD_AFTER, SPOT_DEAD_AFTER,
};
use binance_stream::text::{str_eq, topic_symbol};

struct Recorder<E> {
    events: Vec<E>,
    fail: bool,
}

impl<E> EventHandler<E> for Recorder<E> {
    fn handle(&mut self, event: E) -> Result<(), String> {
        self.events.push(event);
        if self.fail {
            Err("handler refused".to_string())
        } else {
            Ok(())
        }
    }
}

fn spot() -> WebSockets<Recorder<WebsocketEvent>, u32> {
    WebSockets::new(Recorder { events: Vec::new(), fail: false })
}

fn futures() -> FuturesWebSockets<Recorder<FuturesWebsocketEvent>, u32> {
    FuturesWebSockets::new(Recorder { events: Vec::new(), fail: false })
}

const TRADE: &str = r#"{"e":"trade","E":123,"s":"BNBBTC","t":12345,"p":"0.001","q":"100","b":88,"a":50,"T":123456785,"m":true,"M":true}"#;

const TICKER_FIELDS: &str = r#""e":"24hrTicker","E":123456789,"s":"BTCUSDT","p":"0.0015","P":"250.00","w":"0.0018","x":"0.0009","c":"0.0025","Q":"10","b":"0.0024","B":"10","a":"0.0026","A":"100","o":"0.0010","h":"0.0025","l":"0.0010","v":"10000","q":"18","O":0,"C":86400000,"F":0,"L":18150,"n":18151"#;

fn text_of(v: Option<&JsonValue>) -> Option<&str> {
    v.and_then(|x| x.as_str())
}

#[test]
fn injected_trade_is_recorded_once_with_its_fields() {
    let mut ws = spot();
    assert!(ws.test_handle_msg(TRADE).is_ok());
    assert_eq!(ws.handler.events.len(), 1);
    match &ws.handler.events[0] {
        WebsocketEvent::Trade(t) => {
            assert_eq!(text_of(t.get("s")), Some("BNBBTC"));
            assert_eq!(text_of(t.get("e")), Some("trade"));
            assert_eq!(t.get("E").and_then(|x| x.as_u64()), Some(123));
            assert_eq!(t.get("t").and_then(|x| x.as_u64()), Some(12345));
            assert_eq!(text_of(t.get("p")), Some("0.001"));
            assert_eq!(text_of(t.get("q")), Some("100"));
            assert_eq!(t.get("m").and_then(|x| x.as_bool()), Some(true));
        }
        other => panic!("unexpected event {:?}", other),
    }
}

#[test]
fn unknown_shape_is_dropped_without_error() {
    let mut ws = spot();
    assert_eq!(ws.test_handle_msg(r#"{"result":null,"id":1}"#), Ok(()));
    assert_eq!(ws.test_handle_msg(r#"{"e":"trade","E":1}"#), Ok(()));
    assert!(ws.handler.events.is_empty());
    let mut fw = futures();
    assert_eq!(fw.test_handle_msg(r#"{"id":7}"#), Ok(()));
    assert!(fw.handler.events.is_empty());
}

#[test]
fn malformed_text_is_a_decode_error() {
    let mut ws = spot();
    assert_eq!(ws.test_handle_msg("{not json"), Err(Error::Json));
    assert!(ws.handler.events.is_empty());
    assert!(matches!(decode_futures("[1,"), Err(Error::Json)));
}

#[test]
fn multi_stream_envelope_injects_symbol() {
    let mut ws = spot();
    let msg = format!(r#"{{"stream":"btcusdt@ticker","data":{{{}}}}}"#, TICKER_FIELDS);
    assert!(ws.test_handle_msg(&msg).is_ok());
    assert_eq!(ws.handler.events.len(), 1);
    match &ws.handler.events[0] {
        WebsocketEvent::DayTicker(t) => {
            assert_eq!(text_of(t.get("symbol")), Some("BTCUSDT"));
            assert_eq!(text_of(t.get("c")), Some("0.0025"));
        }
        other => panic!("unexpected event {:?}", other),
    }
}

#[test]
fn spot_envelope_overwrites_symbol_and_keeps_other_fields() {
    let v = decode_spot(r#"{"stream":"ethbtc@aggTrade","data":{"e":"aggTrade","E":1,"s":"ETHBTC","a":2,"p":"1","q":"1","f":3,"l":4,"T":5,"m":false,"M":true,"symbol":"x"}}"#);
    match v {
        Ok(Some(WebsocketEvent::AggrTrades(t))) => {
            assert_eq!(text_of(t.get("symbol")), Some("ETHBTC"));
            assert_eq!(t.get("f").and_then(|x| x.as_u64()), Some(3));
        }
        other => panic!("unexpected {:?}", other),
    }
}

#[test]
fn spot_envelope_with_non_object_data_is_classified_whole() {
    let v = JsonValue::Object(vec![
        ("stream".to_string(), JsonValue::Str("a@b".to_string())),
        ("data".to_string(), JsonValue::Array(vec![])),
    ]);
    let back = unwrap_spot_once(v);
    assert!(matches!(back, Err(JsonValue::Object(_))));
}

#[test]
fn derivatives_envelope_without_stream_is_unwrapped() {
    let mut fw = futures();
    let msg = r#"{"data":{"e":"markPriceUpdate","E":1562305380000,"s":"BTCUSDT","p":"11794.15","i":"11784.62","P":"11784.25","r":"0.00038167","T":1562306400000}}"#;
    assert!(fw.test_handle_msg(msg).is_ok());
    assert_eq!(fw.handler.events.len(), 1);
    match &fw.handler.events[0] {
        FuturesWebsocketEvent::MarkPrice(m) => {
            assert_eq!(text_of(m.get("s")), Some("BTCUSDT"));
            assert!(m.get("symbol").is_none());
        }
        other => panic!("unexpected event {:?}", other),
    }
    let index = decode_futures(r#"{"e":"indexPriceUpdate","E":1591261236000,"i":"BTCUSD","p":"9636.57860000"}"#);
    match index {
        Ok(Some(FuturesWebsocketEvent::IndexPrice(_))) => {}
        other => panic!("unexpected event {:?}", other),
    }
    let inner = unwrap_futures_once(JsonValue::Object(vec![("data".to_string(), JsonValue::UInt(5))]));
    assert_eq!(inner, Ok(JsonValue::UInt(5)));
}

#[test]
fn list_of_tickers_is_day_ticker_all() {
    let msg = format!("[{{{}}},{{{}}}]", TICKER_FIELDS, TICKER_FIELDS);
    match decode_spot(&msg) {
        Ok(Some(WebsocketEvent::DayTickerAll(v))) => assert_eq!(v.len(), 2),
        other => panic!("unexpected {:?}", other),
    }
    match decode_futures(&msg) {
        Ok(Some(FuturesWebsocketEvent::DayTickerAll(v))) => assert_eq!(v.len(), 2),
        other => panic!("unexpected {:?}", other),
    }
}

#[test]
fn shapes_are_tried_in_order() {
    let expired = r#"{"e":"listenKeyExpired","E":1576653824250}"#;
    assert!(matches!(decode_futures(expired), Ok(Some(FuturesWebsocketEvent::UserDataStreamExpiredEvent(_)))));
    assert!(matches!(decode_spot(expired), Ok(None)));
    let book = r#"{"lastUpdateId":160,"bids":[["0.0024","10"]],"asks":[["0.0026","100"]]}"#;
    assert!(matches!(decode_spot(book), Ok(Some(WebsocketEvent::OrderBook(_)))));
    let balance = r#"{"e":"balanceUpdate","E":1573200697110,"a":"BTC","d":"100.00000000","T":1573200697068}"#;
    assert!(matches!(decode_spot(balance), Ok(Some(WebsocketEvent::BalanceUpdate(_)))));
    let book_ticker = r#"{"u":400900217,"s":"BNBUSDT","b":"25.35190000","B":"31.21000000","a":"25.36520000","A":"40.66000000"}"#;
    assert!(matches!(decode_spot(book_ticker), Ok(Some(WebsocketEvent::BookTicker(_)))));
    let kline = r#"{"e":"kline","E":1,"s":"BNBBTC","k":{"t":1}}"#;
    assert!(matches!(decode_spot(kline), Ok(Some(WebsocketEvent::Kline(_)))));
    let negative_id = r#"{"e":"executionReport","E":1,"s":"ETHBTC","c":"x","S":"BUY","o":"LIMIT","f":"GTC","q":"1","p":"1","P":"0","F":"0","C":"","x":"NEW","X":"NEW","r":"NONE","i":4293153,"l":"0","z":"0","L":"0","n":"0","T":1,"t":-1,"m":false,"M":false}"#;
    assert!(matches!(decode_spot(negative_id), Ok(Some(WebsocketEvent::OrderTrade(_)))));
    let empty = "[]";
    assert!(matches!(decode_spot(empty), Ok(Some(WebsocketEvent::DayTickerAll(_)))));
    let float_time = r#"{"e":"trade","E":1.5,"s":"BNBBTC","t":1,"p":"1","q":"1","b":1,"a":1,"T":1,"m":true,"M":true}"#;
    assert!(matches!(decode_spot(float_time), Ok(None)));
}

#[test]
fn first_fit_tag_picks_the_first_match() {
    let v = JsonValue::Object(vec![
        ("e".to_string(), JsonValue::Str("x".to_string())),
        ("E".to_string(), JsonValue::UInt(1)),
    ]);
    assert_eq!(first_fit_tag(&v, &[EventTag::Trade, EventTag::UserDataStreamExpired]), Some(EventTag::UserDataStreamExpired));
    assert_eq!(first_fit_tag(&v, &[EventTag::Trade]), None);
    assert!(classify(JsonValue::Null).is_none());
}

#[test]
fn handler_error_is_fatal() {
    let mut ws = WebSockets::<_, u32>::new(Recorder { events: Vec::new(), fail: true });
    assert_eq!(ws.test_handle_msg(TRADE), Err(Error::Handler("handler refused".to_string())));
    assert_eq!(ws.handler.events.len(), 1);
}

#[test]
fn spot_loop_dies_after_three_timeouts() {
    assert_eq!(SPOT_DEAD_AFTER, 3);
    let mut ws = spot();
    ws.attach(1);
    assert_eq!(ws.on_read_failed(true), Ok(()));
    assert_eq!(ws.on_read_failed(true), Ok(()));
    assert_eq!(ws.watchdog.missed, 2);
    assert_eq!(ws.on_read_failed(true), Err(Error::LoopDead));
}

#[test]
fn futures_loop_dies_after_ten_timeouts() {
    assert_eq!(FUTURES_DEAD_AFTER, 10);
    let mut fw = futures();
    fw.attach(1);
    for _ in 0..9 {
        assert_eq!(fw.on_read_failed(true), Ok(()));
    }
    assert_eq!(fw.on_read_failed(true), Err(Error::LoopDead));
}

#[test]
fn pong_and_text_reset_the_watchdog() {
    let mut ws = spot();
    ws.attach(1);
    assert_eq!(ws.on_read_failed(true), Ok(()));
    assert_eq!(ws.on_read_failed(true), Ok(()));
    assert_eq!(ws.on_frame(Frame::Pong(vec![])), Ok(None));
    assert_eq!(ws.watchdog.missed, 0);
    assert_eq!(ws.on_read_failed(true), Ok(()));
    assert_eq!(ws.on_read_failed(true), Ok(()));
    assert_eq!(ws.on_frame(Frame::Text(TRADE.to_string())), Ok(None));
    assert_eq!(ws.watchdog.missed, 0);
    assert_eq!(ws.on_read_failed(true), Ok(()));
    assert_eq!(ws.on_read_failed(true), Ok(()));
    assert_eq!(ws.on_read_failed(true), Err(Error::LoopDead));
}

#[test]
fn ping_asks_for_one_pong_with_its_payload() {
    let mut ws = spot();
    ws.attach(1);
    assert_eq!(ws.on_frame(Frame::Ping(vec![1, 2, 3])), Ok(Some(vec![1, 2, 3])));
    assert_eq!(ws.on_pong_written(true), Ok(()));
    assert_eq!(ws.on_pong_written(false), Err(Error::PongFailed));
    assert_eq!(ws.on_frame(Frame::Binary(vec![9])), Ok(None));
}

#[test]
fn failed_probe_and_close_end_the_loop() {
    let mut ws = spot();
    ws.attach(1);
    assert_eq!(ws.on_read_failed(false), Err(Error::ProbeFailed));
    assert_eq!(ws.watchdog.missed, 0);
    assert_eq!(
        ws.on_frame(Frame::Close(Some("bye".to_string()))),
        Err(Error::Disconnected(Some("bye".to_string())))
    );
}

#[test]
fn disconnect_needs_an_open_connection() {
    let mut ws = spot();
    assert_eq!(ws.disconnect(), Err(Error::NotConnected));
    assert_eq!(ws.begin_iteration(false), Err(Error::NotConnected));
    ws.attach(42);
    assert_eq!(ws.begin_iteration(false), Ok(()));
    assert_eq!(ws.disconnect(), Ok(42));
    assert!(ws.socket.is_none());
    assert_eq!(ws.begin_iteration(false), Err(Error::NotConnected));
    assert_eq!(ws.disconnect(), Err(Error::NotConnected));
    let mut fw = futures();
    assert_eq!(fw.disconnect(), Err(Error::NotConnected));
}

#[test]
fn stop_request_ends_the_loop() {
    let mut ws = spot();
    ws.attach(1);
    assert_eq!(ws.begin_iteration(true), Err(Error::Stopped));
}

#[test]
fn endpoint_urls() {
    assert_eq!(WebsocketAPI::Default.params("bnbbtc@trade"), "wss://stream.binance.com:9443/ws/bnbbtc@trade");
    assert_eq!(
        WebsocketAPI::MultiStream.params("a@trade/b@trade"),
        "wss://stream.binance.com:9443/stream?streams=a@trade/b@trade"
    );
    assert_eq!(WebsocketAPI::Custom("wss://host/ws".to_string()).params("x"), "wss://host/ws/x");
    assert_eq!(
        FuturesWebsocketAPI::Default.params(FuturesMarket::USDM, "btcusdt@markPrice"),
        "wss://fstream.binance.com/ws/btcusdt@markPrice"
    );
    assert_eq!(
        FuturesWebsocketAPI::MultiStream.params(FuturesMarket::COINM, "a/b"),
        "wss://dstream.binance.com/stream?streams=a/b"
    );
    assert_eq!(
        FuturesWebsocketAPI::Default.params(FuturesMarket::Vanilla, "x"),
        "wss://vstream.binance.com/ws/x"
    );
    assert_eq!(FuturesWebsocketAPI::Custom("wss://h".to_string()).params(FuturesMarket::USDM, "y"), "wss://h/y");
}

#[test]
fn join_topics_with_slash() {
    assert_eq!(join_topics(&[]), "");
    assert_eq!(join_topics(&["a".to_string()]), "a");
    assert_eq!(join_topics(&["a".to_string(), "b".to_string(), "c".to_string()]), "a/b/c");
}

#[test]
fn connect_targets() {
    let ws = spot();
    let t = ws.connect("bnbbtc@depth").unwrap();
    assert_eq!(t.host, "stream.binance.com");
    assert_eq!(t.port, 9443);
    assert_eq!(t.url, "wss://stream.binance.com:9443/ws/bnbbtc@depth");
    let m = ws.connect_multiple_streams(&["a@trade".to_string(), "b@trade".to_string()]).unwrap();
    assert_eq!(m.url, "wss://stream.binance.com:9443/stream?streams=a@trade/b@trade");
    let fw = futures();
    let f = fw.connect(FuturesMarket::USDM, "btcusdt@aggTrade").unwrap();
    assert_eq!(f.host, "fstream.binance.com");
    assert_eq!(f.port, 443);
    let bad = Config { ws_endpoint: "not a url".to_string() };
    assert_eq!(ws.connect_with_config("x", &bad), Err(Error::UrlParse));
    let hostless = Config { ws_endpoint: "mailto:someone".to_string() };
    assert_eq!(fw.connect_with_config(FuturesMarket::USDM, "x", &hostless), Err(Error::MissingHost));
    let custom = Config { ws_endpoint: "wss://example.org:8443/ws".to_string() };
    let c = ws.connect_with_config("x", &custom).unwrap();
    assert_eq!(c.url, "wss://example.org:8443/ws/x");
    assert_eq!(c.host, "example.org");
    assert_eq!(c.port, 8443);
}

#[test]
fn topic_symbol_and_str_eq() {
    assert_eq!(topic_symbol("btcusdt@ticker"), "btcusdt");
    assert_eq!(topic_symbol("plain"), "plain");
    assert_eq!(topic_symbol("@x"), "");
    assert!(str_eq("abc", "abc"));
    assert!(!str_eq("abc", "abd"));
    assert!(!str_eq("ab", "abc"));
}

#[test]
fn json_field_operations() {
    let v = JsonValue::Object(vec![("a".to_string(), JsonValue::UInt(1))]);
    let v = v.with_field("b".to_string(), JsonValue::Bool(true));
    let v = v.with_field("a".to_string(), JsonValue::Int(-1));
    assert_eq!(v.get("a"), Some(&JsonValue::Int(-1)));
    assert_eq!(v.get("b"), Some(&JsonValue::Bool(true)));
    assert!(v.is_object());
    assert_eq!(v.take_field("b"), Some(JsonValue::Bool(true)));
    assert_eq!(JsonValue::Null.with_field("a".to_string(), JsonValue::Null), JsonValue::Null);
}

#[test]
fn error_bodies_decode() {
    let plain = JsonValue::Object(vec![
        ("code".to_string(), JsonValue::Int(-1121)),
        ("msg".to_string(), JsonValue::Str("Invalid symbol.".to_string())),
    ]);
    let c = BinanceContent::from_json(plain);
    assert_eq!(
        c,
        Some(BinanceContent::Error(BinanceContentError { code: -1121, msg: "Invalid symbol.".to_string() }))
    );
    let e = Error::from_content(c.unwrap());
    assert!(e.cancel_replace().is_none());
    let report = JsonValue::Object(vec![
        ("code".to_string(), JsonValue::Int(-2022)),
        ("msg".to_string(), JsonValue::Str("Order cancel-replace failed.".to_string())),
        ("data".to_string(), JsonValue::Object(vec![("cancelResult".to_string(), JsonValue::Str("SUCCESS".to_string()))])),
    ]);
    let e = Error::from_content(BinanceContent::from_json(report).unwrap());
    let data = e.cancel_replace().unwrap();
    assert_eq!(data.get("cancelResult").and_then(|x| x.as_str()), Some("SUCCESS"));
    let out_of_range = JsonValue::Object(vec![
        ("code".to_string(), JsonValue::UInt(40000)),
        ("msg".to_string(), JsonValue::Str("m".to_string())),
    ]);
    assert_eq!(BinanceContent::from_json(out_of_range), None);
}
