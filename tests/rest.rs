use binance_stream::margin::{MarginAccount, SideEffectType};
use binance_stream::request::{Endpoint, Method, Request};
use binance_stream::text::bool_to_string;
use binance_stream::userstream::UserStream;

fn pairs(r: &Request) -> Vec<(String, String)> {
    r.params.iter().map(|p| (p.key.clone(), p.value.clone())).collect()
}

fn p(k: &str, v: &str) -> (String, String) {
    (k.to_string(), v.to_string())
}

#[test]
fn margin_requests() {
    let acct = MarginAccount { is_isolated: true, recv_window: 5000 };
    let r = acct.get_account();
    assert_eq!(r.method, Method::Get);
    assert_eq!(r.endpoint, Endpoint::MarginAccount);
    assert_eq!(r.recv_window, Some(5000));
    assert!(r.params.is_empty());
    assert_eq!(acct.get_isolated_account().endpoint, Endpoint::MarginAccountIsolated);
    let r = acct.get_open_orders("BTCUSDT");
    assert_eq!(pairs(&r), vec![p("isIsolated", "TRUE".to_lowercase().as_str()), p("symbol", "BTCUSDT")]);
    let r = MarginAccount { is_isolated: false, recv_window: 1 }.get_all_open_orders();
    assert_eq!(pairs(&r), vec![p("isIsolated", "false")]);
    let r = acct.get_all_orders("ETHBTC", 500);
    assert_eq!(r.endpoint, Endpoint::MarginAllOrders);
    assert_eq!(pairs(&r), vec![p("isIsolated", "true"), p("limit", "500"), p("symbol", "ETHBTC")]);
    let r = acct.get_order_status("ETHBTC", "my-id");
    assert_eq!(pairs(&r), vec![p("isIsolated", "true"), p("origClientOrderId", "my-id"), p("symbol", "ETHBTC")]);
    let r = acct.cancel_order_with_client_id("ETHBTC", "my-id".to_string());
    assert_eq!(r.method, Method::Delete);
    assert_eq!(r.endpoint, Endpoint::MarginOrder);
    assert_eq!(pairs(&r), vec![p("isIsolated", "true"), p("origClientOrderId", "my-id"), p("symbol", "ETHBTC")]);
}

#[test]
fn user_stream_requests() {
    let us = UserStream { recv_window: 5000, endpoint: Endpoint::SpotUserDataStream };
    let r = us.start();
    assert_eq!(r.method, Method::Post);
    assert_eq!(r.recv_window, None);
    assert!(r.params.is_empty());
    let r = us.keep_alive("key1");
    assert_eq!(r.method, Method::Put);
    assert_eq!(pairs(&r), vec![p("listenKey", "key1")]);
    let r = us.close("key1");
    assert_eq!(r.method, Method::Delete);
    assert_eq!(pairs(&r), vec![p("listenKey", "key1")]);
    assert_eq!(Endpoint::SpotUserDataStream.path(), "/api/v3/userDataStream");
    assert_eq!(Endpoint::MarginOrder.path(), "/sapi/v1/margin/order");
}

#[test]
fn side_effect_names() {
    assert_eq!(SideEffectType::default(), SideEffectType::NoSideEffect);
    assert_eq!(SideEffectType::NoSideEffect.as_string(), "NO_SIDE_EFFECT");
    assert_eq!(SideEffectType::MarginBuy.as_string(), "MARGIN_BUY");
    assert_eq!(SideEffectType::AutoRepay.as_string(), "AUTO_REPAY");
    assert_eq!(bool_to_string(true), "true");
    assert_eq!(bool_to_string(false), "false");
}
