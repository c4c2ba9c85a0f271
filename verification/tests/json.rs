use cryptomkt::api::Method;
use cryptomkt::api::Side;
use cryptomkt::json::render_request;
use cryptomkt::request::NewOrder;
use cryptomkt::request::Params;
use cryptomkt::request::Request;

#[test]
fn plain_request_renders_exactly() {
    let request = Request::Default {
        method: Method::SpotBalances,
        id: 1,
        params: Params::Empty,
    };
    assert_eq!(
        render_request(&request),
        "{\"method\":\"spot_balances\",\"id\":1,\"params\":{}}"
    );
}

#[test]
fn channel_request_renders_exactly() {
    let request = Request::ChannelRequest {
        method: Method::Subscribe,
        ch: "trades".to_string(),
        id: 7,
        params: Params::Symbols {
            symbols: vec!["ETHBTC".to_string(), "BTCUSDT".to_string()],
        },
    };
    assert_eq!(
        render_request(&request),
        "{\"method\":\"subscribe\",\"ch\":\"trades\",\"id\":7,\"params\":{\"symbols\":[\"ETHBTC\",\"BTCUSDT\"]}}"
    );
}

#[test]
fn negative_id_renders_with_its_sign() {
    let request = Request::Default {
        method: Method::SpotFees,
        id: -42,
        params: Params::Empty,
    };
    assert_eq!(
        render_request(&request),
        "{\"method\":\"spot_fees\",\"id\":-42,\"params\":{}}"
    );
}

#[test]
fn string_contents_are_escaped() {
    let request = Request::Default {
        method: Method::SpotFee,
        id: 3,
        params: Params::Symbol {
            symbol: "A\"B\\C\nD".to_string(),
        },
    };
    assert_eq!(
        render_request(&request),
        "{\"method\":\"spot_fee\",\"id\":3,\"params\":{\"symbol\":\"A\\\"B\\\\C\\u000aD\"}}"
    );
}

#[test]
fn rendered_frames_parse_back_as_json() {
    let request = Request::ChannelRequest {
        method: Method::Subscribe,
        ch: "orderbook/full".to_string(),
        id: 99,
        params: Params::SymbolsLimit {
            symbols: vec!["ETH\"BTC".to_string()],
            limit: 5,
        },
    };
    let text = render_request(&request);
    let v: serde_json::Value = serde_json::from_str(&text).expect("the frame must be valid JSON");
    assert_eq!(v["method"], "subscribe");
    assert_eq!(v["ch"], "orderbook/full");
    assert_eq!(v["id"], 99);
    assert_eq!(v["params"]["limit"], 5);
    assert_eq!(v["params"]["symbols"][0], "ETH\"BTC");
}

#[test]
fn new_order_renders_every_field() {
    let order = NewOrder {
        client_order_id: "abc123".to_string(),
        symbol: "BTCUSDT".to_string(),
        side: Side::Buy,
        kind: Some(cryptomkt::api::OrderType::Limit),
        time_in_force: None,
        quantity: "0.00111".to_string(),
        price: "61640.13".to_string(),
        stop_price: None,
        expire_time: None,
        strict_validate: None,
        post_only: Some(true),
    };
    let request = Request::Default {
        method: Method::SpotNewOrder,
        id: 4,
        params: Params::NewOrder(order),
    };
    let expected = "{\"method\":\"spot_new_order\",\"id\":4,\"params\":{\"client_order_id\":\"abc123\",\"symbol\":\"BTCUSDT\",\"side\":\"buy\",\"type\":\"limit\",\"time_in_force\":null,\"quantity\":\"0.00111\",\"price\":\"61640.13\",\"stop_price\":null,\"expire_time\":null,\"strict_validate\":null,\"post_only\":true}}";
    assert_eq!(render_request(&request), expected);
}

#[test]
fn login_request_renders_its_signature() {
    let secret = b"SECRET-REDACTED".to_vec();
    let request = Request::login(&secret, &"public-key".to_string());
    let text = render_request(&request);
    let v: serde_json::Value = serde_json::from_str(&text).expect("valid JSON");
    assert_eq!(v["method"], "login");
    assert_eq!(v["params"]["type"], "HS256");
    assert_eq!(v["params"]["api_key"], "public-key");
    let timestamp = v["params"]["timestamp"].as_i64().expect("numeric timestamp");
    let expected = cryptomkt::signing::sign_timestamp(&secret, timestamp);
    assert_eq!(v["params"]["signature"], serde_json::Value::String(expected));
}
