use cryptomkt::api::Method;
use cryptomkt::request::NewOrder;
use cryptomkt::request::Params;
use cryptomkt::request::Request;
use cryptomkt::signing::sign_timestamp;
use cryptomkt::text::partial_orderbook_channel;
use cryptomkt::text::ticker_channel;
use cryptomkt::text::top_order_channel;

#[test]
fn subscribe_builds_a_channel_request() {
    let request = Request::subscribe("ticker", vec!["ETHBTC".to_string()]);
    match request {
        Request::ChannelRequest {
            method,
            ch,
            params,
            ..
        } => {
            assert!(matches!(method, Method::Subscribe));
            assert_eq!(ch, "ticker");
            assert_eq!(
                params,
                Params::Symbols {
                    symbols: vec!["ETHBTC".to_string()]
                }
            );
        }
        other => panic!("unexpected request shape: {:?}", other),
    }
}

#[test]
fn simple_builders_carry_their_method() {
    assert!(matches!(
        Request::spot_balances(),
        Request::Default {
            method: Method::SpotBalances,
            params: Params::Empty,
            ..
        }
    ));
    assert!(matches!(
        Request::spot_fees(),
        Request::Default {
            method: Method::SpotFees,
            params: Params::Empty,
            ..
        }
    ));
    assert!(matches!(
        Request::wallet_balances(),
        Request::Default {
            method: Method::WalletBalances,
            params: Params::Empty,
            ..
        }
    ));
    match Request::wallet_balance("BTC") {
        Request::Default {
            method: Method::WalletBalance,
            params: Params::WalletBalance { currency },
            ..
        } => assert_eq!(currency, "BTC"),
        other => panic!("unexpected request shape: {:?}", other),
    }
}

#[test]
fn new_order_request_keeps_the_order() {
    let order = NewOrder {
        client_order_id: "abc123".to_string(),
        symbol: "BTCUSDT".to_string(),
        side: cryptomkt::api::Side::Buy,
        kind: Some(cryptomkt::api::OrderType::Limit),
        time_in_force: None,
        quantity: "0.00111".to_string(),
        price: "61640.13".to_string(),
        stop_price: None,
        expire_time: None,
        strict_validate: None,
        post_only: None,
    };
    match Request::spot_new_order(order.clone()) {
        Request::Default {
            method: Method::SpotNewOrder,
            params: Params::NewOrder(kept),
            ..
        } => assert_eq!(kept, order),
        other => panic!("unexpected request shape: {:?}", other),
    }
}

#[test]
fn replace_order_generates_a_fresh_alphanumeric_id() {
    match Request::spot_replace_order("abc123", "0.5".to_string(), "100".to_string()) {
        Request::Default {
            method: Method::SpotReplaceOrder,
            params:
                Params::ReplaceOrder {
                    client_order_id,
                    new_client_order_id,
                    quantity,
                    price,
                },
            ..
        } => {
            assert_eq!(client_order_id, "abc123");
            assert_eq!(quantity, "0.5");
            assert_eq!(price, "100");
            assert_eq!(new_client_order_id.len(), 15);
            assert!(new_client_order_id.chars().all(|c| c.is_ascii_alphanumeric()));
        }
        other => panic!("unexpected request shape: {:?}", other),
    }
}

#[test]
fn login_signs_its_own_timestamp() {
    let secret = b"SECRET-REDACTED".to_vec();
    match Request::login(&secret, &"public-key".to_string()) {
        Request::Default {
            method: Method::Login,
            params:
                Params::Login {
                    auth_type,
                    api_key,
                    timestamp,
                    signature,
                },
            ..
        } => {
            assert_eq!(auth_type, "HS256");
            assert_eq!(api_key, "public-key");
            assert_eq!(signature, sign_timestamp(&secret, timestamp));
        }
        other => panic!("unexpected request shape: {:?}", other),
    }
}

#[test]
fn signature_matches_the_keyed_hash_of_the_decimal_timestamp() {
    // Cross-check the signature against the cryptography crate called
    // directly: hex(HMAC-SHA256(secret, "1614815872000")).
    let secret = b"SECRET-REDACTED".to_vec();
    let key = ring::hmac::Key::new(ring::hmac::HMAC_SHA256, &secret);
    let expected = hex::encode(ring::hmac::sign(&key, b"1614815872000").as_ref());
    assert_eq!(sign_timestamp(&secret, 1614815872000), expected);
}

#[test]
fn signature_is_hex_and_deterministic() {
    let secret = b"SECRET-REDACTED".to_vec();
    let first = sign_timestamp(&secret, 12345);
    let second = sign_timestamp(&secret, 12345);
    assert_eq!(first, second);
    assert_eq!(first.len(), 64);
    assert!(first.chars().all(|c| c.is_ascii_hexdigit() && !c.is_ascii_uppercase()));
    // A different timestamp signs differently.
    assert_ne!(first, sign_timestamp(&secret, 12346));
}

#[test]
fn negative_timestamp_signs_its_minus_sign() {
    let secret = b"SECRET-REDACTED".to_vec();
    let key = ring::hmac::Key::new(ring::hmac::HMAC_SHA256, &secret);
    let expected = hex::encode(ring::hmac::sign(&key, b"-5").as_ref());
    assert_eq!(sign_timestamp(&secret, -5), expected);
}

#[test]
fn channel_names_are_assembled_exactly() {
    assert_eq!(ticker_channel("1s"), "ticker/1s");
    assert_eq!(top_order_channel("500ms"), "orderbook/top/500ms");
    assert_eq!(partial_orderbook_channel("D5", "100ms"), "orderbook/D5/100ms");
}
