use cryptomkt::api::ErrorData;
use cryptomkt::api::IncomeMethods;
use cryptomkt::api::Method;
use cryptomkt::api::ReportType;
use cryptomkt::api::Side;
use cryptomkt::api::Status;
use cryptomkt::codec::encode_decimal;
use cryptomkt::response::APIResult;
use cryptomkt::response::ChannelMessage;
use cryptomkt::response::Response;
use cryptomkt::response::ResultVariant;
use cryptomkt::response::Subscriptions;

#[test]
fn order() {
    println!("|{:width$?}|", Side::Buy, width = 10);
}

#[test]
fn wire_spellings() {
    assert_eq!(Side::Buy.as_str(), "buy");
    assert_eq!(Side::Sell.as_str(), "sell");
    assert_eq!(Status::PartiallyFilled.as_str(), "partiallyFilled");
    assert_eq!(Status::New.as_str(), "new");
    assert_eq!(ReportType::Replaced.as_str(), "replaced");
    assert_eq!(Method::SpotBalances.as_str(), "spot_balances");
    assert_eq!(Method::Login.as_str(), "login");
    assert_eq!(IncomeMethods::WalletBalanceUpdate.method(), "wallet_balance_update");
}

#[test]
fn error_code_is_exposed() {
    let error = cryptomkt::api::Error {
        error: ErrorData {
            code: 20001,
            message: "insufficient funds".to_string(),
            description: Some("not enough to cover the order".to_string()),
        },
        id: Some(5),
    };
    assert_eq!(error.code(), 20001);
}

#[test]
fn envelope_accessors_follow_the_authoritative_field() {
    let reply = Response::Reply(APIResult {
        id: 8,
        result: ResultVariant::Success(true),
    });
    assert_eq!(reply.id(), Some(8));
    assert_eq!(reply.method(), None);
    assert!(reply.success());

    let push = Response::Channel(ChannelMessage {
        ch: "trades".to_string(),
        payload: "{}".to_string(),
    });
    assert_eq!(push.id(), None);
    assert_eq!(push.method(), Some("trades".to_string()));
    assert!(!push.success());

    let income = Response::Income {
        method: IncomeMethods::SpotOrders,
        payload: "[]".to_string(),
    };
    assert_eq!(income.id(), None);
    assert_eq!(income.method(), Some("spot_orders".to_string()));

    let unknown = Response::Unknown {
        id: Some(3),
        raw: "{}".to_string(),
    };
    assert_eq!(unknown.id(), Some(3));
    assert_eq!(unknown.method(), None);
}

#[test]
fn subscription_listing_is_extracted() {
    let listing = Subscriptions {
        ch: "trades".to_string(),
        subscriptions: vec!["ETHBTC".to_string(), "BTCUSDT".to_string()],
    };
    let reply = Response::Reply(APIResult {
        id: 2,
        result: ResultVariant::Subscriptions(listing.clone()),
    });
    assert_eq!(reply.as_subscriptions(), Ok(listing));
    let plain = Response::Reply(APIResult {
        id: 2,
        result: ResultVariant::Success(true),
    });
    assert_eq!(plain.clone().as_subscriptions(), Err(plain));
}

#[test]
fn wrong_shape_becomes_unexpected_response() {
    let stray = Response::Unknown {
        id: None,
        raw: "{}".to_string(),
    };
    assert_eq!(
        cryptomkt::error::Error::unexpected(stray),
        cryptomkt::error::Error::UnexpectedResponse
    );
}

#[test]
fn api_respose_exposes_only_server_errors() {
    let error = cryptomkt::api::Error {
        error: ErrorData {
            code: 403,
            message: "forbidden".to_string(),
            description: None,
        },
        id: None,
    };
    let wrapped = cryptomkt::error::Error::APIResponse(error.clone());
    assert_eq!(wrapped.api_respose(), Some(&error));
    assert_eq!(cryptomkt::error::Error::Timeout.api_respose(), None);
}

#[test]
fn decimal_encoding_matches_standard_formatting() {
    for n in [0i64, 7, 10, 12345, -1, -120, i64::MAX, i64::MIN] {
        assert_eq!(encode_decimal(n), n.to_string().into_bytes());
    }
}
