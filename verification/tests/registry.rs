use cryptomkt::registry::Subscriptions;
use cryptomkt::response::ChannelMessage;
use cryptomkt::response::Response;

fn push(ch: &str, payload: &str) -> Response {
    Response::Channel(ChannelMessage {
        ch: ch.to_string(),
        payload: payload.to_string(),
    })
}

#[test]
fn dispatch_invokes_the_registered_handler() {
    let mut registry = Subscriptions::new();
    registry.insert("trades".to_string(), 11);
    let out = registry.intercept(push("trades", "{}"));
    let dispatch = out.expect("a registered channel must dispatch");
    assert_eq!(dispatch.handler, 11);
    assert_eq!(dispatch.response, push("trades", "{}"));
}

#[test]
fn second_registration_replaces_the_first() {
    let mut registry = Subscriptions::new();
    registry.insert("trades".to_string(), 11);
    registry.insert("trades".to_string(), 22);
    assert_eq!(registry.len(), 1);
    // Every later push goes to the second handler; the first receives
    // nothing further.
    let dispatch = registry.intercept(push("trades", "{}")).unwrap();
    assert_eq!(dispatch.handler, 22);
}

#[test]
fn replacement_leaves_other_channels_alone() {
    let mut registry = Subscriptions::new();
    registry.insert("trades".to_string(), 11);
    registry.insert("ticker/1s".to_string(), 12);
    registry.insert("trades".to_string(), 22);
    let dispatch = registry.intercept(push("ticker/1s", "{}")).unwrap();
    assert_eq!(dispatch.handler, 12);
}

#[test]
fn unregistered_channel_is_handed_back() {
    let registry = Subscriptions::new();
    let msg = push("trades", "{}");
    assert_eq!(registry.intercept(msg.clone()), Err(msg));
}

#[test]
fn removal_drops_later_pushes() {
    let mut registry = Subscriptions::new();
    registry.insert("trades".to_string(), 11);
    registry.remove(&"trades".to_string());
    assert_eq!(registry.len(), 0);
    assert!(registry.intercept(push("trades", "{}")).is_err());
}

#[test]
fn income_method_routes_by_method_name() {
    let mut registry = Subscriptions::new();
    registry.insert("spot_order".to_string(), 5);
    let msg = Response::Income {
        method: cryptomkt::api::IncomeMethods::SpotOrder,
        payload: "{}".to_string(),
    };
    let dispatch = registry.intercept(msg).unwrap();
    assert_eq!(dispatch.handler, 5);
}
