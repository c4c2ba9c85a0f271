use cryptomkt::api::ErrorData;
use cryptomkt::correlator::await_reply;
use cryptomkt::correlator::Requests;
use cryptomkt::error::Error;
use cryptomkt::response::APIResult;
use cryptomkt::response::Response;
use cryptomkt::response::ResultVariant;

fn reply(id: i64, text: &str) -> Response {
    Response::Reply(APIResult {
        id,
        result: ResultVariant::Raw(text.to_string()),
    })
}

#[test]
fn resolve_delivers_at_most_once() {
    let mut table = Requests::new();
    table.insert(1, 100).unwrap();
    let first = table.resolve(1, reply(1, "a"));
    let delivery = first.expect("first resolve must deliver");
    assert_eq!(delivery.id, 1);
    assert_eq!(delivery.response, reply(1, "a"));
    // A second resolve with the same id is a no-op.
    let second = table.resolve(1, reply(1, "b"));
    assert!(second.is_err());
    assert_eq!(table.len(), 0);
}

#[test]
fn duplicate_registration_is_rejected() {
    let mut table = Requests::new();
    table.insert(7, 100).unwrap();
    // The id is still pending and unexpired: the second registration must
    // fail loudly rather than silently drop the earlier waiter.
    let second = table.insert(7, 105);
    assert_eq!(second, Err(Error::DuplicateId));
    assert_eq!(table.len(), 1);
    // The earlier waiter is still there and still resolvable.
    assert!(table.resolve(7, reply(7, "late")).is_ok());
}

#[test]
fn expired_id_can_be_registered_again() {
    let mut table = Requests::new();
    table.insert(7, 100).unwrap();
    // 25 seconds later the old entry is past the 20 second horizon.
    assert!(table.insert(7, 125).is_ok());
    assert_eq!(table.len(), 1);
}

#[test]
fn sweep_removes_old_and_keeps_young() {
    let mut table = Requests::new();
    table.insert(1, 100).unwrap();
    table.insert(2, 105).unwrap();
    table.insert(3, 119).unwrap();
    // At second 120 the entry of second 100 is 20 seconds old and goes; the
    // entries of seconds 105 and 119 are younger than 20 seconds and stay.
    table.clear(120);
    assert_eq!(table.len(), 2);
    assert!(table.resolve(1, reply(1, "x")).is_err());
    assert!(table.resolve(2, reply(2, "x")).is_ok());
    assert!(table.resolve(3, reply(3, "x")).is_ok());
}

#[test]
fn sweep_keeps_entry_just_under_horizon() {
    let mut table = Requests::new();
    table.insert(1, 101).unwrap();
    table.clear(120);
    assert_eq!(table.len(), 1);
}

#[test]
fn registration_sweeps_as_side_effect() {
    let mut table = Requests::new();
    table.insert(1, 100).unwrap();
    table.insert(2, 130).unwrap();
    assert_eq!(table.len(), 1);
    assert!(table.resolve(1, reply(1, "x")).is_err());
    assert!(table.resolve(2, reply(2, "x")).is_ok());
}

#[test]
fn await_reply_times_out_without_delivery() {
    assert_eq!(await_reply(None), Err(Error::Timeout));
}

#[test]
fn await_reply_hands_over_the_delivered_message() {
    let msg = reply(4, "payload");
    assert_eq!(await_reply(Some(msg.clone())), Ok(msg));
}

#[test]
fn await_reply_surfaces_a_delivered_server_error() {
    let err = cryptomkt::api::Error {
        error: ErrorData {
            code: 1002,
            message: "authorization required".to_string(),
            description: None,
        },
        id: Some(4),
    };
    let out = await_reply(Some(Response::Error(err.clone())));
    assert_eq!(out, Err(Error::APIResponse(err)));
}

#[test]
fn late_reply_is_discarded_not_redelivered() {
    // A caller registers id 3 and gives up after the timeout window.
    let mut table = Requests::new();
    table.insert(3, 100).unwrap();
    assert_eq!(await_reply(None), Err(Error::Timeout));
    // The reply arrives a second later: the entry is removed and the message
    // goes to the now-dead waiter slot, which drops it. No error surfaces.
    let late = table.resolve(3, reply(3, "late"));
    assert!(late.is_ok());
    assert_eq!(table.len(), 0);
    // Nothing is delivered twice.
    assert!(table.resolve(3, reply(3, "again")).is_err());
}
