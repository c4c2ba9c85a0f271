use cryptomkt::api::ErrorData;
use cryptomkt::api::Method;
use cryptomkt::correlator::await_reply;
use cryptomkt::correlator::Requests;
use cryptomkt::dispatcher::route;
use cryptomkt::dispatcher::Routed;
use cryptomkt::dispatcher::Session;
use cryptomkt::error::Error;
use cryptomkt::registry::Subscriptions;
use cryptomkt::request::Params;
use cryptomkt::request::Request;
use cryptomkt::response::APIResult;
use cryptomkt::response::ChannelMessage;
use cryptomkt::response::Response;
use cryptomkt::response::ResultVariant;

#[test]
fn reply_reaches_the_caller_that_sent_the_request() {
    // The caller sends {id: 1, method: "spotBalances"} and registers id 1.
    let request = Request::Default {
        method: Method::SpotBalances,
        id: 1,
        params: Params::Empty,
    };
    assert_eq!(request.id(), 1);
    let mut requests = Requests::new();
    let subscriptions = Subscriptions::new();
    requests.insert(request.id(), 100).unwrap();
    // The server replies {id: 1, result: [...]}.
    let reply = Response::Reply(APIResult {
        id: 1,
        result: ResultVariant::Raw("[{\"currency\":\"BTC\"}]".to_string()),
    });
    let routed = route(&mut requests, &subscriptions, reply.clone());
    match routed {
        Routed::Delivered(d) => {
            assert_eq!(d.id, 1);
            // The caller receives the balance list.
            assert_eq!(await_reply(Some(d.response)), Ok(reply));
        }
        other => panic!("reply was not delivered: {:?}", other),
    }
}

#[test]
fn server_error_reply_surfaces_as_api_error() {
    let mut requests = Requests::new();
    let subscriptions = Subscriptions::new();
    requests.insert(2, 100).unwrap();
    // The server replies {id: 2, error: {code: 1002, message: "..."}}.
    let error = cryptomkt::api::Error {
        error: ErrorData {
            code: 1002,
            message: "authorization required".to_string(),
            description: None,
        },
        id: Some(2),
    };
    let routed = route(&mut requests, &subscriptions, Response::Error(error.clone()));
    match routed {
        Routed::Delivered(d) => {
            assert_eq!(d.id, 2);
            let seen = await_reply(Some(d.response));
            match seen {
                Err(Error::APIResponse(e)) => assert_eq!(e.code(), 1002),
                other => panic!("caller saw {:?}", other),
            }
        }
        other => panic!("error reply was not delivered: {:?}", other),
    }
}

#[test]
fn push_goes_to_the_handler_and_leaves_the_correlator_alone() {
    let mut requests = Requests::new();
    requests.insert(9, 100).unwrap();
    let mut subscriptions = Subscriptions::new();
    subscriptions.insert("trades".to_string(), 3);
    // The server pushes {ch: "trades", update: {...}}.
    let push = Response::Channel(ChannelMessage {
        ch: "trades".to_string(),
        payload: "{\"update\":{}}".to_string(),
    });
    let routed = route(&mut requests, &subscriptions, push.clone());
    match routed {
        Routed::Dispatched(d) => {
            assert_eq!(d.handler, 3);
            assert_eq!(d.response, push);
        }
        other => panic!("push was not dispatched: {:?}", other),
    }
    // No entry in the correlator was touched.
    assert_eq!(requests.len(), 1);
}

#[test]
fn unclaimed_frame_is_unhandled() {
    let mut requests = Requests::new();
    let subscriptions = Subscriptions::new();
    let stray = Response::Unknown {
        id: None,
        raw: "{\"hello\":1}".to_string(),
    };
    let routed = route(&mut requests, &subscriptions, stray.clone());
    assert_eq!(routed, Routed::Unhandled(stray));
}

#[test]
fn reconnect_replays_authentication() {
    // The session authenticates.
    let mut session = Session::new();
    let ack = Response::Reply(APIResult {
        id: 10,
        result: ResultVariant::Success(true),
    });
    session.on_auth_response(ack).unwrap();
    assert!(session.is_auth());
    // The transport closes mid-session: the session drops to unauthenticated
    // and asks for authentication to be replayed.
    let reauth = session.on_transport_failure();
    assert!(reauth);
    assert!(!session.is_auth());
    // After the reconnect succeeds the login is replayed; once it succeeds,
    // authenticated is true again before the next request goes out.
    let ack = Response::Reply(APIResult {
        id: 11,
        result: ResultVariant::Success(true),
    });
    session.on_auth_response(ack).unwrap();
    assert!(session.is_auth());
}

#[test]
fn failed_login_leaves_the_session_unauthenticated() {
    let mut session = Session::new();
    let error = cryptomkt::api::Error {
        error: ErrorData {
            code: 1002,
            message: "authorization required".to_string(),
            description: None,
        },
        id: Some(12),
    };
    let out = session.on_auth_response(Response::Error(error.clone()));
    assert_eq!(out, Err(Error::APIResponse(error)));
    assert!(!session.is_auth());
}

#[test]
fn unacknowledged_login_reply_does_not_authenticate() {
    let mut session = Session::new();
    let reply = Response::Reply(APIResult {
        id: 13,
        result: ResultVariant::Success(false),
    });
    session.on_auth_response(reply).unwrap();
    assert!(!session.is_auth());
}
