//! Outbound requests.
//!
//! A request carries a caller-chosen correlation id — in practice the current
//! time in nanoseconds — a method name, and its parameters. The builders here
//! pin every field of the frame they produce except the id, which is fresh
//! each call. Quantities and prices travel as decimal strings, the form the
//! wire gives them.

use vstd::prelude::*;

use crate::api::Method;
use crate::api::OrderType;
use crate::api::Side;
use crate::api::TimeInForce;
use crate::signing::sign_timestamp;
use crate::signing::spec_signature;

verus! {

/// A new order to place: quantities and prices as decimal strings.
#[derive(Clone, Debug, PartialEq, Eq)]
pub struct NewOrder {
    pub client_order_id: String,
    pub symbol: String,
    pub side: Side,
    pub kind: Option<OrderType>,
    pub time_in_force: Option<TimeInForce>,
    pub quantity: String,
    pub price: String,
    pub stop_price: Option<String>,
    pub expire_time: Option<String>,
    pub strict_validate: Option<bool>,
    pub post_only: Option<bool>,
}

/// The parameters of a request, one variant per parameter shape the venue
/// accepts.
#[derive(Clone, Debug, PartialEq, Eq)]
pub enum Params {
    Login { auth_type: String, api_key: String, timestamp: i64, signature: String },
    Empty,
    Symbol { symbol: String },
    Symbols { symbols: Vec<String> },
    SymbolsLimit { symbols: Vec<String>, limit: i32 },
    WalletBalance { currency: String },
    NewOrder(NewOrder),
    CancelOrder { client_order_id: String },
    ReplaceOrder {
        client_order_id: String,
        new_client_order_id: String,
        quantity: String,
        price: String,
    },
}

/// One outbound frame: a plain request, or one addressed to a channel.
#[derive(Clone, Debug, PartialEq, Eq)]
pub enum Request {
    Default { method: Method, id: i64, params: Params },
    ChannelRequest { method: Method, ch: String, id: i64, params: Params },
}

/// Relies on chrono::Utc::now: the current time in nanoseconds since the
/// Unix epoch, the source of fresh correlation ids; an instant outside the
/// representable nanosecond range yields the largest id.
#[verifier::external_body]
fn fresh_id() -> i64 {
    chrono::Utc::now().timestamp_nanos_opt().unwrap_or(i64::MAX)
}

/// Relies on chrono::Utc::now: the current time in milliseconds since the
/// Unix epoch, the timestamp the login challenge signs.
#[verifier::external_body]
fn now_unix_millis() -> i64 {
    chrono::Utc::now().timestamp_millis()
}

/// Relies on rand::random: a uniformly random 32-bit value.
#[verifier::external_body]
fn random_u32() -> u32 {
    rand::random()
}

/// Whether `c` is an ASCII digit or letter.
pub open spec fn is_id_char(c: char) -> bool {
    (48 <= c as u32 && c as u32 <= 57) || (65 <= c as u32 && c as u32 <= 90) || (97 <= c as u32
        && c as u32 <= 122)
}

/// A fresh random order id: fifteen ASCII alphanumeric characters.
pub fn random_id() -> (r: String)
    ensures
        r@.len() == 15,
        forall|i: int| 0 <= i < r@.len() ==> is_id_char(#[trigger] r@[i]),
{
    let mut out = String::new();
    let mut k: usize = 0;
    while k < 15
        invariant
            out@.len() == k,
            k <= 15,
            forall|i: int| 0 <= i < out@.len() ==> is_id_char(#[trigger] out@[i]),
        decreases 15 - k,
    {
        let d: u8 = (random_u32() % 62) as u8;
        let b: u8 = if d < 10 {
            48 + d
        } else if d < 36 {
            55 + d
        } else {
            61 + d
        };
        out.push(b as char);
        k = k + 1;
    }
    out
}

impl Request {
    /// The correlation id of the frame.
    pub open spec fn spec_id(&self) -> i64 {
        match *self {
            Request::Default { id, .. } => id,
            Request::ChannelRequest { id, .. } => id,
        }
    }

    /// The correlation id of the frame.
    pub fn id(&self) -> (r: i64)
        ensures
            r == self.spec_id(),
    {
        match self {
            Request::Default { id, .. } => *id,
            Request::ChannelRequest { id, .. } => *id,
        }
    }

    /// The login challenge: the key name, the current millisecond timestamp,
    /// and the keyed-hash signature of that timestamp under `secret`.
    pub fn login(secret: &Vec<u8>, public_key: &String) -> (r: Self)
        requires
            secret@.len() < 0x2000000000000000,
        ensures
            (r matches Request::Default {
                method: Method::Login,
                id: _,
                params: Params::Login { auth_type, api_key, timestamp, signature },
            } && auth_type@ == "HS256"@ && api_key@ == public_key@ && signature@
                == spec_signature(secret@, timestamp as int)),
    {
        let timestamp = now_unix_millis();
        let signature = sign_timestamp(secret, timestamp);
        Request::Default {
            method: Method::Login,
            id: fresh_id(),
            params: Params::Login {
                auth_type: "HS256".to_owned(),
                api_key: public_key.clone(),
                timestamp,
                signature,
            },
        }
    }

    /// A subscription request for the channel and the symbols given.
    pub fn subscribe(channel: &str, symbols: Vec<String>) -> (r: Self)
        ensures
            (r matches Request::ChannelRequest {
                method: Method::Subscribe,
                ch,
                id: _,
                params: Params::Symbols { symbols: syms },
            } && ch@ == channel@ && syms == symbols),
    {
        Request::ChannelRequest {
            method: Method::Subscribe,
            ch: channel.to_owned(),
            id: fresh_id(),
            params: Params::Symbols { symbols },
        }
    }

    /// A subscription request for the channel and symbols given, bounded to
    /// `limit` items per update.
    pub fn subscribe_limit(channel: &str, symbols: Vec<String>, limit: i32) -> (r: Self)
        ensures
            (r matches Request::ChannelRequest {
                method: Method::Subscribe,
                ch,
                id: _,
                params: Params::SymbolsLimit { symbols: syms, limit: l },
            } && ch@ == channel@ && syms == symbols && l == limit),
    {
        Request::ChannelRequest {
            method: Method::Subscribe,
            ch: channel.to_owned(),
            id: fresh_id(),
            params: Params::SymbolsLimit { symbols, limit },
        }
    }

    /// A request for the list of active subscriptions on a channel.
    pub fn subscriptions(channel: &str) -> (r: Self)
        ensures
            (r matches Request::ChannelRequest {
                method: Method::Subscriptions,
                ch,
                id: _,
                params: Params::Empty,
            } && ch@ == channel@),
    {
        Request::ChannelRequest {
            method: Method::Subscriptions,
            ch: channel.to_owned(),
            id: fresh_id(),
            params: Params::Empty,
        }
    }

    /// A subscription to the caller's own spot orders.
    pub fn spot_subscribe() -> (r: Self)
        ensures
            (r matches Request::Default {
                method: Method::SpotSubscribe,
                id: _,
                params: Params::Empty,
            }),
    {
        Request::Default { method: Method::SpotSubscribe, id: fresh_id(), params: Params::Empty }
    }

    /// A cancellation of the order named by `client_order_id`.
    pub fn spot_cancel_order(client_order_id: &str) -> (r: Self)
        ensures
            (r matches Request::Default {
                method: Method::SpotCancelOrder,
                id: _,
                params: Params::CancelOrder { client_order_id: c },
            } && c@ == client_order_id@),
    {
        Request::Default {
            method: Method::SpotCancelOrder,
            id: fresh_id(),
            params: Params::CancelOrder { client_order_id: client_order_id.to_owned() },
        }
    }

    /// The end of the caller's spot-order subscription.
    pub fn spot_unsubscribe() -> (r: Self)
        ensures
            (r matches Request::Default {
                method: Method::SpotUnsubscribe,
                id: _,
                params: Params::Empty,
            }),
    {
        Request::Default { method: Method::SpotUnsubscribe, id: fresh_id(), params: Params::Empty }
    }

    /// The placement of a new order.
    pub fn spot_new_order(order: NewOrder) -> (r: Self)
        ensures
            (r matches Request::Default {
                method: Method::SpotNewOrder,
                id: _,
                params: Params::NewOrder(o),
            } && o == order),
    {
        Request::Default {
            method: Method::SpotNewOrder,
            id: fresh_id(),
            params: Params::NewOrder(order),
        }
    }

    /// The replacement of an order by a fresh one with the quantity and price
    /// given; the replacement gets a fresh random order id.
    pub fn spot_replace_order(client_order_id: &str, quantity: String, price: String) -> (r: Self)
        ensures
            (r matches Request::Default {
                method: Method::SpotReplaceOrder,
                id: _,
                params: Params::ReplaceOrder {
                    client_order_id: c,
                    new_client_order_id: n,
                    quantity: q,
                    price: p,
                },
            } && c@ == client_order_id@ && q == quantity && p == price && n@.len() == 15 && forall|
                i: int,
            |
                0 <= i < n@.len() ==> is_id_char(#[trigger] n@[i])),
    {
        Request::Default {
            method: Method::SpotReplaceOrder,
            id: fresh_id(),
            params: Params::ReplaceOrder {
                client_order_id: client_order_id.to_owned(),
                new_client_order_id: random_id(),
                quantity,
                price,
            },
        }
    }

    /// A cancellation of every order the caller has open.
    pub fn spot_cancel_orders() -> (r: Self)
        ensures
            (r matches Request::Default {
                method: Method::SpotCancelOrders,
                id: _,
                params: Params::Empty,
            }),
    {
        Request::Default {
            method: Method::SpotCancelOrders,
            id: fresh_id(),
            params: Params::Empty,
        }
    }

    /// A query for the caller's spot balances.
    pub fn spot_balances() -> (r: Self)
        ensures
            (r matches Request::Default {
                method: Method::SpotBalances,
                id: _,
                params: Params::Empty,
            }),
    {
        Request::Default { method: Method::SpotBalances, id: fresh_id(), params: Params::Empty }
    }

    /// A query for the fees of all markets.
    pub fn spot_fees() -> (r: Self)
        ensures
            (r matches Request::Default { method: Method::SpotFees, id: _, params: Params::Empty }),
    {
        Request::Default { method: Method::SpotFees, id: fresh_id(), params: Params::Empty }
    }

    /// A query for the caller's open orders.
    pub fn spot_get_orders() -> (r: Self)
        ensures
            (r matches Request::Default {
                method: Method::SpotGetOrders,
                id: _,
                params: Params::Empty,
            }),
    {
        Request::Default { method: Method::SpotGetOrders, id: fresh_id(), params: Params::Empty }
    }

    /// A query for the fee of one market.
    pub fn spot_fee(symbol: &str) -> (r: Self)
        ensures
            (r matches Request::Default {
                method: Method::SpotFee,
                id: _,
                params: Params::Symbol { symbol: s },
            } && s@ == symbol@),
    {
        Request::Default {
            method: Method::SpotFee,
            id: fresh_id(),
            params: Params::Symbol { symbol: symbol.to_owned() },
        }
    }

    /// A subscription to the caller's wallet transactions.
    pub fn subscribe_transactions() -> (r: Self)
        ensures
            (r matches Request::Default {
                method: Method::SubscribeTransactions,
                id: _,
                params: Params::Empty,
            }),
    {
        Request::Default {
            method: Method::SubscribeTransactions,
            id: fresh_id(),
            params: Params::Empty,
        }
    }

    /// The end of the caller's transaction subscription.
    pub fn unsubscribe_transactions() -> (r: Self)
        ensures
            (r matches Request::Default {
                method: Method::UnsubscribeTransactions,
                id: _,
                params: Params::Empty,
            }),
    {
        Request::Default {
            method: Method::UnsubscribeTransactions,
            id: fresh_id(),
            params: Params::Empty,
        }
    }

    /// A subscription to the caller's wallet balances.
    pub fn subscribe_wallet_balances() -> (r: Self)
        ensures
            (r matches Request::Default {
                method: Method::SubscribeWalletBalances,
                id: _,
                params: Params::Empty,
            }),
    {
        Request::Default {
            method: Method::SubscribeWalletBalances,
            id: fresh_id(),
            params: Params::Empty,
        }
    }

    /// The end of the caller's wallet-balance subscription.
    pub fn unsubscribe_wallet_balances() -> (r: Self)
        ensures
            (r matches Request::Default {
                method: Method::UnsubscribeWalletBalances,
                id: _,
                params: Params::Empty,
            }),
    {
        Request::Default {
            method: Method::UnsubscribeWalletBalances,
            id: fresh_id(),
            params: Params::Empty,
        }
    }

    /// A query for the balances of every wallet currency.
    pub fn wallet_balances() -> (r: Self)
        ensures
            (r matches Request::Default {
                method: Method::WalletBalances,
                id: _,
                params: Params::Empty,
            }),
    {
        Request::Default { method: Method::WalletBalances, id: fresh_id(), params: Params::Empty }
    }

    /// A query for the balance of one wallet currency.
    pub fn wallet_balance(currency: &str) -> (r: Self)
        ensures
            (r matches Request::Default {
                method: Method::WalletBalance,
                id: _,
                params: Params::WalletBalance { currency: c },
            } && c@ == currency@),
    {
        Request::Default {
            method: Method::WalletBalance,
            id: fresh_id(),
            params: Params::WalletBalance { currency: currency.to_owned() },
        }
    }
}

} // verus!
