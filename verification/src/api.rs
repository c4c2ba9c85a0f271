//! Plain data carried by the wire protocol: order attributes, request method
//! names, push-notification method names, and the server's structured error.

use vstd::prelude::*;

verus! {

/// Trade side of an order.
#[derive(Clone, Copy, Debug, Hash, PartialEq, Eq, Structural)]
pub enum Side {
    Buy,
    Sell,
}

impl Side {
    /// The wire spelling of the side.
    pub open spec fn spec_str(&self) -> Seq<char> {
        match *self {
            Side::Buy => "buy"@,
            Side::Sell => "sell"@,
        }
    }

    /// The wire spelling of the side.
    pub fn as_str(&self) -> (r: &'static str)
        ensures
            r@ == self.spec_str(),
    {
        match self {
            Side::Buy => "buy",
            Side::Sell => "sell",
        }
    }
}

/// Kind of execution report attached to an order update.
#[derive(Clone, Copy, Debug, Hash, PartialEq, Eq, Structural)]
pub enum ReportType {
    Status,
    New,
    Canceled,
    Expired,
    Suspended,
    Trade,
    Replaced,
}

impl ReportType {
    /// The wire spelling of the report type.
    pub open spec fn spec_str(&self) -> Seq<char> {
        match *self {
            ReportType::Status => "status"@,
            ReportType::New => "new"@,
            ReportType::Canceled => "canceled"@,
            ReportType::Expired => "expired"@,
            ReportType::Suspended => "suspended"@,
            ReportType::Trade => "trade"@,
            ReportType::Replaced => "replaced"@,
        }
    }

    /// The wire spelling of the report type.
    pub fn as_str(&self) -> (r: &'static str)
        ensures
            r@ == self.spec_str(),
    {
        match self {
            ReportType::Status => "status",
            ReportType::New => "new",
            ReportType::Canceled => "canceled",
            ReportType::Expired => "expired",
            ReportType::Suspended => "suspended",
            ReportType::Trade => "trade",
            ReportType::Replaced => "replaced",
        }
    }
}

/// Execution style of an order.
#[derive(Clone, Copy, Debug, Hash, PartialEq, Eq, Structural)]
pub enum OrderType {
    Limit,
    Market,
    StopLimit,
    StopMarket,
}

impl OrderType {
    /// The wire spelling of the order type.
    pub open spec fn spec_str(&self) -> Seq<char> {
        match *self {
            OrderType::Limit => "limit"@,
            OrderType::Market => "market"@,
            OrderType::StopLimit => "stopLimit"@,
            OrderType::StopMarket => "stopMarket"@,
        }
    }

    /// The wire spelling of the order type.
    pub fn as_str(&self) -> (r: &'static str)
        ensures
            r@ == self.spec_str(),
    {
        match self {
            OrderType::Limit => "limit",
            OrderType::Market => "market",
            OrderType::StopLimit => "stopLimit",
            OrderType::StopMarket => "stopMarket",
        }
    }
}

/// Lifecycle state of an order.
#[derive(Clone, Copy, Debug, Hash, PartialEq, Eq, Structural)]
pub enum Status {
    New,
    Suspended,
    PartiallyFilled,
    Filled,
    Canceled,
    Expired,
}

impl Status {
    /// The wire spelling of the status.
    pub open spec fn spec_str(&self) -> Seq<char> {
        match *self {
            Status::New => "new"@,
            Status::Suspended => "suspended"@,
            Status::PartiallyFilled => "partiallyFilled"@,
            Status::Filled => "filled"@,
            Status::Canceled => "canceled"@,
            Status::Expired => "expired"@,
        }
    }

    /// The wire spelling of the status.
    pub fn as_str(&self) -> (r: &'static str)
        ensures
            r@ == self.spec_str(),
    {
        match self {
            Status::New => "new",
            Status::Suspended => "suspended",
            Status::PartiallyFilled => "partiallyFilled",
            Status::Filled => "filled",
            Status::Canceled => "canceled",
            Status::Expired => "expired",
        }
    }
}

/// How long an order stays active before it is executed or expires.
#[derive(Clone, Copy, Debug, Hash, PartialEq, Eq, Structural)]
pub enum TimeInForce {
    GTC,
    IOC,
    FOK,
    Day,
    GTD,
}

impl TimeInForce {
    /// The wire spelling of the time-in-force instruction.
    pub open spec fn spec_str(&self) -> Seq<char> {
        match *self {
            TimeInForce::GTC => "GTC"@,
            TimeInForce::IOC => "IOC"@,
            TimeInForce::FOK => "FOK"@,
            TimeInForce::Day => "Day"@,
            TimeInForce::GTD => "GTD"@,
        }
    }

    /// The wire spelling of the time-in-force instruction.
    pub fn as_str(&self) -> (r: &'static str)
        ensures
            r@ == self.spec_str(),
    {
        match self {
            TimeInForce::GTC => "GTC",
            TimeInForce::IOC => "IOC",
            TimeInForce::FOK => "FOK",
            TimeInForce::Day => "Day",
            TimeInForce::GTD => "GTD",
        }
    }
}

/// The method of an outbound request, as named by the venue's API.
#[derive(Clone, Copy, Debug, Hash, PartialEq, Eq, Structural)]
pub enum Method {
    Subscribe,
    Unsubscribe,
    Subscriptions,
    SpotSubscribe,
    SpotGetOrders,
    SpotNewOrder,
    SpotUnsubscribe,
    SpotReplaceOrder,
    SpotCancelOrders,
    SpotCancelOrder,
    SpotBalances,
    SpotFees,
    SpotFee,
    SubscribeTransactions,
    UnsubscribeTransactions,
    SubscribeWalletBalances,
    UnsubscribeWalletBalances,
    WalletBalances,
    WalletBalance,
    GetTransactions,
    Login,
}

impl Method {
    /// The wire spelling of the method, snake case as the venue expects it.
    pub open spec fn spec_str(&self) -> Seq<char> {
        match *self {
            Method::Subscribe => "subscribe"@,
            Method::Unsubscribe => "unsubscribe"@,
            Method::Subscriptions => "subscriptions"@,
            Method::SpotSubscribe => "spot_subscribe"@,
            Method::SpotGetOrders => "spot_get_orders"@,
            Method::SpotNewOrder => "spot_new_order"@,
            Method::SpotUnsubscribe => "spot_unsubscribe"@,
            Method::SpotReplaceOrder => "spot_replace_order"@,
            Method::SpotCancelOrders => "spot_cancel_orders"@,
            Method::SpotCancelOrder => "spot_cancel_order"@,
            Method::SpotBalances => "spot_balances"@,
            Method::SpotFees => "spot_fees"@,
            Method::SpotFee => "spot_fee"@,
            Method::SubscribeTransactions => "subscribe_transactions"@,
            Method::UnsubscribeTransactions => "unsubscribe_transactions"@,
            Method::SubscribeWalletBalances => "subscribe_wallet_balances"@,
            Method::UnsubscribeWalletBalances => "unsubscribe_wallet_balances"@,
            Method::WalletBalances => "wallet_balances"@,
            Method::WalletBalance => "wallet_balance"@,
            Method::GetTransactions => "get_transactions"@,
            Method::Login => "login"@,
        }
    }

    /// The wire spelling of the method, snake case as the venue expects it.
    pub fn as_str(&self) -> (r: &'static str)
        ensures
            r@ == self.spec_str(),
    {
        match self {
            Method::Subscribe => "subscribe",
            Method::Unsubscribe => "unsubscribe",
            Method::Subscriptions => "subscriptions",
            Method::SpotSubscribe => "spot_subscribe",
            Method::SpotGetOrders => "spot_get_orders",
            Method::SpotNewOrder => "spot_new_order",
            Method::SpotUnsubscribe => "spot_unsubscribe",
            Method::SpotReplaceOrder => "spot_replace_order",
            Method::SpotCancelOrders => "spot_cancel_orders",
            Method::SpotCancelOrder => "spot_cancel_order",
            Method::SpotBalances => "spot_balances",
            Method::SpotFees => "spot_fees",
            Method::SpotFee => "spot_fee",
            Method::SubscribeTransactions => "subscribe_transactions",
            Method::UnsubscribeTransactions => "unsubscribe_transactions",
            Method::SubscribeWalletBalances => "subscribe_wallet_balances",
            Method::UnsubscribeWalletBalances => "unsubscribe_wallet_balances",
            Method::WalletBalances => "wallet_balances",
            Method::WalletBalance => "wallet_balance",
            Method::GetTransactions => "get_transactions",
            Method::Login => "login",
        }
    }
}

/// Code and text of a structured error returned by the server.
#[derive(Clone, Debug, PartialEq, Eq)]
pub struct ErrorData {
    pub code: i32,
    pub message: String,
    pub description: Option<String>,
}

/// A server error frame: the structured error plus the id of the request it
/// answers, when it answers one.
#[derive(Clone, Debug, PartialEq, Eq)]
pub struct Error {
    pub error: ErrorData,
    pub id: Option<i64>,
}

impl Error {
    /// The numeric error code the server attached.
    pub fn code(&self) -> (r: i32)
        ensures
            r == self.error.code,
    {
        self.error.code
    }
}

/// The method of an unsolicited server-to-client message.
#[derive(Clone, Copy, Debug, PartialEq, Eq, Structural)]
pub enum IncomeMethods {
    SpotOrder,
    SpotOrders,
    TransactionUpdate,
    WalletBalances,
    WalletBalanceUpdate,
}

impl IncomeMethods {
    /// The wire spelling of the inbound method.
    pub open spec fn method_spec(&self) -> Seq<char> {
        match *self {
            IncomeMethods::SpotOrder => "spot_order"@,
            IncomeMethods::SpotOrders => "spot_orders"@,
            IncomeMethods::TransactionUpdate => "transaction_update"@,
            IncomeMethods::WalletBalances => "wallet_balances"@,
            IncomeMethods::WalletBalanceUpdate => "wallet_balance_update"@,
        }
    }

    /// The wire spelling of the inbound method.
    pub fn method(&self) -> (r: &'static str)
        ensures
            r@ == self.method_spec(),
    {
        match self {
            IncomeMethods::SpotOrder => "spot_order",
            IncomeMethods::SpotOrders => "spot_orders",
            IncomeMethods::TransactionUpdate => "transaction_update",
            IncomeMethods::WalletBalances => "wallet_balances",
            IncomeMethods::WalletBalanceUpdate => "wallet_balance_update",
        }
    }
}

/// On-chain details of a wallet transaction.
#[derive(Clone, Debug, PartialEq, Eq)]
pub struct Native {
    pub tx_id: String,
    pub index: i64,
    pub currency: String,
    pub amount: String,
    pub fee: String,
    pub hash: String,
    pub address: String,
    pub confirmations: i64,
}

} // verus!
