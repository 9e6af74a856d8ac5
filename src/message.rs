//! Inbound stream messages and the topic each one is delivered under.
//!
//! A message names its topic through its own fields (a coin, a user), so it
//! can be classified before any subscriber list is consulted. Each payload
//! keeps the message's `data` member as JSON text for the subscriber.
use crate::address::Address;
use crate::msgpack::push_all;
use crate::topic::{order_updates_key, user_events_key, Subscription};
use vstd::prelude::*;

verus! {

/// A payload that carries no routing field.
#[derive(Clone, Debug)]
pub struct RawData {
    pub data: String,
}

/// A payload routed by its coin.
#[derive(Clone, Debug)]
pub struct CoinData {
    pub coin: String,
    pub data: String,
}

/// A payload routed by its user.
#[derive(Clone, Debug)]
pub struct UserData {
    pub user: Address,
    pub data: String,
}

/// A batch of trades; `coin` is the coin of the first trade, absent when the
/// batch is empty.
#[derive(Clone, Debug)]
pub struct TradesData {
    pub coin: Option<String>,
    pub data: String,
}

#[derive(Clone, Debug)]
pub struct CandleData {
    pub coin: String,
    pub interval: String,
    pub data: String,
}

#[derive(Clone, Debug)]
pub struct UserCoinData {
    pub user: Address,
    pub coin: String,
    pub data: String,
}

/// A message from the stream, or a notice produced locally (`NoData` when
/// the connection is lost, `HyperliquidError` when a frame cannot be read).
#[derive(Clone, Debug)]
pub enum Message {
    NoData,
    HyperliquidError(String),
    AllMids(RawData),
    Trades(TradesData),
    L2Book(CoinData),
    User(RawData),
    UserFills(UserData),
    Candle(CandleData),
    SubscriptionResponse,
    OrderUpdates(RawData),
    UserFundings(UserData),
    UserNonFundingLedgerUpdates(UserData),
    Notification(RawData),
    WebData2(UserData),
    ActiveAssetCtx(CoinData),
    ActiveAssetData(UserCoinData),
    ActiveSpotAssetCtx(CoinData),
    Bbo(CoinData),
    Pong,
}

impl Message {
    /// The topic key a message is delivered under; `None` for messages that
    /// are not delivered (acknowledgements, pongs, empty trade batches,
    /// local notices, and notifications, which carry no subscriber field).
    pub open spec fn topic(self) -> Option<Seq<u8>> {
        match self {
            Message::AllMids(_) => Some(Subscription::AllMids.json()),
            Message::User(_) => Some(user_events_key()),
            Message::UserFills(d) => Some(Subscription::UserFills { user: d.user }.json()),
            Message::Trades(d) => match d.coin {
                Some(c) => Some(Subscription::Trades { coin: c }.json()),
                None => None,
            },
            Message::L2Book(d) => Some(Subscription::L2Book { coin: d.coin }.json()),
            Message::Candle(d) => Some(
                Subscription::Candle { coin: d.coin, interval: d.interval }.json(),
            ),
            Message::OrderUpdates(_) => Some(order_updates_key()),
            Message::UserFundings(d) => Some(Subscription::UserFundings { user: d.user }.json()),
            Message::UserNonFundingLedgerUpdates(d) => Some(
                Subscription::UserNonFundingLedgerUpdates { user: d.user }.json(),
            ),
            Message::WebData2(d) => Some(Subscription::WebData2 { user: d.user }.json()),
            Message::ActiveAssetCtx(d) => Some(Subscription::ActiveAssetCtx { coin: d.coin }.json()),
            Message::ActiveSpotAssetCtx(d) => Some(
                Subscription::ActiveAssetCtx { coin: d.coin }.json(),
            ),
            Message::ActiveAssetData(d) => Some(
                Subscription::ActiveAssetData { user: d.user, coin: d.coin }.json(),
            ),
            Message::Bbo(d) => Some(Subscription::Bbo { coin: d.coin }.json()),
            _ => None,
        }
    }

    /// Classifies the message; see [`Message::topic`].
    pub fn get_identifier(&self) -> (r: Option<Vec<u8>>)
        ensures
            r matches Some(k) ==> self.topic() == Some(k@),
            r is None ==> self.topic() is None,
    {
        let sub = match self {
            Message::AllMids(_) => Subscription::AllMids,
            Message::User(_) => {
                let mut k: Vec<u8> = Vec::new();
                push_all(&mut k, "userEvents".as_bytes());
                return Some(k);
            },
            Message::OrderUpdates(_) => {
                let mut k: Vec<u8> = Vec::new();
                push_all(&mut k, "orderUpdates".as_bytes());
                return Some(k);
            },
            Message::UserFills(d) => Subscription::UserFills { user: d.user },
            Message::Trades(d) => match &d.coin {
                Some(c) => Subscription::Trades { coin: c.clone() },
                None => {
                    return None;
                },
            },
            Message::L2Book(d) => Subscription::L2Book { coin: d.coin.clone() },
            Message::Candle(d) => Subscription::Candle {
                coin: d.coin.clone(),
                interval: d.interval.clone(),
            },
            Message::UserFundings(d) => Subscription::UserFundings { user: d.user },
            Message::UserNonFundingLedgerUpdates(d) => Subscription::UserNonFundingLedgerUpdates {
                user: d.user,
            },
            Message::WebData2(d) => Subscription::WebData2 { user: d.user },
            Message::ActiveAssetCtx(d) => Subscription::ActiveAssetCtx { coin: d.coin.clone() },
            Message::ActiveSpotAssetCtx(d) => Subscription::ActiveAssetCtx { coin: d.coin.clone() },
            Message::ActiveAssetData(d) => Subscription::ActiveAssetData {
                user: d.user,
                coin: d.coin.clone(),
            },
            Message::Bbo(d) => Subscription::Bbo { coin: d.coin.clone() },
            _ => {
                return None;
            },
        };
        Some(sub.to_json())
    }
}

} // verus!
