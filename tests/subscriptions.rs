use hyperliquid_rust_sdk::address::Address;
use hyperliquid_rust_sdk::error::Error;
use hyperliquid_rust_sdk::info::{InfoRequest, Ping};
use hyperliquid_rust_sdk::message::{CoinData, Message, RawData, TradesData, UserData};
use hyperliquid_rust_sdk::topic::Subscription;
use hyperliquid_rust_sdk::ws_manager::{ConnectionState, WsManager, INITIAL_BACKOFF_SECS, MAX_BACKOFF_SECS};

fn text(b: &[u8]) -> String {
    String::from_utf8(b.to_vec()).unwrap()
}

fn user() -> Address {
    Address { bytes: [0x12; 20] }
}

fn trades(coin: &str) -> Subscription {
    Subscription::Trades { coin: coin.to_string() }
}

fn subscribe_text(request: &str) -> String {
    format!("{{\"method\":\"subscribe\",\"subscription\":{request}}}")
}

#[test]
fn requests_have_canonical_json() {
    assert_eq!(text(&Subscription::AllMids.to_json()), "{\"type\":\"allMids\"}");
    assert_eq!(text(&trades("BTC").to_json()), "{\"type\":\"trades\",\"coin\":\"BTC\"}");
    let candle = Subscription::Candle { coin: "ETH".to_string(), interval: "1m".to_string() };
    assert_eq!(
        text(&candle.to_json()),
        "{\"type\":\"candle\",\"coin\":\"ETH\",\"interval\":\"1m\"}"
    );
    let data = Subscription::ActiveAssetData { user: user(), coin: "SOL".to_string() };
    assert_eq!(
        text(&data.to_json()),
        format!("{{\"type\":\"activeAssetData\",\"user\":\"0x{}\",\"coin\":\"SOL\"}}", "12".repeat(20))
    );
    let odd = trades("a\"b\\c\n\u{1}");
    assert_eq!(
        text(&odd.to_json()),
        "{\"type\":\"trades\",\"coin\":\"a\\\"b\\\\c\\n\\u0001\"}"
    );
}

#[test]
fn account_wide_topics_use_fixed_keys() {
    assert_eq!(text(&Subscription::UserEvents { user: user() }.get_topic_key()), "userEvents");
    assert_eq!(text(&Subscription::OrderUpdates { user: user() }.get_topic_key()), "orderUpdates");
    assert_eq!(text(&trades("BTC").get_topic_key()), text(&trades("BTC").to_json()));
}

#[test]
fn same_topic_twice_sends_one_subscribe_and_one_unsubscribe() {
    let mut m: WsManager<&str> = WsManager::new(true);
    let (first, frame1) = m.add_subscription(&trades("BTC"), "a").unwrap();
    let (second, frame2) = m.add_subscription(&trades("BTC"), "b").unwrap();
    assert_eq!(text(&frame1.unwrap()), subscribe_text("{\"type\":\"trades\",\"coin\":\"BTC\"}"));
    assert!(frame2.is_none());
    assert_eq!((first, second), (0, 1));
    assert_eq!(m.get_subscription_count(), 2);
    assert_eq!(m.remove_subscription(first).unwrap(), None);
    let last = m.remove_subscription(second).unwrap().unwrap();
    assert_eq!(
        text(&last),
        "{\"method\":\"unsubscribe\",\"subscription\":{\"type\":\"trades\",\"coin\":\"BTC\"}}"
    );
    assert_eq!(m.get_subscription_count(), 0);
}

#[test]
fn removing_unknown_subscription_fails() {
    let mut m: WsManager<u8> = WsManager::new(true);
    assert_eq!(m.remove_subscription(3), Err(Error::SubscriptionNotFound));
    let (id, _) = m.add_subscription(&Subscription::AllMids, 1).unwrap();
    assert!(m.remove_subscription(id).is_ok());
    assert_eq!(m.remove_subscription(id), Err(Error::SubscriptionNotFound));
}

#[test]
fn second_user_events_subscriber_is_refused() {
    let mut m: WsManager<u8> = WsManager::new(true);
    let (id, frame) = m.add_subscription(&Subscription::UserEvents { user: user() }, 1).unwrap();
    assert!(frame.is_some());
    let again = m.add_subscription(&Subscription::UserEvents { user: Address { bytes: [9; 20] } }, 2);
    assert_eq!(again, Err(Error::UserEvents));
    assert_eq!(m.get_subscription_count(), 1);
    assert_eq!(m.listener(id), Some(&1));
    let routed = m.on_message(&Message::User(RawData { data: "{}".to_string() }));
    assert_eq!(routed, vec![id]);
}

#[test]
fn order_updates_subscribers_share_one_topic() {
    let mut m: WsManager<u8> = WsManager::new(true);
    let (_, f1) = m.add_subscription(&Subscription::OrderUpdates { user: user() }, 1).unwrap();
    let (_, f2) = m.add_subscription(&Subscription::OrderUpdates { user: user() }, 2).unwrap();
    assert!(f1.is_some());
    assert!(f2.is_none());
    let routed = m.on_message(&Message::OrderUpdates(RawData { data: "[]".to_string() }));
    assert_eq!(routed, vec![0, 1]);
}

#[test]
fn reconnect_resubscribes_each_live_topic_once() {
    let mut m: WsManager<u8> = WsManager::new(true);
    m.add_subscription(&trades("BTC"), 1).unwrap();
    m.add_subscription(&trades("BTC"), 2).unwrap();
    m.add_subscription(&Subscription::L2Book { coin: "ETH".to_string() }, 3).unwrap();
    let (notified, delay) = m.on_disconnect();
    assert_eq!(notified, vec![0, 1, 2]);
    assert_eq!(delay, Some(INITIAL_BACKOFF_SECS));
    let frames: Vec<String> = m.on_reconnect_success().iter().map(|f| text(f)).collect();
    assert_eq!(
        frames,
        vec![
            subscribe_text("{\"type\":\"trades\",\"coin\":\"BTC\"}"),
            subscribe_text("{\"type\":\"l2Book\",\"coin\":\"ETH\"}"),
        ]
    );
    assert_eq!(m.backoff_delay(), INITIAL_BACKOFF_SECS);
    assert!(m.is_running());
}

#[test]
fn backoff_doubles_up_to_the_ceiling() {
    let mut m: WsManager<u8> = WsManager::new(true);
    let (_, first) = m.on_disconnect();
    let mut delays = vec![first.unwrap()];
    for _ in 0..8 {
        delays.push(m.on_reconnect_failure());
    }
    assert_eq!(delays, vec![1, 2, 4, 8, 16, 32, 60, 60, 60]);
    assert_eq!(MAX_BACKOFF_SECS, 60);
    m.on_reconnect_success();
    assert_eq!(m.backoff_delay(), 1);
}

#[test]
fn disconnect_without_reconnect_stops() {
    let mut m: WsManager<u8> = WsManager::new(false);
    m.add_subscription(&Subscription::AllMids, 7).unwrap();
    let (notified, delay) = m.on_disconnect();
    assert_eq!(notified, vec![0]);
    assert_eq!(delay, None);
}

#[test]
fn messages_route_by_their_own_fields() {
    let mut m: WsManager<u8> = WsManager::new(true);
    m.add_subscription(&trades("BTC"), 1).unwrap();
    m.add_subscription(&trades("ETH"), 2).unwrap();
    m.add_subscription(&Subscription::UserFills { user: user() }, 3).unwrap();
    m.add_subscription(&Subscription::ActiveAssetCtx { coin: "PURR".to_string() }, 4).unwrap();
    let btc = Message::Trades(TradesData { coin: Some("BTC".to_string()), data: "[]".to_string() });
    assert_eq!(m.on_message(&btc), vec![0]);
    let empty = Message::Trades(TradesData { coin: None, data: "[]".to_string() });
    assert!(m.on_message(&empty).is_empty());
    let fills = Message::UserFills(UserData { user: user(), data: "{}".to_string() });
    assert_eq!(m.on_message(&fills), vec![2]);
    let spot = Message::ActiveSpotAssetCtx(CoinData { coin: "PURR".to_string(), data: "{}".to_string() });
    assert_eq!(m.on_message(&spot), vec![3]);
    assert!(m.on_message(&Message::Pong).is_empty());
    assert!(m.on_message(&Message::SubscriptionResponse).is_empty());
    assert!(m.on_message(&Message::Notification(RawData { data: "{}".to_string() })).is_empty());
    assert_eq!(
        text(&Message::L2Book(CoinData { coin: "ETH".to_string(), data: String::new() })
            .get_identifier()
            .unwrap()),
        "{\"type\":\"l2Book\",\"coin\":\"ETH\"}"
    );
}

#[test]
fn shutdown_unsubscribes_each_topic_once() {
    let mut m: WsManager<u8> = WsManager::new(true);
    m.add_subscription(&trades("BTC"), 1).unwrap();
    m.add_subscription(&Subscription::AllMids, 2).unwrap();
    m.add_subscription(&trades("BTC"), 3).unwrap();
    let frames: Vec<String> = m.shutdown().iter().map(|f| text(f)).collect();
    assert_eq!(
        frames,
        vec![
            "{\"method\":\"unsubscribe\",\"subscription\":{\"type\":\"allMids\"}}".to_string(),
            "{\"method\":\"unsubscribe\",\"subscription\":{\"type\":\"trades\",\"coin\":\"BTC\"}}".to_string(),
        ]
    );
    assert_eq!(m.get_subscription_count(), 0);
    assert!(!m.is_running());
    assert_eq!(ConnectionState::ShuttingDown, ConnectionState::ShuttingDown);
}

#[test]
fn info_and_ping_bodies() {
    assert_eq!(text(&InfoRequest::Meta { dex: None }.to_json()), "{\"type\":\"meta\"}");
    assert_eq!(
        text(&InfoRequest::Meta { dex: Some("test".to_string()) }.to_json()),
        "{\"type\":\"meta\",\"dex\":\"test\"}"
    );
    assert_eq!(
        text(&InfoRequest::PerpDeployAuctionStatus.to_json()),
        "{\"type\":\"perpDeployAuctionStatus\"}"
    );
    assert_eq!(text(&Ping::new().to_json()), "{\"method\":\"ping\"}");
}

#[test]
fn connection_state_follows_disconnects_and_reconnects() {
    let mut m: WsManager<u8> = WsManager::new(true);
    assert_eq!(m.connection_state(), ConnectionState::Connected);
    m.on_disconnect();
    assert_eq!(m.connection_state(), ConnectionState::Disconnected);
    m.on_reconnect_attempt();
    assert_eq!(m.connection_state(), ConnectionState::Connecting);
    assert_eq!(m.on_reconnect_failure(), 2);
    assert_eq!(m.connection_state(), ConnectionState::Disconnected);
    m.on_reconnect_attempt();
    m.on_reconnect_success();
    assert_eq!(m.connection_state(), ConnectionState::Connected);
    m.shutdown();
    assert_eq!(m.connection_state(), ConnectionState::ShuttingDown);
}

#[test]
fn new_ids_are_fresh_and_listeners_stay_with_their_ids() {
    let mut m: WsManager<&str> = WsManager::new(true);
    let (a, _) = m.add_subscription(&trades("BTC"), "first").unwrap();
    let (b, _) = m.add_subscription(&trades("ETH"), "second").unwrap();
    assert_ne!(a, b);
    m.remove_subscription(a).unwrap();
    let (c, _) = m.add_subscription(&trades("BTC"), "third").unwrap();
    assert!(c != a && c != b);
    assert_eq!(m.listener(b), Some(&"second"));
    assert_eq!(m.listener(c), Some(&"third"));
    assert_eq!(m.listener(a), None);
}

#[test]
fn shutdown_is_final() {
    let mut m: WsManager<u8> = WsManager::new(true);
    m.add_subscription(&Subscription::AllMids, 1).unwrap();
    m.shutdown();
    let (ids, delay) = m.on_disconnect();
    assert!(ids.is_empty());
    assert_eq!(delay, None);
    m.on_reconnect_attempt();
    assert!(!m.is_running());
    m.on_reconnect_failure();
    assert!(m.on_reconnect_success().is_empty());
    assert_eq!(m.connection_state(), ConnectionState::ShuttingDown);
    assert!(!m.is_running());
}
