//! Subscription requests, their canonical JSON text, and the topic keys
//! that identify one logical stream each.
//!
//! A request is canonicalised by writing it out in declared field order as
//! compact JSON, so two requests that differ only in the order of their
//! fields give the same text. The account-wide user-events and
//! order-updates streams are keyed by a fixed name instead.
use crate::address::{address_text, hex_digit, Address};
use crate::msgpack::push_all;
use vstd::prelude::*;

verus! {

pub open spec fn utf8(s: Seq<char>) -> Seq<u8> {
    vstd::utf8::encode_utf8(s)
}

/// The JSON escape of one byte of UTF-8 text.
pub open spec fn escape_byte(b: u8) -> Seq<u8> {
    if b == 34 {
        seq![92u8, 34u8]
    } else if b == 92 {
        seq![92u8, 92u8]
    } else if b == 8 {
        seq![92u8, 98u8]
    } else if b == 12 {
        seq![92u8, 102u8]
    } else if b == 10 {
        seq![92u8, 110u8]
    } else if b == 13 {
        seq![92u8, 114u8]
    } else if b == 9 {
        seq![92u8, 116u8]
    } else if b < 32 {
        seq![92u8, 117u8, 48u8, 48u8, hex_digit(b / 16), hex_digit(b % 16)]
    } else {
        seq![b]
    }
}

pub open spec fn escaped(s: Seq<u8>) -> Seq<u8>
    decreases s.len(),
{
    if s.len() == 0 {
        Seq::empty()
    } else {
        escaped(s.drop_last()) + escape_byte(s.last())
    }
}

/// A JSON string literal holding the given UTF-8 text.
pub open spec fn json_string(s: Seq<u8>) -> Seq<u8> {
    seq![34u8] + escaped(s) + seq![34u8]
}

fn push_escaped_byte(out: &mut Vec<u8>, b: u8)
    ensures
        final(out)@ == old(out)@ + escape_byte(b),
{
    let ghost start = out@;
    if b == 34 || b == 92 {
        out.push(92);
        out.push(b);
    } else if b == 8 {
        out.push(92);
        out.push(98);
    } else if b == 12 {
        out.push(92);
        out.push(102);
    } else if b == 10 {
        out.push(92);
        out.push(110);
    } else if b == 13 {
        out.push(92);
        out.push(114);
    } else if b == 9 {
        out.push(92);
        out.push(116);
    } else if b < 32 {
        out.push(92);
        out.push(117);
        out.push(48);
        out.push(48);
        let hi = b / 16;
        out.push(48 + hi);
        let lo = b % 16;
        out.push(if lo < 10 { 48 + lo } else { 87 + lo });
    } else {
        out.push(b);
    }
    assert(out@ =~= start + escape_byte(b));
}

/// Appends `s` as a JSON string literal.
pub fn push_json_string(out: &mut Vec<u8>, s: &[u8])
    ensures
        final(out)@ == old(out)@ + json_string(s@),
{
    let ghost start = out@;
    out.push(34);
    let ghost body = out@;
    let mut i: usize = 0;
    while i < s.len()
        invariant
            i <= s@.len(),
            out@ == body + escaped(s@.subrange(0, i as int)),
        decreases s@.len() - i,
    {
        push_escaped_byte(out, s[i]);
        i = i + 1;
        assert(s@.subrange(0, i as int).drop_last() =~= s@.subrange(0, i - 1));
        assert(out@ =~= body + escaped(s@.subrange(0, i as int)));
    }
    assert(s@.subrange(0, i as int) =~= s@);
    out.push(34);
    assert(out@ =~= start + json_string(s@));
}

/// A request for one real-time stream.
#[derive(Clone, Debug)]
pub enum Subscription {
    AllMids,
    Notification { user: Address },
    WebData2 { user: Address },
    Candle { coin: String, interval: String },
    L2Book { coin: String },
    Trades { coin: String },
    OrderUpdates { user: Address },
    UserEvents { user: Address },
    UserFills { user: Address },
    UserFundings { user: Address },
    UserNonFundingLedgerUpdates { user: Address },
    ActiveAssetCtx { coin: String },
    ActiveAssetData { user: Address, coin: String },
    Bbo { coin: String },
}

/// `,"name":` followed by a JSON value.
pub open spec fn json_member(name: Seq<char>, value: Seq<u8>) -> Seq<u8> {
    utf8(","@) + json_string(utf8(name)) + utf8(":"@) + value
}

pub open spec fn user_member(user: Address) -> Seq<u8> {
    json_member("user"@, json_string(address_text(user)))
}

pub open spec fn coin_member(coin: Seq<char>) -> Seq<u8> {
    json_member("coin"@, json_string(utf8(coin)))
}

impl Subscription {
    /// The value of the `"type"` member.
    pub open spec fn kind(self) -> Seq<char> {
        match self {
            Subscription::AllMids => "allMids"@,
            Subscription::Notification { .. } => "notification"@,
            Subscription::WebData2 { .. } => "webData2"@,
            Subscription::Candle { .. } => "candle"@,
            Subscription::L2Book { .. } => "l2Book"@,
            Subscription::Trades { .. } => "trades"@,
            Subscription::OrderUpdates { .. } => "orderUpdates"@,
            Subscription::UserEvents { .. } => "userEvents"@,
            Subscription::UserFills { .. } => "userFills"@,
            Subscription::UserFundings { .. } => "userFundings"@,
            Subscription::UserNonFundingLedgerUpdates { .. } => "userNonFundingLedgerUpdates"@,
            Subscription::ActiveAssetCtx { .. } => "activeAssetCtx"@,
            Subscription::ActiveAssetData { .. } => "activeAssetData"@,
            Subscription::Bbo { .. } => "bbo"@,
        }
    }

    /// The members after `"type"`, in declared order.
    pub open spec fn members(self) -> Seq<u8> {
        match self {
            Subscription::AllMids => Seq::empty(),
            Subscription::Notification { user } => user_member(user),
            Subscription::WebData2 { user } => user_member(user),
            Subscription::Candle { coin, interval } => coin_member(coin@) + json_member(
                "interval"@,
                json_string(utf8(interval@)),
            ),
            Subscription::L2Book { coin } => coin_member(coin@),
            Subscription::Trades { coin } => coin_member(coin@),
            Subscription::OrderUpdates { user } => user_member(user),
            Subscription::UserEvents { user } => user_member(user),
            Subscription::UserFills { user } => user_member(user),
            Subscription::UserFundings { user } => user_member(user),
            Subscription::UserNonFundingLedgerUpdates { user } => user_member(user),
            Subscription::ActiveAssetCtx { coin } => coin_member(coin@),
            Subscription::ActiveAssetData { user, coin } => user_member(user) + coin_member(coin@),
            Subscription::Bbo { coin } => coin_member(coin@),
        }
    }

    /// The canonical JSON text of the request.
    pub open spec fn json(self) -> Seq<u8> {
        utf8("{"@) + json_string(utf8("type"@)) + utf8(":"@) + json_string(utf8(self.kind()))
            + self.members() + utf8("}"@)
    }

    /// The key of the topic the request belongs to.
    pub open spec fn topic_key(self) -> Seq<u8> {
        match self {
            Subscription::UserEvents { .. } => user_events_key(),
            Subscription::OrderUpdates { .. } => order_updates_key(),
            _ => self.json(),
        }
    }

    pub open spec fn is_user_events(self) -> bool {
        self is UserEvents
    }

    fn push_kind(&self, out: &mut Vec<u8>)
        ensures
            final(out)@ == old(out)@ + json_string(utf8(self.kind())),
    {
        let kind = match self {
            Subscription::AllMids => "allMids",
            Subscription::Notification { .. } => "notification",
            Subscription::WebData2 { .. } => "webData2",
            Subscription::Candle { .. } => "candle",
            Subscription::L2Book { .. } => "l2Book",
            Subscription::Trades { .. } => "trades",
            Subscription::OrderUpdates { .. } => "orderUpdates",
            Subscription::UserEvents { .. } => "userEvents",
            Subscription::UserFills { .. } => "userFills",
            Subscription::UserFundings { .. } => "userFundings",
            Subscription::UserNonFundingLedgerUpdates { .. } => "userNonFundingLedgerUpdates",
            Subscription::ActiveAssetCtx { .. } => "activeAssetCtx",
            Subscription::ActiveAssetData { .. } => "activeAssetData",
            Subscription::Bbo { .. } => "bbo",
        };
        push_json_string(out, kind.as_bytes());
    }

    fn push_members(&self, out: &mut Vec<u8>)
        ensures
            final(out)@ == old(out)@ + self.members(),
    {
        let ghost start = out@;
        match self {
            Subscription::AllMids => {},
            Subscription::Notification { user }
            | Subscription::WebData2 { user }
            | Subscription::OrderUpdates { user }
            | Subscription::UserEvents { user }
            | Subscription::UserFills { user }
            | Subscription::UserFundings { user }
            | Subscription::UserNonFundingLedgerUpdates { user } => {
                push_user_member(out, user);
            },
            Subscription::Candle { coin, interval } => {
                push_coin_member(out, coin);
                push_member_name(out, "interval");
                push_json_string(out, interval.as_str().as_bytes());
            },
            Subscription::L2Book { coin }
            | Subscription::Trades { coin }
            | Subscription::ActiveAssetCtx { coin }
            | Subscription::Bbo { coin } => {
                push_coin_member(out, coin);
            },
            Subscription::ActiveAssetData { user, coin } => {
                push_user_member(out, user);
                push_coin_member(out, coin);
            },
        }
        assert(out@ =~= start + self.members());
    }

    /// The canonical JSON text of the request.
    pub fn to_json(&self) -> (r: Vec<u8>)
        ensures
            r@ == self.json(),
    {
        let mut out: Vec<u8> = Vec::new();
        push_all(&mut out, "{".as_bytes());
        push_json_string(&mut out, "type".as_bytes());
        push_all(&mut out, ":".as_bytes());
        self.push_kind(&mut out);
        self.push_members(&mut out);
        push_all(&mut out, "}".as_bytes());
        assert(out@ =~= self.json());
        out
    }

    /// The key of the topic the request belongs to.
    pub fn get_topic_key(&self) -> (r: Vec<u8>)
        ensures
            r@ == self.topic_key(),
    {
        match self {
            Subscription::UserEvents { .. } => {
                let mut out: Vec<u8> = Vec::new();
                push_all(&mut out, "userEvents".as_bytes());
                out
            },
            Subscription::OrderUpdates { .. } => {
                let mut out: Vec<u8> = Vec::new();
                push_all(&mut out, "orderUpdates".as_bytes());
                out
            },
            _ => self.to_json(),
        }
    }
}

/// The fixed key of the account-wide user-events topic.
pub open spec fn user_events_key() -> Seq<u8> {
    utf8("userEvents"@)
}

/// The fixed key of the order-updates topic.
pub open spec fn order_updates_key() -> Seq<u8> {
    utf8("orderUpdates"@)
}

/// Whether a key is one of the two fixed keys, under which each
/// subscriber's own request is what the venue is sent.
pub open spec fn is_fixed_key(k: Seq<u8>) -> bool {
    k == user_events_key() || k == order_updates_key()
}

fn push_member_name(out: &mut Vec<u8>, name: &str)
    ensures
        final(out)@ == old(out)@ + utf8(","@) + json_string(utf8(name@)) + utf8(":"@),
{
    push_all(out, ",".as_bytes());
    push_json_string(out, name.as_bytes());
    push_all(out, ":".as_bytes());
}

fn push_user_member(out: &mut Vec<u8>, user: &Address)
    ensures
        final(out)@ == old(out)@ + user_member(*user),
{
    let ghost start = out@;
    push_member_name(out, "user");
    let mut text: Vec<u8> = Vec::new();
    user.push_text(&mut text);
    push_json_string(out, text.as_slice());
    assert(out@ =~= start + user_member(*user));
}

fn push_coin_member(out: &mut Vec<u8>, coin: &String)
    ensures
        final(out)@ == old(out)@ + coin_member(coin@),
{
    let ghost start = out@;
    push_member_name(out, "coin");
    push_json_string(out, coin.as_str().as_bytes());
    assert(out@ =~= start + coin_member(coin@));
}

/// The text that precedes the request in a subscribe frame.
pub open spec fn subscribe_prefix() -> Seq<u8> {
    utf8("{\"method\":\"subscribe\",\"subscription\":"@)
}

/// The text that precedes the request in an unsubscribe frame.
pub open spec fn unsubscribe_prefix() -> Seq<u8> {
    utf8("{\"method\":\"unsubscribe\",\"subscription\":"@)
}

/// `{"method":"subscribe","subscription":<request>}`.
pub open spec fn subscribe_frame(request: Seq<u8>) -> Seq<u8> {
    subscribe_prefix() + request + utf8("}"@)
}

/// `{"method":"unsubscribe","subscription":<request>}`.
pub open spec fn unsubscribe_frame(request: Seq<u8>) -> Seq<u8> {
    unsubscribe_prefix() + request + utf8("}"@)
}

pub fn make_subscribe_frame(request: &Vec<u8>) -> (r: Vec<u8>)
    ensures
        r@ == subscribe_frame(request@),
{
    let mut out: Vec<u8> = Vec::new();
    push_all(&mut out, "{\"method\":\"subscribe\",\"subscription\":".as_bytes());
    push_all(&mut out, request.as_slice());
    push_all(&mut out, "}".as_bytes());
    out
}

pub fn make_unsubscribe_frame(request: &Vec<u8>) -> (r: Vec<u8>)
    ensures
        r@ == unsubscribe_frame(request@),
{
    let mut out: Vec<u8> = Vec::new();
    push_all(&mut out, "{\"method\":\"unsubscribe\",\"subscription\":".as_bytes());
    push_all(&mut out, request.as_slice());
    push_all(&mut out, "}".as_bytes());
    out
}

/// Distinct requests give distinct subscribe frames.
pub proof fn lemma_subscribe_frame_injective(a: Seq<u8>, b: Seq<u8>)
    requires
        subscribe_frame(a) == subscribe_frame(b),
    ensures
        a == b,
{
    let p = subscribe_prefix().len() as int;
    let q = utf8("}"@).len() as int;
    assert(subscribe_frame(a).len() == p + a.len() + q);
    assert(subscribe_frame(b).len() == p + b.len() + q);
    assert(a.len() == b.len());
    assert(a =~= subscribe_frame(a).subrange(p, p + a.len()));
    assert(b =~= subscribe_frame(b).subrange(p, p + b.len()));
}

} // verus!
