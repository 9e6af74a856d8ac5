//! The actions that are hashed and signed as L1 actions, and their canonical
//! MessagePack form.
//!
//! Structs are encoded as maps whose keys keep the declared field order; an
//! action is a map whose first entry is `"type"`, followed by the fields of
//! its payload. Absent optional fields are left out.
use crate::address::{address_text, Address};
use crate::crypto::{keccak, keccak_of};
use crate::msgpack::{
    str_bytes, write_str_header, array_header, bool_bytes, map_header, text_bytes, text_fits, uint_bytes, sint_bytes, be_bytes,
    push_all, push_be, write_array_len, write_bool, write_key, write_map_len, write_sint, write_str, write_uint,
};
use vstd::prelude::*;

verus! {

/// Whether every string and sequence in a value fits the 32-bit lengths of
/// the format.
pub open spec fn fits_len(n: nat) -> bool {
    n <= u32::MAX
}

#[derive(Clone, Debug)]
pub struct Limit {
    pub tif: String,
}

#[derive(Clone, Debug)]
pub struct Trigger {
    pub is_market: bool,
    pub trigger_px: String,
    pub tpsl: String,
}

/// The kind of an order: `{"limit": {...}}` or `{"trigger": {...}}`.
#[derive(Clone, Debug)]
pub enum Order {
    Limit(Limit),
    Trigger(Trigger),
}

impl Order {
    pub open spec fn encodable(self) -> bool {
        match self {
            Order::Limit(l) => text_fits(l.tif@),
            Order::Trigger(t) => text_fits(t.trigger_px@) && text_fits(t.tpsl@),
        }
    }

    pub open spec fn msgpack(self) -> Seq<u8> {
        match self {
            Order::Limit(l) => map_header(1) + text_bytes("limit"@) + map_header(1) + text_bytes(
                "tif"@,
            ) + text_bytes(l.tif@),
            Order::Trigger(t) => map_header(1) + text_bytes("trigger"@) + map_header(3)
                + text_bytes("isMarket"@) + bool_bytes(t.is_market) + text_bytes("triggerPx"@)
                + text_bytes(t.trigger_px@) + text_bytes("tpsl"@) + text_bytes(t.tpsl@),
        }
    }

    pub fn write_msgpack(&self, out: &mut Vec<u8>)
        requires
            self.encodable(),
        ensures
            final(out)@ == old(out)@ + self.msgpack(),
    {
        let ghost start = out@;
        proof {
            reveal_strlit("limit");
            reveal_strlit("tif");
            reveal_strlit("trigger");
            reveal_strlit("isMarket");
            reveal_strlit("triggerPx");
            reveal_strlit("tpsl");
        }
        write_map_len(out, 1);
        match self {
            Order::Limit(l) => {
                write_key(out, "limit");
                write_map_len(out, 1);
                write_key(out, "tif");
                write_str(out, l.tif.as_str());
            },
            Order::Trigger(t) => {
                write_key(out, "trigger");
                write_map_len(out, 3);
                write_key(out, "isMarket");
                write_bool(out, t.is_market);
                write_key(out, "triggerPx");
                write_str(out, t.trigger_px.as_str());
                write_key(out, "tpsl");
                write_str(out, t.tpsl.as_str());
            },
        }
        assert(out@ =~= start + self.msgpack());
    }
}

/// One order of a batch. On the wire its fields are named by single letters.
#[derive(Clone, Debug)]
pub struct OrderRequest {
    pub asset: u32,
    pub is_buy: bool,
    pub limit_px: String,
    pub sz: String,
    pub reduce_only: bool,
    pub order_type: Order,
    pub cloid: Option<String>,
}

impl OrderRequest {
    pub open spec fn encodable(self) -> bool {
        &&& text_fits(self.limit_px@)
        &&& text_fits(self.sz@)
        &&& self.order_type.encodable()
        &&& (self.cloid matches Some(c) ==> text_fits(c@))
    }

    /// The entries before the order type, keys included.
    pub open spec fn leading_fields(self) -> Seq<u8> {
        text_bytes("a"@) + uint_bytes(self.asset as u64) + text_bytes("b"@) + bool_bytes(
            self.is_buy,
        ) + text_bytes("p"@) + text_bytes(self.limit_px@) + text_bytes("s"@) + text_bytes(
            self.sz@,
        ) + text_bytes("r"@) + bool_bytes(self.reduce_only) + text_bytes("t"@)
    }

    pub open spec fn cloid_field(self) -> Seq<u8> {
        match self.cloid {
            Some(c) => text_bytes("c"@) + text_bytes(c@),
            None => Seq::empty(),
        }
    }

    pub open spec fn msgpack(self) -> Seq<u8> {
        map_header(if self.cloid is Some { 7 } else { 6 }) + self.leading_fields()
            + self.order_type.msgpack() + self.cloid_field()
    }

    fn write_leading_fields(&self, out: &mut Vec<u8>)
        requires
            self.encodable(),
        ensures
            final(out)@ == old(out)@ + self.leading_fields(),
    {
        let ghost s1 = out@;
        proof {
            reveal_strlit("a");
            reveal_strlit("b");
            reveal_strlit("p");
            reveal_strlit("s");
            reveal_strlit("r");
            reveal_strlit("t");
        }
        write_key(out, "a");
        write_uint(out, self.asset as u64);
        write_key(out, "b");
        write_bool(out, self.is_buy);
        write_key(out, "p");
        write_str(out, self.limit_px.as_str());
        write_key(out, "s");
        write_str(out, self.sz.as_str());
        write_key(out, "r");
        write_bool(out, self.reduce_only);
        write_key(out, "t");
        assert(out@ =~= s1 + self.leading_fields());
    }

    pub fn write_msgpack(&self, out: &mut Vec<u8>)
        requires
            self.encodable(),
        ensures
            final(out)@ == old(out)@ + self.msgpack(),
    {
        let ghost start = out@;
        proof {
            reveal_strlit("c");
        }
        write_map_len(out, if self.cloid.is_some() { 7 } else { 6 });
        let ghost s1 = out@;
        self.write_leading_fields(out);
        self.order_type.write_msgpack(out);
        let ghost s3 = out@;
        match &self.cloid {
            Some(c) => {
                write_key(out, "c");
                write_str(out, c.as_str());
            },
            None => {},
        }
        assert(out@ =~= s3 + self.cloid_field());
        assert(out@ =~= start + self.msgpack());
    }
}

/// A builder that takes a fee on an order batch.
#[derive(Clone, Debug)]
pub struct BuilderInfo {
    pub builder: String,
    pub fee: u64,
}

impl BuilderInfo {
    pub open spec fn encodable(self) -> bool {
        text_fits(self.builder@)
    }

    pub open spec fn msgpack(self) -> Seq<u8> {
        map_header(2) + text_bytes("b"@) + text_bytes(self.builder@) + text_bytes("f"@)
            + uint_bytes(self.fee)
    }

    pub fn write_msgpack(&self, out: &mut Vec<u8>)
        requires
            self.encodable(),
        ensures
            final(out)@ == old(out)@ + self.msgpack(),
    {
        let ghost start = out@;
        proof {
            reveal_strlit("b");
            reveal_strlit("f");
        }
        write_map_len(out, 2);
        write_key(out, "b");
        write_str(out, self.builder.as_str());
        write_key(out, "f");
        write_uint(out, self.fee);
        assert(out@ =~= start + self.msgpack());
    }
}

#[derive(Clone, Debug)]
pub struct CancelRequest {
    pub asset: u32,
    pub oid: u64,
}

impl CancelRequest {
    pub open spec fn msgpack(self) -> Seq<u8> {
        map_header(2) + text_bytes("a"@) + uint_bytes(self.asset as u64) + text_bytes("o"@)
            + uint_bytes(self.oid)
    }

    pub fn write_msgpack(&self, out: &mut Vec<u8>)
        ensures
            final(out)@ == old(out)@ + self.msgpack(),
    {
        let ghost start = out@;
        proof {
            reveal_strlit("a");
            reveal_strlit("o");
        }
        write_map_len(out, 2);
        write_key(out, "a");
        write_uint(out, self.asset as u64);
        write_key(out, "o");
        write_uint(out, self.oid);
        assert(out@ =~= start + self.msgpack());
    }
}

#[derive(Clone, Debug)]
pub struct CancelRequestCloid {
    pub asset: u32,
    pub cloid: String,
}

impl CancelRequestCloid {
    pub open spec fn encodable(self) -> bool {
        text_fits(self.cloid@)
    }

    pub open spec fn msgpack(self) -> Seq<u8> {
        map_header(2) + text_bytes("asset"@) + uint_bytes(self.asset as u64) + text_bytes(
            "cloid"@,
        ) + text_bytes(self.cloid@)
    }

    pub fn write_msgpack(&self, out: &mut Vec<u8>)
        requires
            self.encodable(),
        ensures
            final(out)@ == old(out)@ + self.msgpack(),
    {
        let ghost start = out@;
        proof {
            reveal_strlit("asset");
            reveal_strlit("cloid");
        }
        write_map_len(out, 2);
        write_key(out, "asset");
        write_uint(out, self.asset as u64);
        write_key(out, "cloid");
        write_str(out, self.cloid.as_str());
        assert(out@ =~= start + self.msgpack());
    }
}

#[derive(Clone, Debug)]
pub struct ModifyRequest {
    pub oid: u64,
    pub order: OrderRequest,
}

impl ModifyRequest {
    pub open spec fn encodable(self) -> bool {
        self.order.encodable()
    }

    pub open spec fn msgpack(self) -> Seq<u8> {
        map_header(2) + text_bytes("oid"@) + uint_bytes(self.oid) + text_bytes("order"@)
            + self.order.msgpack()
    }

    pub fn write_msgpack(&self, out: &mut Vec<u8>)
        requires
            self.encodable(),
        ensures
            final(out)@ == old(out)@ + self.msgpack(),
    {
        let ghost start = out@;
        proof {
            reveal_strlit("oid");
            reveal_strlit("order");
        }
        write_map_len(out, 2);
        write_key(out, "oid");
        write_uint(out, self.oid);
        write_key(out, "order");
        self.order.write_msgpack(out);
        assert(out@ =~= start + self.msgpack());
    }
}


pub open spec fn orders_msgpack(s: Seq<OrderRequest>) -> Seq<u8>
    decreases s.len(),
{
    if s.len() == 0 {
        Seq::empty()
    } else {
        orders_msgpack(s.drop_last()) + s.last().msgpack()
    }
}

fn write_orders_msgpack(out: &mut Vec<u8>, v: &Vec<OrderRequest>)
    requires
        fits_len(v@.len() as nat),
        forall|i: int| 0 <= i < v@.len() ==> (#[trigger] v@[i]).encodable(),
    ensures
        final(out)@ == old(out)@ + array_header(v@.len() as nat) + orders_msgpack(v@),
{
    write_array_len(out, v.len());
    let ghost start = out@;
    let mut i: usize = 0;
    while i < v.len()
        invariant
            i <= v@.len(),
            forall|i: int| 0 <= i < v@.len() ==> (#[trigger] v@[i]).encodable(),
            out@ == start + orders_msgpack(v@.subrange(0, i as int)),
        decreases v@.len() - i,
    {
        v[i].write_msgpack(out);
        i = i + 1;
        assert(v@.subrange(0, i as int).drop_last() =~= v@.subrange(0, i as int - 1));
        assert(out@ =~= start + orders_msgpack(v@.subrange(0, i as int)));
    }
    assert(v@.subrange(0, i as int) =~= v@);
}

pub open spec fn cancels_msgpack(s: Seq<CancelRequest>) -> Seq<u8>
    decreases s.len(),
{
    if s.len() == 0 {
        Seq::empty()
    } else {
        cancels_msgpack(s.drop_last()) + s.last().msgpack()
    }
}

fn write_cancels_msgpack(out: &mut Vec<u8>, v: &Vec<CancelRequest>)
    requires
        fits_len(v@.len() as nat),
        
    ensures
        final(out)@ == old(out)@ + array_header(v@.len() as nat) + cancels_msgpack(v@),
{
    write_array_len(out, v.len());
    let ghost start = out@;
    let mut i: usize = 0;
    while i < v.len()
        invariant
            i <= v@.len(),
            
            out@ == start + cancels_msgpack(v@.subrange(0, i as int)),
        decreases v@.len() - i,
    {
        v[i].write_msgpack(out);
        i = i + 1;
        assert(v@.subrange(0, i as int).drop_last() =~= v@.subrange(0, i as int - 1));
        assert(out@ =~= start + cancels_msgpack(v@.subrange(0, i as int)));
    }
    assert(v@.subrange(0, i as int) =~= v@);
}

pub open spec fn cloid_cancels_msgpack(s: Seq<CancelRequestCloid>) -> Seq<u8>
    decreases s.len(),
{
    if s.len() == 0 {
        Seq::empty()
    } else {
        cloid_cancels_msgpack(s.drop_last()) + s.last().msgpack()
    }
}

fn write_cloid_cancels_msgpack(out: &mut Vec<u8>, v: &Vec<CancelRequestCloid>)
    requires
        fits_len(v@.len() as nat),
        forall|i: int| 0 <= i < v@.len() ==> (#[trigger] v@[i]).encodable(),
    ensures
        final(out)@ == old(out)@ + array_header(v@.len() as nat) + cloid_cancels_msgpack(v@),
{
    write_array_len(out, v.len());
    let ghost start = out@;
    let mut i: usize = 0;
    while i < v.len()
        invariant
            i <= v@.len(),
            forall|i: int| 0 <= i < v@.len() ==> (#[trigger] v@[i]).encodable(),
            out@ == start + cloid_cancels_msgpack(v@.subrange(0, i as int)),
        decreases v@.len() - i,
    {
        v[i].write_msgpack(out);
        i = i + 1;
        assert(v@.subrange(0, i as int).drop_last() =~= v@.subrange(0, i as int - 1));
        assert(out@ =~= start + cloid_cancels_msgpack(v@.subrange(0, i as int)));
    }
    assert(v@.subrange(0, i as int) =~= v@);
}

pub open spec fn modifies_msgpack(s: Seq<ModifyRequest>) -> Seq<u8>
    decreases s.len(),
{
    if s.len() == 0 {
        Seq::empty()
    } else {
        modifies_msgpack(s.drop_last()) + s.last().msgpack()
    }
}

fn write_modifies_msgpack(out: &mut Vec<u8>, v: &Vec<ModifyRequest>)
    requires
        fits_len(v@.len() as nat),
        forall|i: int| 0 <= i < v@.len() ==> (#[trigger] v@[i]).encodable(),
    ensures
        final(out)@ == old(out)@ + array_header(v@.len() as nat) + modifies_msgpack(v@),
{
    write_array_len(out, v.len());
    let ghost start = out@;
    let mut i: usize = 0;
    while i < v.len()
        invariant
            i <= v@.len(),
            forall|i: int| 0 <= i < v@.len() ==> (#[trigger] v@[i]).encodable(),
            out@ == start + modifies_msgpack(v@.subrange(0, i as int)),
        decreases v@.len() - i,
    {
        v[i].write_msgpack(out);
        i = i + 1;
        assert(v@.subrange(0, i as int).drop_last() =~= v@.subrange(0, i as int - 1));
        assert(out@ =~= start + modifies_msgpack(v@.subrange(0, i as int)));
    }
    assert(v@.subrange(0, i as int) =~= v@);
}

/// A batch of orders.
#[derive(Clone, Debug)]
pub struct BulkOrder {
    pub orders: Vec<OrderRequest>,
    pub grouping: String,
    pub builder: Option<BuilderInfo>,
}

impl BulkOrder {
    pub open spec fn encodable(self) -> bool {
        &&& fits_len(self.orders@.len() as nat)
        &&& forall|i: int| 0 <= i < self.orders@.len() ==> (#[trigger] self.orders@[i]).encodable()
        &&& text_fits(self.grouping@)
        &&& (self.builder matches Some(b) ==> b.encodable())
    }

    pub open spec fn field_count(self) -> nat {
        if self.builder is Some {
            3
        } else {
            2
        }
    }

    pub open spec fn fields_msgpack(self) -> Seq<u8> {
        text_bytes("orders"@) + array_header(self.orders@.len() as nat) + orders_msgpack(
            self.orders@,
        ) + text_bytes("grouping"@) + text_bytes(self.grouping@) + match self.builder {
            Some(b) => text_bytes("builder"@) + b.msgpack(),
            None => Seq::empty(),
        }
    }

    fn write_fields(&self, out: &mut Vec<u8>)
        requires
            self.encodable(),
        ensures
            final(out)@ == old(out)@ + self.fields_msgpack(),
    {
        let ghost start = out@;
        proof {
            reveal_strlit("orders");
            reveal_strlit("grouping");
            reveal_strlit("builder");
        }
        write_key(out, "orders");
        write_orders_msgpack(out, &self.orders);
        write_key(out, "grouping");
        write_str(out, self.grouping.as_str());
        match &self.builder {
            Some(b) => {
                write_key(out, "builder");
                b.write_msgpack(out);
            },
            None => {},
        }
        assert(out@ =~= start + self.fields_msgpack());
    }
}

/// A batch of cancels by order id.
#[derive(Clone, Debug)]
pub struct BulkCancel {
    pub cancels: Vec<CancelRequest>,
}

impl BulkCancel {
    pub open spec fn encodable(self) -> bool {
        fits_len(self.cancels@.len() as nat)
    }

    pub open spec fn fields_msgpack(self) -> Seq<u8> {
        text_bytes("cancels"@) + array_header(self.cancels@.len() as nat) + cancels_msgpack(
            self.cancels@,
        )
    }

    fn write_fields(&self, out: &mut Vec<u8>)
        requires
            self.encodable(),
        ensures
            final(out)@ == old(out)@ + self.fields_msgpack(),
    {
        let ghost start = out@;
        proof {
            reveal_strlit("cancels");
        }
        write_key(out, "cancels");
        write_cancels_msgpack(out, &self.cancels);
        assert(out@ =~= start + self.fields_msgpack());
    }
}

/// A batch of cancels by client order id.
#[derive(Clone, Debug)]
pub struct BulkCancelCloid {
    pub cancels: Vec<CancelRequestCloid>,
}

impl BulkCancelCloid {
    pub open spec fn encodable(self) -> bool {
        &&& fits_len(self.cancels@.len() as nat)
        &&& forall|i: int|
            0 <= i < self.cancels@.len() ==> (#[trigger] self.cancels@[i]).encodable()
    }

    pub open spec fn fields_msgpack(self) -> Seq<u8> {
        text_bytes("cancels"@) + array_header(self.cancels@.len() as nat) + cloid_cancels_msgpack(
            self.cancels@,
        )
    }

    fn write_fields(&self, out: &mut Vec<u8>)
        requires
            self.encodable(),
        ensures
            final(out)@ == old(out)@ + self.fields_msgpack(),
    {
        let ghost start = out@;
        proof {
            reveal_strlit("cancels");
        }
        write_key(out, "cancels");
        write_cloid_cancels_msgpack(out, &self.cancels);
        assert(out@ =~= start + self.fields_msgpack());
    }
}

/// A batch of order modifications.
#[derive(Clone, Debug)]
pub struct BulkModify {
    pub modifies: Vec<ModifyRequest>,
}

impl BulkModify {
    pub open spec fn encodable(self) -> bool {
        &&& fits_len(self.modifies@.len() as nat)
        &&& forall|i: int|
            0 <= i < self.modifies@.len() ==> (#[trigger] self.modifies@[i]).encodable()
    }

    pub open spec fn fields_msgpack(self) -> Seq<u8> {
        text_bytes("modifies"@) + array_header(self.modifies@.len() as nat) + modifies_msgpack(
            self.modifies@,
        )
    }

    fn write_fields(&self, out: &mut Vec<u8>)
        requires
            self.encodable(),
        ensures
            final(out)@ == old(out)@ + self.fields_msgpack(),
    {
        let ghost start = out@;
        proof {
            reveal_strlit("modifies");
        }
        write_key(out, "modifies");
        write_modifies_msgpack(out, &self.modifies);
        assert(out@ =~= start + self.fields_msgpack());
    }
}

#[derive(Clone, Copy, Debug)]
pub struct UpdateLeverage {
    pub asset: u32,
    pub is_cross: bool,
    pub leverage: u32,
}

impl UpdateLeverage {
    pub open spec fn fields_msgpack(self) -> Seq<u8> {
        text_bytes("asset"@) + uint_bytes(self.asset as u64) + text_bytes("isCross"@) + bool_bytes(
            self.is_cross,
        ) + text_bytes("leverage"@) + uint_bytes(self.leverage as u64)
    }

    fn write_fields(&self, out: &mut Vec<u8>)
        ensures
            final(out)@ == old(out)@ + self.fields_msgpack(),
    {
        let ghost start = out@;
        proof {
            reveal_strlit("asset");
            reveal_strlit("isCross");
            reveal_strlit("leverage");
        }
        write_key(out, "asset");
        write_uint(out, self.asset as u64);
        write_key(out, "isCross");
        write_bool(out, self.is_cross);
        write_key(out, "leverage");
        write_uint(out, self.leverage as u64);
        assert(out@ =~= start + self.fields_msgpack());
    }
}

#[derive(Clone, Copy, Debug)]
pub struct UpdateIsolatedMargin {
    pub asset: u32,
    pub is_buy: bool,
    pub ntli: i64,
}

impl UpdateIsolatedMargin {
    pub open spec fn fields_msgpack(self) -> Seq<u8> {
        text_bytes("asset"@) + uint_bytes(self.asset as u64) + text_bytes("isBuy"@) + bool_bytes(
            self.is_buy,
        ) + text_bytes("ntli"@) + sint_bytes(self.ntli)
    }

    fn write_fields(&self, out: &mut Vec<u8>)
        ensures
            final(out)@ == old(out)@ + self.fields_msgpack(),
    {
        let ghost start = out@;
        proof {
            reveal_strlit("asset");
            reveal_strlit("isBuy");
            reveal_strlit("ntli");
        }
        write_key(out, "asset");
        write_uint(out, self.asset as u64);
        write_key(out, "isBuy");
        write_bool(out, self.is_buy);
        write_key(out, "ntli");
        write_sint(out, self.ntli);
        assert(out@ =~= start + self.fields_msgpack());
    }
}

/// A deposit to or withdrawal from a vault; `usd` is in micro-units.
#[derive(Clone, Copy, Debug)]
pub struct VaultTransfer {
    pub vault_address: Address,
    pub is_deposit: bool,
    pub usd: u64,
}

impl VaultTransfer {
    pub open spec fn fields_msgpack(self) -> Seq<u8> {
        text_bytes("vaultAddress"@) + str_bytes(address_text(self.vault_address)) + text_bytes(
            "isDeposit"@,
        ) + bool_bytes(self.is_deposit) + text_bytes("usd"@) + uint_bytes(self.usd)
    }

    fn write_fields(&self, out: &mut Vec<u8>)
        ensures
            final(out)@ == old(out)@ + self.fields_msgpack(),
    {
        let ghost start = out@;
        proof {
            reveal_strlit("vaultAddress");
            reveal_strlit("isDeposit");
            reveal_strlit("usd");
        }
        write_key(out, "vaultAddress");
        write_str_header(out, 42);
        self.vault_address.push_text(out);
        write_key(out, "isDeposit");
        write_bool(out, self.is_deposit);
        write_key(out, "usd");
        write_uint(out, self.usd);
        assert(out@ =~= start + self.fields_msgpack());
    }
}

#[derive(Clone, Debug)]
pub struct SetReferrer {
    pub code: String,
}

impl SetReferrer {
    pub open spec fn encodable(self) -> bool {
        text_fits(self.code@)
    }

    pub open spec fn fields_msgpack(self) -> Seq<u8> {
        text_bytes("code"@) + text_bytes(self.code@)
    }

    fn write_fields(&self, out: &mut Vec<u8>)
        requires
            self.encodable(),
        ensures
            final(out)@ == old(out)@ + self.fields_msgpack(),
    {
        let ghost start = out@;
        proof {
            reveal_strlit("code");
        }
        write_key(out, "code");
        write_str(out, self.code.as_str());
        assert(out@ =~= start + self.fields_msgpack());
    }
}


/// `[name, price]` pairs.
pub open spec fn pairs_msgpack(s: Seq<(String, String)>) -> Seq<u8>
    decreases s.len(),
{
    if s.len() == 0 {
        Seq::empty()
    } else {
        pairs_msgpack(s.drop_last()) + array_header(2) + text_bytes(s.last().0@) + text_bytes(
            s.last().1@,
        )
    }
}

pub open spec fn pairs_fit(s: Seq<(String, String)>) -> bool {
    &&& fits_len(s.len() as nat)
    &&& forall|i: int| 0 <= i < s.len() ==> text_fits((#[trigger] s[i]).0@) && text_fits(s[i].1@)
}

fn write_pairs(out: &mut Vec<u8>, v: &Vec<(String, String)>)
    requires
        pairs_fit(v@),
    ensures
        final(out)@ == old(out)@ + array_header(v@.len() as nat) + pairs_msgpack(v@),
{
    write_array_len(out, v.len());
    let ghost start = out@;
    let mut i: usize = 0;
    while i < v.len()
        invariant
            i <= v@.len(),
            pairs_fit(v@),
            out@ == start + pairs_msgpack(v@.subrange(0, i as int)),
        decreases v@.len() - i,
    {
        let ghost before = out@;
        write_array_len(out, 2);
        write_str(out, v[i].0.as_str());
        write_str(out, v[i].1.as_str());
        i = i + 1;
        assert(v@.subrange(0, i as int).drop_last() =~= v@.subrange(0, i as int - 1));
        assert(out@ =~= start + pairs_msgpack(v@.subrange(0, i as int)));
    }
    assert(v@.subrange(0, i as int) =~= v@);
}

pub open spec fn pair_lists_msgpack(s: Seq<Vec<(String, String)>>) -> Seq<u8>
    decreases s.len(),
{
    if s.len() == 0 {
        Seq::empty()
    } else {
        pair_lists_msgpack(s.drop_last()) + array_header(s.last()@.len() as nat) + pairs_msgpack(
            s.last()@,
        )
    }
}

/// New oracle and mark prices for the assets of a deployed perpetual dex.
#[derive(Clone, Debug)]
pub struct SetOracle {
    pub dex: String,
    pub oracle_pxs: Vec<(String, String)>,
    pub mark_pxs: Vec<Vec<(String, String)>>,
}

impl SetOracle {
    pub open spec fn encodable(self) -> bool {
        &&& text_fits(self.dex@)
        &&& pairs_fit(self.oracle_pxs@)
        &&& fits_len(self.mark_pxs@.len() as nat)
        &&& forall|i: int| 0 <= i < self.mark_pxs@.len() ==> pairs_fit((#[trigger] self.mark_pxs@[i])@)
    }

    pub open spec fn msgpack(self) -> Seq<u8> {
        map_header(3) + text_bytes("dex"@) + text_bytes(self.dex@) + text_bytes("oraclePxs"@)
            + array_header(self.oracle_pxs@.len() as nat) + pairs_msgpack(self.oracle_pxs@)
            + text_bytes("markPxs"@) + array_header(self.mark_pxs@.len() as nat)
            + pair_lists_msgpack(self.mark_pxs@)
    }

    pub fn write_msgpack(&self, out: &mut Vec<u8>)
        requires
            self.encodable(),
        ensures
            final(out)@ == old(out)@ + self.msgpack(),
    {
        let ghost start = out@;
        proof {
            reveal_strlit("dex");
            reveal_strlit("oraclePxs");
            reveal_strlit("markPxs");
        }
        write_map_len(out, 3);
        write_key(out, "dex");
        write_str(out, self.dex.as_str());
        write_key(out, "oraclePxs");
        write_pairs(out, &self.oracle_pxs);
        write_key(out, "markPxs");
        write_array_len(out, self.mark_pxs.len());
        let ghost lists = out@;
        let mut i: usize = 0;
        while i < self.mark_pxs.len()
            invariant
                i <= self.mark_pxs@.len(),
                self.encodable(),
                out@ == lists + pair_lists_msgpack(self.mark_pxs@.subrange(0, i as int)),
            decreases self.mark_pxs@.len() - i,
        {
            write_pairs(out, &self.mark_pxs[i]);
            i = i + 1;
            assert(self.mark_pxs@.subrange(0, i as int).drop_last() =~= self.mark_pxs@.subrange(
                0,
                i as int - 1,
            ));
            assert(out@ =~= lists + pair_lists_msgpack(self.mark_pxs@.subrange(0, i as int)));
        }
        assert(self.mark_pxs@.subrange(0, i as int) =~= self.mark_pxs@);
        assert(out@ =~= start + self.msgpack());
    }
}

/// An action of a perpetual-dex deployer.
#[derive(Clone, Debug)]
pub struct PerpDeploy {
    pub set_oracle: SetOracle,
}

impl PerpDeploy {
    pub open spec fn encodable(self) -> bool {
        self.set_oracle.encodable()
    }

    pub open spec fn fields_msgpack(self) -> Seq<u8> {
        text_bytes("setOracle"@) + self.set_oracle.msgpack()
    }

    fn write_fields(&self, out: &mut Vec<u8>)
        requires
            self.encodable(),
        ensures
            final(out)@ == old(out)@ + self.fields_msgpack(),
    {
        let ghost start = out@;
        proof {
            reveal_strlit("setOracle");
        }
        write_key(out, "setOracle");
        self.set_oracle.write_msgpack(out);
        assert(out@ =~= start + self.fields_msgpack());
    }
}

/// An action that is authenticated by signing its hash. Its wire form is
/// the payload's map with a leading `"type"` entry naming the variant.
#[derive(Clone, Debug)]
pub enum Actions {
    Order(BulkOrder),
    Cancel(BulkCancel),
    CancelByCloid(BulkCancelCloid),
    BatchModify(BulkModify),
    UpdateLeverage(UpdateLeverage),
    UpdateIsolatedMargin(UpdateIsolatedMargin),
    VaultTransfer(VaultTransfer),
    SetReferrer(SetReferrer),
    PerpDeploy(PerpDeploy),
}

impl Actions {
    pub open spec fn encodable(self) -> bool {
        match self {
            Actions::Order(a) => a.encodable(),
            Actions::Cancel(a) => a.encodable(),
            Actions::CancelByCloid(a) => a.encodable(),
            Actions::BatchModify(a) => a.encodable(),
            Actions::UpdateLeverage(a) => true,
            Actions::UpdateIsolatedMargin(a) => true,
            Actions::VaultTransfer(a) => true,
            Actions::SetReferrer(a) => a.encodable(),
            Actions::PerpDeploy(a) => a.encodable(),
        }
    }

    /// The value of the `"type"` entry.
    pub open spec fn tag(self) -> Seq<char> {
        match self {
            Actions::Order(_) => "order"@,
            Actions::Cancel(_) => "cancel"@,
            Actions::CancelByCloid(_) => "cancelByCloid"@,
            Actions::BatchModify(_) => "batchModify"@,
            Actions::UpdateLeverage(_) => "updateLeverage"@,
            Actions::UpdateIsolatedMargin(_) => "updateIsolatedMargin"@,
            Actions::VaultTransfer(_) => "vaultTransfer"@,
            Actions::SetReferrer(_) => "setReferrer"@,
            Actions::PerpDeploy(_) => "perpDeploy"@,
        }
    }

    /// The number of payload fields that are present.
    pub open spec fn field_count(self) -> nat {
        match self {
            Actions::Order(a) => a.field_count(),
            Actions::Cancel(a) => 1,
            Actions::CancelByCloid(a) => 1,
            Actions::BatchModify(a) => 1,
            Actions::UpdateLeverage(a) => 3,
            Actions::UpdateIsolatedMargin(a) => 3,
            Actions::VaultTransfer(a) => 3,
            Actions::SetReferrer(a) => 1,
            Actions::PerpDeploy(a) => 1,
        }
    }

    pub open spec fn fields_msgpack(self) -> Seq<u8> {
        match self {
            Actions::Order(a) => a.fields_msgpack(),
            Actions::Cancel(a) => a.fields_msgpack(),
            Actions::CancelByCloid(a) => a.fields_msgpack(),
            Actions::BatchModify(a) => a.fields_msgpack(),
            Actions::UpdateLeverage(a) => a.fields_msgpack(),
            Actions::UpdateIsolatedMargin(a) => a.fields_msgpack(),
            Actions::VaultTransfer(a) => a.fields_msgpack(),
            Actions::SetReferrer(a) => a.fields_msgpack(),
            Actions::PerpDeploy(a) => a.fields_msgpack(),
        }
    }

    /// The canonical MessagePack form of the action.
    pub open spec fn msgpack(self) -> Seq<u8> {
        map_header(self.field_count() + 1) + text_bytes("type"@) + text_bytes(self.tag())
            + self.fields_msgpack()
    }

    pub fn write_msgpack(&self, out: &mut Vec<u8>)
        requires
            self.encodable(),
        ensures
            final(out)@ == old(out)@ + self.msgpack(),
    {
        let ghost start = out@;
        proof {
            reveal_strlit("type");
            reveal_strlit("order");
            reveal_strlit("cancel");
            reveal_strlit("cancelByCloid");
            reveal_strlit("batchModify");
            reveal_strlit("updateLeverage");
            reveal_strlit("updateIsolatedMargin");
            reveal_strlit("vaultTransfer");
            reveal_strlit("setReferrer");
            reveal_strlit("perpDeploy");
        }
        match self {
            Actions::Order(a) => {
                write_map_len(out, if a.builder.is_some() { 4 } else { 3 });
                write_key(out, "type");
                write_key(out, "order");
                a.write_fields(out);
            },
            Actions::Cancel(a) => {
                write_map_len(out, 2);
                write_key(out, "type");
                write_key(out, "cancel");
                a.write_fields(out);
            },
            Actions::CancelByCloid(a) => {
                write_map_len(out, 2);
                write_key(out, "type");
                write_key(out, "cancelByCloid");
                a.write_fields(out);
            },
            Actions::BatchModify(a) => {
                write_map_len(out, 2);
                write_key(out, "type");
                write_key(out, "batchModify");
                a.write_fields(out);
            },
            Actions::UpdateLeverage(a) => {
                write_map_len(out, 4);
                write_key(out, "type");
                write_key(out, "updateLeverage");
                a.write_fields(out);
            },
            Actions::UpdateIsolatedMargin(a) => {
                write_map_len(out, 4);
                write_key(out, "type");
                write_key(out, "updateIsolatedMargin");
                a.write_fields(out);
            },
            Actions::VaultTransfer(a) => {
                write_map_len(out, 4);
                write_key(out, "type");
                write_key(out, "vaultTransfer");
                a.write_fields(out);
            },
            Actions::SetReferrer(a) => {
                write_map_len(out, 2);
                write_key(out, "type");
                write_key(out, "setReferrer");
                a.write_fields(out);
            },
            Actions::PerpDeploy(a) => {
                write_map_len(out, 2);
                write_key(out, "type");
                write_key(out, "perpDeploy");
                a.write_fields(out);
            },
        }
        assert(out@ =~= start + self.msgpack());
    }

    /// Hashes the action for signing; see [`action_preimage`].
    pub fn hash(&self, timestamp: u64, vault_address: Option<Address>) -> (r: Vec<u8>)
        requires
            self.encodable(),
        ensures
            r@ == keccak_of(action_preimage(*self, timestamp, vault_address)),
            r@.len() == 32,
    {
        let mut bytes: Vec<u8> = Vec::new();
        self.write_msgpack(&mut bytes);
        push_be(&mut bytes, timestamp, 8);
        match vault_address {
            Some(v) => {
                bytes.push(1);
                push_all(&mut bytes, v.bytes.as_slice());
            },
            None => {
                bytes.push(0);
            },
        }
        assert(bytes@ =~= action_preimage(*self, timestamp, vault_address));
        keccak(bytes.as_slice())
    }
}

/// The vault part of a hash preimage: a zero byte without a vault, else a
/// one byte and the vault's twenty bytes.
pub open spec fn vault_suffix(vault_address: Option<Address>) -> Seq<u8> {
    match vault_address {
        Some(v) => seq![1u8] + v.bytes@,
        None => seq![0u8],
    }
}

/// The bytes that are hashed for an action: its MessagePack form, the
/// timestamp as eight big-endian bytes, and the vault suffix.
pub open spec fn action_preimage(a: Actions, timestamp: u64, vault_address: Option<Address>) -> Seq<
    u8,
> {
    a.msgpack() + be_bytes(timestamp as nat, 8) + vault_suffix(vault_address)
}

/// The hashed bytes of one action pin down the context it was signed in:
/// two different timestamps, or two different vault choices, give two
/// different preimages. (The hash itself is a function of the preimage, so
/// equal inputs always give equal hashes.)
pub proof fn lemma_preimage_separates_context(
    a: Actions,
    t1: u64,
    v1: Option<Address>,
    t2: u64,
    v2: Option<Address>,
)
    requires
        t1 != t2 || v1 != v2,
    ensures
        action_preimage(a, t1, v1) != action_preimage(a, t2, v2),
{
    let first = action_preimage(a, t1, v1);
    let second = action_preimage(a, t2, v2);
    let m = a.msgpack().len() as int;
    crate::msgpack::lemma_be_bytes_value(t1 as nat, 8);
    crate::msgpack::lemma_be_bytes_value(t2 as nat, 8);
    if first == second {
        assert(first.subrange(m, m + 8) =~= be_bytes(t1 as nat, 8));
        assert(second.subrange(m, m + 8) =~= be_bytes(t2 as nat, 8));
        crate::msgpack::lemma_be_u64_injective(t1, t2);
        assert(first.subrange(m + 8, first.len() as int) =~= vault_suffix(v1));
        assert(second.subrange(m + 8, second.len() as int) =~= vault_suffix(v2));
        match (v1, v2) {
            (Some(x), Some(y)) => {
                assert forall|i: int| 0 <= i < 20 implies x.bytes[i] == y.bytes[i] by {
                    assert(vault_suffix(v1)[i + 1] == x.bytes@[i]);
                    assert(vault_suffix(v2)[i + 1] == y.bytes@[i]);
                }
                assert(x.bytes =~= y.bytes);
            },
            (Some(x), None) => {
                assert(vault_suffix(v1).len() == 21);
            },
            (None, Some(y)) => {
                assert(vault_suffix(v2).len() == 21);
            },
            (None, None) => {},
        }
    }
}

fn str_fits(s: &String) -> (r: bool)
    ensures
        r == text_fits(s@),
{
    s.as_str().as_bytes().len() <= 0xffff_ffff
}

fn pairs_fit_check(v: &Vec<(String, String)>) -> (r: bool)
    ensures
        r == pairs_fit(v@),
{
    if v.len() > 0xffff_ffff {
        return false;
    }
    let mut i: usize = 0;
    while i < v.len()
        invariant
            i <= v@.len(),
            forall|j: int| 0 <= j < i ==> text_fits((#[trigger] v@[j]).0@) && text_fits(v@[j].1@),
        decreases v@.len() - i,
    {
        if !str_fits(&v[i].0) || !str_fits(&v[i].1) {
            return false;
        }
        i = i + 1;
    }
    true
}

impl Order {
    fn check(&self) -> (r: bool)
        ensures
            r == self.encodable(),
    {
        match self {
            Order::Limit(l) => str_fits(&l.tif),
            Order::Trigger(t) => str_fits(&t.trigger_px) && str_fits(&t.tpsl),
        }
    }
}

impl OrderRequest {
    fn check(&self) -> (r: bool)
        ensures
            r == self.encodable(),
    {
        let cloid_fits = match &self.cloid {
            Some(c) => str_fits(c),
            None => true,
        };
        str_fits(&self.limit_px) && str_fits(&self.sz) && self.order_type.check() && cloid_fits
    }
}

fn orders_fit(v: &Vec<OrderRequest>) -> (r: bool)
    ensures
        r == (fits_len(v@.len() as nat) && forall|i: int|
            0 <= i < v@.len() ==> (#[trigger] v@[i]).encodable()),
{
    if v.len() > 0xffff_ffff {
        return false;
    }
    let mut i: usize = 0;
    while i < v.len()
        invariant
            i <= v@.len(),
            forall|j: int| 0 <= j < i ==> (#[trigger] v@[j]).encodable(),
        decreases v@.len() - i,
    {
        if !v[i].check() {
            return false;
        }
        i = i + 1;
    }
    true
}

fn cloid_cancels_fit(v: &Vec<CancelRequestCloid>) -> (r: bool)
    ensures
        r == (fits_len(v@.len() as nat) && forall|i: int|
            0 <= i < v@.len() ==> (#[trigger] v@[i]).encodable()),
{
    if v.len() > 0xffff_ffff {
        return false;
    }
    let mut i: usize = 0;
    while i < v.len()
        invariant
            i <= v@.len(),
            forall|j: int| 0 <= j < i ==> (#[trigger] v@[j]).encodable(),
        decreases v@.len() - i,
    {
        if !str_fits(&v[i].cloid) {
            return false;
        }
        i = i + 1;
    }
    true
}

fn modifies_fit(v: &Vec<ModifyRequest>) -> (r: bool)
    ensures
        r == (fits_len(v@.len() as nat) && forall|i: int|
            0 <= i < v@.len() ==> (#[trigger] v@[i]).encodable()),
{
    if v.len() > 0xffff_ffff {
        return false;
    }
    let mut i: usize = 0;
    while i < v.len()
        invariant
            i <= v@.len(),
            forall|j: int| 0 <= j < i ==> (#[trigger] v@[j]).encodable(),
        decreases v@.len() - i,
    {
        if !v[i].order.check() {
            return false;
        }
        i = i + 1;
    }
    true
}

fn mark_lists_fit(v: &Vec<Vec<(String, String)>>) -> (r: bool)
    ensures
        r == (fits_len(v@.len() as nat) && forall|i: int|
            0 <= i < v@.len() ==> pairs_fit((#[trigger] v@[i])@)),
{
    if v.len() > 0xffff_ffff {
        return false;
    }
    let mut i: usize = 0;
    while i < v.len()
        invariant
            i <= v@.len(),
            forall|j: int| 0 <= j < i ==> pairs_fit((#[trigger] v@[j])@),
        decreases v@.len() - i,
    {
        if !pairs_fit_check(&v[i]) {
            return false;
        }
        i = i + 1;
    }
    true
}

impl Actions {
    /// Whether every string and list of the action fits the encoding's
    /// 32-bit lengths, which [`Actions::hash`] requires.
    pub fn is_encodable(&self) -> (r: bool)
        ensures
            r == self.encodable(),
    {
        match self {
            Actions::Order(a) => {
                let builder_fits = match &a.builder {
                    Some(b) => str_fits(&b.builder),
                    None => true,
                };
                orders_fit(&a.orders) && str_fits(&a.grouping) && builder_fits
            },
            Actions::Cancel(a) => a.cancels.len() <= 0xffff_ffff,
            Actions::CancelByCloid(a) => cloid_cancels_fit(&a.cancels),
            Actions::BatchModify(a) => modifies_fit(&a.modifies),
            Actions::UpdateLeverage(_) => true,
            Actions::UpdateIsolatedMargin(_) => true,
            Actions::VaultTransfer(_) => true,
            Actions::SetReferrer(a) => str_fits(&a.code),
            Actions::PerpDeploy(a) => {
                let o = &a.set_oracle;
                str_fits(&o.dex) && pairs_fit_check(&o.oracle_pxs) && mark_lists_fit(&o.mark_pxs)
            },
        }
    }
}

} // verus!
