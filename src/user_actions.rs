//! Actions that the account owner signs directly as structured data.
//!
//! Each shape is a row of the field table that [`crate::eip712`] hashes:
//! its primary type is `HyperliquidTransaction:<Name>` and its domain is
//! `HyperliquidSignTransaction` on the action's own signature chain id.
use crate::address::{address_bytes_of, is_address_text, Address};
use crate::eip712::{well_sized, fields_view, hash_typed_data, signing_hash, FieldModel, FieldValue, TypedField};
use crate::error::Error;
use vstd::prelude::*;

verus! {

/// Signing hash of a user-signed action with the given primary type.
pub open spec fn user_signing_hash(
    chain_id: u64,
    primary: Seq<char>,
    fs: Seq<(Seq<char>, FieldModel)>,
) -> Seq<u8> {
    signing_hash("HyperliquidSignTransaction"@, chain_id, primary, fs)
}

/// Sends USDC between accounts.
#[derive(Clone, Debug)]
pub struct UsdSend {
    pub signature_chain_id: u64,
    pub hyperliquid_chain: String,
    pub destination: String,
    pub amount: String,
    pub time: u64,
}

impl UsdSend {
    /// The signed fields, in declared order.
    pub open spec fn fields(self) -> Seq<(Seq<char>, FieldModel)> {
        seq![
            ("hyperliquidChain"@, FieldModel::Text(self.hyperliquid_chain@)),
            ("destination"@, FieldModel::Text(self.destination@)),
            ("amount"@, FieldModel::Text(self.amount@)),
            ("time"@, FieldModel::Uint64(self.time)),
        ]
    }

    pub fn typed_fields(&self) -> (r: Vec<TypedField>)
        ensures
            fields_view(r@) == self.fields(),
    {
        let mut v: Vec<TypedField> = Vec::new();
        v.push(TypedField { name: "hyperliquidChain", value: FieldValue::Text(self.hyperliquid_chain.clone()) });
        v.push(TypedField { name: "destination", value: FieldValue::Text(self.destination.clone()) });
        v.push(TypedField { name: "amount", value: FieldValue::Text(self.amount.clone()) });
        v.push(TypedField { name: "time", value: FieldValue::Uint64(self.time) });
        assert(fields_view(v@) =~= self.fields());
        v
    }

    pub fn eip712_signing_hash(&self) -> (r: Vec<u8>)
        ensures
            r@ == user_signing_hash(
                self.signature_chain_id,
                "HyperliquidTransaction:UsdSend"@,
                self.fields(),
            ),
    {
        let fields = self.typed_fields();
        hash_typed_data(
            "HyperliquidSignTransaction",
            self.signature_chain_id,
            "HyperliquidTransaction:UsdSend",
            &fields,
        )
    }
}

/// Withdraws USDC from the exchange.
#[derive(Clone, Debug)]
pub struct Withdraw3 {
    pub hyperliquid_chain: String,
    pub signature_chain_id: u64,
    pub amount: String,
    pub time: u64,
    pub destination: String,
}

impl Withdraw3 {
    /// The signed fields, in declared order.
    pub open spec fn fields(self) -> Seq<(Seq<char>, FieldModel)> {
        seq![
            ("hyperliquidChain"@, FieldModel::Text(self.hyperliquid_chain@)),
            ("destination"@, FieldModel::Text(self.destination@)),
            ("amount"@, FieldModel::Text(self.amount@)),
            ("time"@, FieldModel::Uint64(self.time)),
        ]
    }

    pub fn typed_fields(&self) -> (r: Vec<TypedField>)
        ensures
            fields_view(r@) == self.fields(),
    {
        let mut v: Vec<TypedField> = Vec::new();
        v.push(TypedField { name: "hyperliquidChain", value: FieldValue::Text(self.hyperliquid_chain.clone()) });
        v.push(TypedField { name: "destination", value: FieldValue::Text(self.destination.clone()) });
        v.push(TypedField { name: "amount", value: FieldValue::Text(self.amount.clone()) });
        v.push(TypedField { name: "time", value: FieldValue::Uint64(self.time) });
        assert(fields_view(v@) =~= self.fields());
        v
    }

    pub fn eip712_signing_hash(&self) -> (r: Vec<u8>)
        ensures
            r@ == user_signing_hash(
                self.signature_chain_id,
                "HyperliquidTransaction:Withdraw"@,
                self.fields(),
            ),
    {
        let fields = self.typed_fields();
        hash_typed_data(
            "HyperliquidSignTransaction",
            self.signature_chain_id,
            "HyperliquidTransaction:Withdraw",
            &fields,
        )
    }
}

/// Sends a spot token between accounts.
#[derive(Clone, Debug)]
pub struct SpotSend {
    pub hyperliquid_chain: String,
    pub signature_chain_id: u64,
    pub destination: String,
    pub token: String,
    pub amount: String,
    pub time: u64,
}

impl SpotSend {
    /// The signed fields, in declared order.
    pub open spec fn fields(self) -> Seq<(Seq<char>, FieldModel)> {
        seq![
            ("hyperliquidChain"@, FieldModel::Text(self.hyperliquid_chain@)),
            ("destination"@, FieldModel::Text(self.destination@)),
            ("token"@, FieldModel::Text(self.token@)),
            ("amount"@, FieldModel::Text(self.amount@)),
            ("time"@, FieldModel::Uint64(self.time)),
        ]
    }

    pub fn typed_fields(&self) -> (r: Vec<TypedField>)
        ensures
            fields_view(r@) == self.fields(),
    {
        let mut v: Vec<TypedField> = Vec::new();
        v.push(TypedField { name: "hyperliquidChain", value: FieldValue::Text(self.hyperliquid_chain.clone()) });
        v.push(TypedField { name: "destination", value: FieldValue::Text(self.destination.clone()) });
        v.push(TypedField { name: "token", value: FieldValue::Text(self.token.clone()) });
        v.push(TypedField { name: "amount", value: FieldValue::Text(self.amount.clone()) });
        v.push(TypedField { name: "time", value: FieldValue::Uint64(self.time) });
        assert(fields_view(v@) =~= self.fields());
        v
    }

    pub fn eip712_signing_hash(&self) -> (r: Vec<u8>)
        ensures
            r@ == user_signing_hash(
                self.signature_chain_id,
                "HyperliquidTransaction:SpotSend"@,
                self.fields(),
            ),
    {
        let fields = self.typed_fields();
        hash_typed_data(
            "HyperliquidSignTransaction",
            self.signature_chain_id,
            "HyperliquidTransaction:SpotSend",
            &fields,
        )
    }
}

/// Moves USDC between the spot and perpetual balances.
#[derive(Clone, Debug)]
pub struct ClassTransfer {
    pub amount: String,
    pub to_perp: bool,
    pub nonce: u64,
    pub hyperliquid_chain: String,
    pub signature_chain_id: u64,
}

impl ClassTransfer {
    /// The signed fields, in declared order.
    pub open spec fn fields(self) -> Seq<(Seq<char>, FieldModel)> {
        seq![
            ("hyperliquidChain"@, FieldModel::Text(self.hyperliquid_chain@)),
            ("amount"@, FieldModel::Text(self.amount@)),
            ("toPerp"@, FieldModel::Bool(self.to_perp)),
            ("nonce"@, FieldModel::Uint64(self.nonce)),
        ]
    }

    pub fn typed_fields(&self) -> (r: Vec<TypedField>)
        ensures
            fields_view(r@) == self.fields(),
    {
        let mut v: Vec<TypedField> = Vec::new();
        v.push(TypedField { name: "hyperliquidChain", value: FieldValue::Text(self.hyperliquid_chain.clone()) });
        v.push(TypedField { name: "amount", value: FieldValue::Text(self.amount.clone()) });
        v.push(TypedField { name: "toPerp", value: FieldValue::Bool(self.to_perp) });
        v.push(TypedField { name: "nonce", value: FieldValue::Uint64(self.nonce) });
        assert(fields_view(v@) =~= self.fields());
        v
    }

    pub fn eip712_signing_hash(&self) -> (r: Vec<u8>)
        ensures
            r@ == user_signing_hash(
                self.signature_chain_id,
                "HyperliquidTransaction:UsdClassTransfer"@,
                self.fields(),
            ),
    {
        let fields = self.typed_fields();
        hash_typed_data(
            "HyperliquidSignTransaction",
            self.signature_chain_id,
            "HyperliquidTransaction:UsdClassTransfer",
            &fields,
        )
    }
}

/// Sends an asset between dexes and sub-accounts.
#[derive(Clone, Debug)]
pub struct SendAsset {
    pub hyperliquid_chain: String,
    pub signature_chain_id: u64,
    pub destination: String,
    pub source_dex: String,
    pub destination_dex: String,
    pub token: String,
    pub amount: String,
    pub from_sub_account: String,
    pub nonce: u64,
}

impl SendAsset {
    /// The signed fields, in declared order.
    pub open spec fn fields(self) -> Seq<(Seq<char>, FieldModel)> {
        seq![
            ("hyperliquidChain"@, FieldModel::Text(self.hyperliquid_chain@)),
            ("destination"@, FieldModel::Text(self.destination@)),
            ("sourceDex"@, FieldModel::Text(self.source_dex@)),
            ("destinationDex"@, FieldModel::Text(self.destination_dex@)),
            ("token"@, FieldModel::Text(self.token@)),
            ("amount"@, FieldModel::Text(self.amount@)),
            ("fromSubAccount"@, FieldModel::Text(self.from_sub_account@)),
            ("nonce"@, FieldModel::Uint64(self.nonce)),
        ]
    }

    pub fn typed_fields(&self) -> (r: Vec<TypedField>)
        ensures
            fields_view(r@) == self.fields(),
    {
        let mut v: Vec<TypedField> = Vec::new();
        v.push(TypedField { name: "hyperliquidChain", value: FieldValue::Text(self.hyperliquid_chain.clone()) });
        v.push(TypedField { name: "destination", value: FieldValue::Text(self.destination.clone()) });
        v.push(TypedField { name: "sourceDex", value: FieldValue::Text(self.source_dex.clone()) });
        v.push(TypedField { name: "destinationDex", value: FieldValue::Text(self.destination_dex.clone()) });
        v.push(TypedField { name: "token", value: FieldValue::Text(self.token.clone()) });
        v.push(TypedField { name: "amount", value: FieldValue::Text(self.amount.clone()) });
        v.push(TypedField { name: "fromSubAccount", value: FieldValue::Text(self.from_sub_account.clone()) });
        v.push(TypedField { name: "nonce", value: FieldValue::Uint64(self.nonce) });
        assert(fields_view(v@) =~= self.fields());
        v
    }

    pub fn eip712_signing_hash(&self) -> (r: Vec<u8>)
        ensures
            r@ == user_signing_hash(
                self.signature_chain_id,
                "HyperliquidTransaction:SendAsset"@,
                self.fields(),
            ),
    {
        let fields = self.typed_fields();
        hash_typed_data(
            "HyperliquidSignTransaction",
            self.signature_chain_id,
            "HyperliquidTransaction:SendAsset",
            &fields,
        )
    }
}

/// Wraps a class transfer for the spot user action.
#[derive(Clone, Debug)]
pub struct SpotUser {
    pub class_transfer: ClassTransfer,
}

/// Approves an agent key to trade on the account's behalf.
#[derive(Clone, Debug)]
pub struct ApproveAgent {
    pub signature_chain_id: u64,
    pub hyperliquid_chain: String,
    pub agent_address: Address,
    pub agent_name: Option<String>,
    pub nonce: u64,
}

impl ApproveAgent {
    /// The agent name, empty when absent.
    pub open spec fn name_text(self) -> Seq<char> {
        match self.agent_name {
            Some(n) => n@,
            None => Seq::empty(),
        }
    }

    pub open spec fn fields(self) -> Seq<(Seq<char>, FieldModel)> {
        seq![
            ("hyperliquidChain"@, FieldModel::Text(self.hyperliquid_chain@)),
            ("agentAddress"@, FieldModel::Address(self.agent_address.bytes@)),
            ("agentName"@, FieldModel::Text(self.name_text())),
            ("nonce"@, FieldModel::Uint64(self.nonce)),
        ]
    }

    pub fn typed_fields(&self) -> (r: Vec<TypedField>)
        ensures
            fields_view(r@) == self.fields(),
    {
        let name = match &self.agent_name {
            Some(n) => n.clone(),
            None => String::new(),
        };
        let mut v: Vec<TypedField> = Vec::new();
        v.push(TypedField { name: "hyperliquidChain", value: FieldValue::Text(self.hyperliquid_chain.clone()) });
        v.push(TypedField { name: "agentAddress", value: FieldValue::Address(self.agent_address) });
        v.push(TypedField { name: "agentName", value: FieldValue::Text(name) });
        v.push(TypedField { name: "nonce", value: FieldValue::Uint64(self.nonce) });
        assert(fields_view(v@) =~= self.fields());
        v
    }

    pub fn eip712_signing_hash(&self) -> (r: Vec<u8>)
        ensures
            r@ == user_signing_hash(
                self.signature_chain_id,
                "HyperliquidTransaction:ApproveAgent"@,
                self.fields(),
            ),
    {
        let fields = self.typed_fields();
        hash_typed_data(
            "HyperliquidSignTransaction",
            self.signature_chain_id,
            "HyperliquidTransaction:ApproveAgent",
            &fields,
        )
    }
}

/// Approves a builder to charge fees up to a maximum rate. The builder is
/// given as address text.
#[derive(Clone, Debug)]
pub struct ApproveBuilderFee {
    pub max_fee_rate: String,
    pub builder: String,
    pub nonce: u64,
    pub signature_chain_id: u64,
    pub hyperliquid_chain: String,
}

impl ApproveBuilderFee {
    /// Whether the builder string denotes an address.
    pub open spec fn builder_is_address(self) -> bool {
        is_address_text(vstd::utf8::encode_utf8(self.builder@))
    }

    pub open spec fn fields(self) -> Seq<(Seq<char>, FieldModel)> {
        seq![
            ("hyperliquidChain"@, FieldModel::Text(self.hyperliquid_chain@)),
            ("maxFeeRate"@, FieldModel::Text(self.max_fee_rate@)),
            ("builder"@, FieldModel::Address(address_bytes_of(vstd::utf8::encode_utf8(self.builder@)))),
            ("nonce"@, FieldModel::Uint64(self.nonce)),
        ]
    }

    /// The field table; fails when the builder is not an address.
    pub fn typed_fields(&self) -> (r: Result<Vec<TypedField>, Error>)
        ensures
            r is Ok <==> self.builder_is_address(),
            r is Ok ==> fields_view(r->Ok_0@) == self.fields(),
            r is Ok ==> well_sized(r->Ok_0@),
            r is Err ==> r->Err_0 == Error::InvalidAddress,
    {
        let builder = match Address::parse(self.builder.as_str()) {
            Some(a) => a,
            None => {
                return Err(Error::InvalidAddress);
            },
        };
        let mut v: Vec<TypedField> = Vec::new();
        v.push(TypedField { name: "hyperliquidChain", value: FieldValue::Text(self.hyperliquid_chain.clone()) });
        v.push(TypedField { name: "maxFeeRate", value: FieldValue::Text(self.max_fee_rate.clone()) });
        v.push(TypedField { name: "builder", value: FieldValue::Address(builder) });
        v.push(TypedField { name: "nonce", value: FieldValue::Uint64(self.nonce) });
        assert(fields_view(v@) =~= self.fields());
        Ok(v)
    }

    /// The signing hash; fails when the builder is not an address.
    pub fn eip712_signing_hash(&self) -> (r: Result<Vec<u8>, Error>)
        ensures
            r is Ok <==> self.builder_is_address(),
            r is Ok ==> r->Ok_0@ == user_signing_hash(
                self.signature_chain_id,
                "HyperliquidTransaction:ApproveBuilderFee"@,
                self.fields(),
            ),
            r is Err ==> r->Err_0 == Error::InvalidAddress,
    {
        let fields = self.typed_fields()?;
        Ok(
            hash_typed_data(
                "HyperliquidSignTransaction",
                self.signature_chain_id,
                "HyperliquidTransaction:ApproveBuilderFee",
                &fields,
            ),
        )
    }
}

} // verus!
