//! Signing keys, recoverable signatures, and the agent envelope that L1
//! action hashes are signed under.
use crate::crypto::{sign_prehash, signature_of, signs_ok};
use crate::eip712::{fields_view, hash_typed_data, signing_hash, FieldModel, FieldValue, TypedField};
use crate::error::Error;
use vstd::prelude::*;
use vstd::string::StringExecFns;

verus! {

/// A recoverable ECDSA signature; `v` is 27 or 28.
#[derive(Clone, Debug, PartialEq, Eq)]
pub struct Signature {
    pub r: Vec<u8>,
    pub s: Vec<u8>,
    pub v: u8,
}

impl Signature {
    /// Whether this signature is the 65-byte form `r ‖ s ‖ v`.
    pub open spec fn is_split_of(self, b: Seq<u8>) -> bool {
        &&& b.len() == 65
        &&& self.r@ == b.subrange(0, 32)
        &&& self.s@ == b.subrange(32, 64)
        &&& self.v == b[64]
    }

    /// The 65-byte form `r ‖ s ‖ v`.
    pub fn to_bytes(&self) -> (out: Vec<u8>)
        ensures
            out@ == self.r@ + self.s@ + seq![self.v],
    {
        let mut out: Vec<u8> = Vec::new();
        crate::msgpack::push_all(&mut out, self.r.as_slice());
        crate::msgpack::push_all(&mut out, self.s.as_slice());
        out.push(self.v);
        out
    }
}

fn copy_range(src: &Vec<u8>, lo: usize, hi: usize) -> (r: Vec<u8>)
    requires
        lo <= hi <= src@.len(),
    ensures
        r@ == src@.subrange(lo as int, hi as int),
{
    let mut r: Vec<u8> = Vec::new();
    let mut i: usize = lo;
    while i < hi
        invariant
            lo <= i <= hi <= src@.len(),
            r@ == src@.subrange(lo as int, i as int),
        decreases hi - i,
    {
        r.push(src[i]);
        i = i + 1;
        assert(r@ =~= src@.subrange(lo as int, i as int));
    }
    r
}

/// A secp256k1 secret key.
#[derive(Clone)]
pub struct Wallet {
    pub key: [u8; 32],
}

impl Wallet {
    /// Signs a 32-byte hash.
    pub fn sign_hash(&self, hash: &Vec<u8>) -> (r: Result<Signature, Error>)
        requires
            hash@.len() == 32,
        ensures
            r is Ok <==> signs_ok(self.key@, hash@),
            r matches Ok(sig) ==> sig.is_split_of(signature_of(self.key@, hash@)),
            r matches Ok(sig) ==> sig.v == 27 || sig.v == 28,
            r matches Err(e) ==> e == Error::SignatureFailure,
    {
        match sign_prehash(self.key.as_slice(), hash.as_slice()) {
            Some(b) => {
                let r = copy_range(&b, 0, 32);
                let s = copy_range(&b, 32, 64);
                Ok(Signature { r, s, v: b[64] })
            },
            None => Err(Error::SignatureFailure),
        }
    }
}

/// The `source` field of the agent envelope: `a` on mainnet, `b` on testnet.
pub open spec fn source_tag(is_mainnet: bool) -> Seq<char> {
    if is_mainnet {
        "a"@
    } else {
        "b"@
    }
}

/// The fields of the agent envelope that carries an action hash as its
/// connection id.
pub open spec fn agent_fields(source: Seq<char>, connection_id: Seq<u8>) -> Seq<
    (Seq<char>, FieldModel),
> {
    seq![("source"@, FieldModel::Text(source)), ("connectionId"@, FieldModel::Bytes32(connection_id))]
}

/// The hash that is signed for an L1 action: the agent envelope in the
/// `Exchange` domain on chain 1337.
pub open spec fn l1_signing_hash(connection_id: Seq<u8>, is_mainnet: bool) -> Seq<u8> {
    signing_hash("Exchange"@, 1337, "Agent"@, agent_fields(source_tag(is_mainnet), connection_id))
}

/// The chain id of the domain that the agent envelope is signed in.
pub const AGENT_CHAIN_ID: u64 = 1337;

fn agent_hash(connection_id: &Vec<u8>, is_mainnet: bool) -> (r: Vec<u8>)
    requires
        connection_id@.len() == 32,
    ensures
        r@ == l1_signing_hash(connection_id@, is_mainnet),
        r@.len() == 32,
{
    let source = if is_mainnet {
        String::from_str("a")
    } else {
        String::from_str("b")
    };
    let mut fields: Vec<TypedField> = Vec::new();
    fields.push(TypedField { name: "source", value: FieldValue::Text(source) });
    fields.push(TypedField { name: "connectionId", value: FieldValue::Bytes32(connection_id.clone()) });
    assert(fields_view(fields@) =~= agent_fields(source_tag(is_mainnet), connection_id@));
    hash_typed_data("Exchange", AGENT_CHAIN_ID, "Agent", &fields)
}

/// The signing hash of an action hash used as connection id.
pub fn l1_action_hash(connection_id: &Vec<u8>, is_mainnet: bool) -> (r: Vec<u8>)
    requires
        connection_id@.len() == 32,
    ensures
        r@ == l1_signing_hash(connection_id@, is_mainnet),
{
    agent_hash(connection_id, is_mainnet)
}

/// The mainnet signing hash of an action hash used as connection id.
pub fn encode_l1_action(connection_id: &Vec<u8>) -> (r: Result<Vec<u8>, Error>)
    requires
        connection_id@.len() == 32,
    ensures
        r matches Ok(h) && h@ == l1_signing_hash(connection_id@, true),
{
    Ok(agent_hash(connection_id, true))
}

/// Signs an action hash through the agent envelope.
pub fn sign_l1_action(wallet: &Wallet, connection_id: &Vec<u8>, is_mainnet: bool) -> (r: Result<
    Signature,
    Error,
>)
    requires
        connection_id@.len() == 32,
    ensures
        r is Ok <==> signs_ok(wallet.key@, l1_signing_hash(connection_id@, is_mainnet)),
        r matches Ok(sig) ==> sig.is_split_of(
            signature_of(wallet.key@, l1_signing_hash(connection_id@, is_mainnet)),
        ),
        r matches Err(e) ==> e == Error::SignatureFailure,
{
    let hash = agent_hash(connection_id, is_mainnet);
    wallet.sign_hash(&hash)
}

/// Signs a prepared structured-data signing hash.
pub fn sign_typed_data(signing_hash: &Vec<u8>, wallet: &Wallet) -> (r: Result<Signature, Error>)
    requires
        signing_hash@.len() == 32,
    ensures
        r is Ok <==> signs_ok(wallet.key@, signing_hash@),
        r matches Ok(sig) ==> sig.is_split_of(signature_of(wallet.key@, signing_hash@)),
        r matches Err(e) ==> e == Error::SignatureFailure,
{
    wallet.sign_hash(signing_hash)
}

} // verus!
