//! Turning an action into an authenticated request: nonce, action hash,
//! signature.
use crate::actions::{action_preimage, pairs_fit, Actions, PerpDeploy, SetOracle};
use crate::address::Address;
use crate::crypto::{keccak_of, signature_of, signs_ok};
use crate::error::Error;
use crate::nonce::{next_nonce, NonceProvider};
use crate::signature::{l1_signing_hash, sign_l1_action, Signature, Wallet};
use vstd::prelude::*;
use vstd::seq_lib::group_to_multiset_ensures;

verus! {

/// A signed action, ready to be sent as
/// `{action, signature: {r, s, v}, nonce, vaultAddress}`.
#[derive(Clone, Debug)]
pub struct SignedAction {
    pub action: Actions,
    pub signature: Signature,
    pub nonce: u64,
    pub vault_address: Option<Address>,
}

/// The hash signed for an action at `nonce`: the action hash, used as
/// connection id in the agent envelope.
pub open spec fn action_signing_hash(
    action: Actions,
    nonce: u64,
    vault_address: Option<Address>,
    is_mainnet: bool,
) -> Seq<u8> {
    l1_signing_hash(keccak_of(action_preimage(action, nonce, vault_address)), is_mainnet)
}

/// The signature owed for an action signed at `nonce` with `key`.
pub open spec fn action_signature(
    key: Seq<u8>,
    action: Actions,
    nonce: u64,
    vault_address: Option<Address>,
    is_mainnet: bool,
) -> Seq<u8> {
    signature_of(key, action_signing_hash(action, nonce, vault_address, is_mainnet))
}

/// The nonce an action is signed at: the one given, else the provider's
/// next nonce after `last` at clock reading `now_ms`.
pub open spec fn resolved_nonce(explicit_nonce: Option<u64>, last: u64, now_ms: u64) -> u64 {
    match explicit_nonce {
        Some(n) => n,
        None => next_nonce(last, now_ms),
    }
}

/// An action with the hash that its signature must cover, for a caller
/// that signs it elsewhere.
#[derive(Clone, Debug)]
pub struct MessageResponse {
    pub action: Actions,
    pub message: Vec<u8>,
    pub nonce: u64,
}

/// Lexicographic order of byte strings.
pub open spec fn bytes_le(a: Seq<u8>, b: Seq<u8>) -> bool
    decreases a.len(),
{
    if a.len() == 0 {
        true
    } else if b.len() == 0 {
        false
    } else if a[0] != b[0] {
        a[0] < b[0]
    } else {
        bytes_le(a.drop_first(), b.drop_first())
    }
}

/// Whether `(name, price)` pairs are in order of their names' bytes.
pub open spec fn sorted_by_name(s: Seq<(String, String)>) -> bool {
    forall|i: int, j: int|
        0 <= i < j < s.len() ==> bytes_le(
            vstd::utf8::encode_utf8((#[trigger] s[i]).0@),
            vstd::utf8::encode_utf8((#[trigger] s[j]).0@),
        )
}

/// Relies on `slice::sort`, which orders the pairs by their derived order:
/// first by name, where `String`'s order compares the bytes
/// lexicographically, then by price.
#[verifier::external_body]
fn sort_by_name(v: &mut Vec<(String, String)>)
    ensures
        final(v)@.to_multiset() == old(v)@.to_multiset(),
        sorted_by_name(final(v)@),
{
    v.sort();
}

fn sort_fitting(v: &mut Vec<(String, String)>)
    requires
        pairs_fit(old(v)@),
    ensures
        final(v)@.to_multiset() == old(v)@.to_multiset(),
        sorted_by_name(final(v)@),
        pairs_fit(final(v)@),
{
    broadcast use group_to_multiset_ensures;

    sort_by_name(v);
    assert(v@.len() == v@.to_multiset().len());
    assert(old(v)@.len() == old(v)@.to_multiset().len());
    assert forall|i: int| 0 <= i < v@.len() implies crate::msgpack::text_fits(
        (#[trigger] v@[i]).0@,
    ) && crate::msgpack::text_fits(v@[i].1@) by {
        assert(v@.contains(v@[i]));
        assert(v@.to_multiset().count(v@[i]) > 0);
        assert(old(v)@.contains(v@[i]));
    }
}

/// Whether `sorted` holds the pairs of `given` in order of their names.
pub open spec fn is_sorted_copy(sorted: Seq<(String, String)>, given: Seq<(String, String)>) -> bool {
    sorted.to_multiset() == given.to_multiset() && sorted_by_name(sorted)
}

/// Signs actions for one account, optionally on behalf of a vault.
pub struct ExchangeClient {
    pub wallet: Wallet,
    pub vault_address: Option<Address>,
    pub is_mainnet: bool,
    pub nonces: NonceProvider,
}

impl ExchangeClient {
    pub fn new(wallet: Wallet, vault_address: Option<Address>, is_mainnet: bool) -> (r: ExchangeClient)
        ensures
            r.wallet == wallet,
            r.vault_address == vault_address,
            r.is_mainnet == is_mainnet,
            r.nonces.last() == 0,
    {
        ExchangeClient { wallet, vault_address, is_mainnet, nonces: NonceProvider::new() }
    }

    /// Signs an action at the given nonce, or at the next nonce of the
    /// provider for clock reading `now_ms` when none is given (only then is
    /// a nonce consumed).
    pub fn sign_action(&mut self, action: Actions, explicit_nonce: Option<u64>, now_ms: u64) -> (r:
        Result<SignedAction, Error>)
        requires
            action.encodable(),
        ensures
            final(self).wallet == old(self).wallet,
            final(self).vault_address == old(self).vault_address,
            final(self).is_mainnet == old(self).is_mainnet,
            final(self).nonces.last() == match explicit_nonce {
                Some(_) => old(self).nonces.last(),
                None => next_nonce(old(self).nonces.last(), now_ms),
            },
            r is Ok <==> signs_ok(
                old(self).wallet.key@,
                action_signing_hash(
                    action,
                    resolved_nonce(explicit_nonce, old(self).nonces.last(), now_ms),
                    old(self).vault_address,
                    old(self).is_mainnet,
                ),
            ),
            r matches Ok(req) ==> {
                &&& req.nonce == resolved_nonce(explicit_nonce, old(self).nonces.last(), now_ms)
                &&& req.action == action
                &&& req.vault_address == old(self).vault_address
                &&& req.signature.is_split_of(
                    action_signature(
                        old(self).wallet.key@,
                        action,
                        req.nonce,
                        old(self).vault_address,
                        old(self).is_mainnet,
                    ),
                )
            },
            r matches Err(e) ==> e == Error::SignatureFailure,
    {
        let nonce = match explicit_nonce {
            Some(n) => n,
            None => self.nonces.next(now_ms),
        };
        let connection_id = action.hash(nonce, self.vault_address);
        let signature = sign_l1_action(&self.wallet, &connection_id, self.is_mainnet)?;
        Ok(SignedAction { action, signature, nonce, vault_address: self.vault_address })
    }

    /// The hash to sign for an action, at the given nonce or at the next
    /// nonce of the provider (only then is a nonce consumed).
    pub fn prepare_message(&mut self, action: Actions, explicit_nonce: Option<u64>, now_ms: u64) -> (r:
        MessageResponse)
        requires
            action.encodable(),
        ensures
            final(self).wallet == old(self).wallet,
            final(self).vault_address == old(self).vault_address,
            final(self).is_mainnet == old(self).is_mainnet,
            r.nonce == match explicit_nonce {
                Some(n) => n,
                None => next_nonce(old(self).nonces.last(), now_ms),
            },
            final(self).nonces.last() == match explicit_nonce {
                Some(_) => old(self).nonces.last(),
                None => next_nonce(old(self).nonces.last(), now_ms),
            },
            r.action == action,
            r.message@ == l1_signing_hash(
                keccak_of(action_preimage(action, r.nonce, old(self).vault_address)),
                old(self).is_mainnet,
            ),
    {
        let nonce = match explicit_nonce {
            Some(n) => n,
            None => self.nonces.next(now_ms),
        };
        let connection_id = action.hash(nonce, self.vault_address);
        let message = crate::signature::l1_action_hash(&connection_id, self.is_mainnet);
        MessageResponse { action, message, nonce }
    }

    /// Signs new oracle and mark prices for a deployed dex at the next
    /// nonce. Every list of prices is put in order of the asset names.
    pub fn perp_deploy_set_oracle(
        &mut self,
        dex: String,
        oracle_pxs: Vec<(String, String)>,
        mark_pxs: Vec<Vec<(String, String)>>,
        now_ms: u64,
    ) -> (r: Result<SignedAction, Error>)
        requires
            crate::msgpack::text_fits(dex@),
            pairs_fit(oracle_pxs@),
            crate::actions::fits_len(mark_pxs@.len() as nat),
            forall|i: int| 0 <= i < mark_pxs@.len() ==> pairs_fit((#[trigger] mark_pxs@[i])@),
        ensures
            final(self).nonces.last() == next_nonce(old(self).nonces.last(), now_ms),
            final(self).wallet == old(self).wallet,
            final(self).vault_address == old(self).vault_address,
            r matches Ok(req) ==> {
                &&& req.nonce == next_nonce(old(self).nonces.last(), now_ms)
                &&& req.vault_address == old(self).vault_address
                &&& req.action matches Actions::PerpDeploy(p) && {
                    &&& p.set_oracle.dex == dex
                    &&& is_sorted_copy(p.set_oracle.oracle_pxs@, oracle_pxs@)
                    &&& p.set_oracle.mark_pxs@.len() == mark_pxs@.len()
                    &&& forall|i: int|
                        0 <= i < mark_pxs@.len() ==> is_sorted_copy(
                            (#[trigger] p.set_oracle.mark_pxs@[i])@,
                            mark_pxs@[i]@,
                        )
                }
                &&& req.signature.is_split_of(
                    action_signature(
                        old(self).wallet.key@,
                        req.action,
                        req.nonce,
                        old(self).vault_address,
                        old(self).is_mainnet,
                    ),
                )
            },
            r matches Ok(req) ==> signs_ok(
                old(self).wallet.key@,
                action_signing_hash(
                    req.action,
                    req.nonce,
                    old(self).vault_address,
                    old(self).is_mainnet,
                ),
            ),
            r is Err ==> exists|p: SetOracle|
                {
                    &&& p.dex == dex
                    &&& is_sorted_copy(p.oracle_pxs@, oracle_pxs@)
                    &&& p.mark_pxs@.len() == mark_pxs@.len()
                    &&& (forall|i: int|
                        0 <= i < mark_pxs@.len() ==> is_sorted_copy(
                            (#[trigger] p.mark_pxs@[i])@,
                            mark_pxs@[i]@,
                        ))
                    &&& !signs_ok(
                        old(self).wallet.key@,
                        action_signing_hash(
                            Actions::PerpDeploy(PerpDeploy { set_oracle: p }),
                            next_nonce(old(self).nonces.last(), now_ms),
                            old(self).vault_address,
                            old(self).is_mainnet,
                        ),
                    )
                },
            r matches Err(e) ==> e == Error::SignatureFailure,
    {
        let mut oracle = oracle_pxs;
        sort_fitting(&mut oracle);
        let mut rest = mark_pxs;
        let ghost given = rest@;
        let mut marks: Vec<Vec<(String, String)>> = Vec::new();
        while rest.len() > 0
            invariant
                marks@.len() + rest@.len() == given.len(),
                rest@ == given.subrange(marks@.len() as int, given.len() as int),
                forall|i: int| 0 <= i < given.len() ==> pairs_fit((#[trigger] given[i])@),
                forall|i: int|
                    0 <= i < marks@.len() ==> is_sorted_copy((#[trigger] marks@[i])@, given[i]@)
                        && pairs_fit(marks@[i]@),
            decreases rest@.len(),
        {
            let mut m = rest.remove(0);
            assert(m@ == given[marks@.len() as int]@);
            sort_fitting(&mut m);
            marks.push(m);
            assert(rest@ =~= given.subrange(marks@.len() as int, given.len() as int));
        }
        let set_oracle = SetOracle { dex, oracle_pxs: oracle, mark_pxs: marks };
        let ghost sorted = set_oracle;
        let action = Actions::PerpDeploy(PerpDeploy { set_oracle });
        let r = self.sign_action(action, None, now_ms);
        proof {
            if r is Err {
                assert(sorted.mark_pxs@.len() == given.len());
            }
        }
        r
    }
}

} // verus!
