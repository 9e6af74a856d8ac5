use hyperliquid_rust_sdk::actions::{Actions, BulkOrder, Limit, Order, OrderRequest};
use hyperliquid_rust_sdk::exchange_client::ExchangeClient;
use hyperliquid_rust_sdk::signature::{encode_l1_action, sign_l1_action, Wallet};

fn wallet() -> Wallet {
    let bytes = hex::decode("e908f86dbb4d55ac876378565aafeabc187f6690f046459397b17d9b9a19688e").unwrap();
    let mut key = [0u8; 32];
    key.copy_from_slice(&bytes);
    Wallet { key }
}

fn limit_order_action() -> Actions {
    Actions::Order(BulkOrder {
        orders: vec![OrderRequest {
            asset: 1,
            is_buy: true,
            limit_px: "2000.0".to_string(),
            sz: "3.5".to_string(),
            reduce_only: false,
            order_type: Order::Limit(Limit { tif: "Ioc".to_string() }),
            cloid: None,
        }],
        grouping: "na".to_string(),
        builder: None,
    })
}

fn sig_hex(sig: &hyperliquid_rust_sdk::signature::Signature) -> String {
    hex::encode(sig.to_bytes())
}

#[test]
fn limit_order_signature_matches_reference_vector() {
    let wallet = wallet();
    let connection_id = limit_order_action().hash(1583838, None);
    let mainnet = sign_l1_action(&wallet, &connection_id, true).unwrap();
    assert_eq!(
        sig_hex(&mainnet),
        "77957e58e70f43b6b68581f2dc42011fc384538a2e5b7bf42d5b936f19fbb67360721a8598727230f67080efee48c812a6a4442013fd3b0eed509171bef9f23f1c"
    );
    let testnet = sign_l1_action(&wallet, &connection_id, false).unwrap();
    assert_eq!(
        sig_hex(&testnet),
        "cd0925372ff1ed499e54883e9a6205ecfadec748f80ec463fe2f84f1209648776377961965cb7b12414186b1ea291e95fd512722427efcbcfb3b0b2bcd4d79d01c"
    );
}

#[test]
fn exchange_client_signs_with_explicit_nonce() {
    let mut client = ExchangeClient::new(wallet(), None, true);
    let signed = client.sign_action(limit_order_action(), Some(1583838), 99).unwrap();
    assert_eq!(signed.nonce, 1583838);
    assert_eq!(
        sig_hex(&signed.signature),
        "77957e58e70f43b6b68581f2dc42011fc384538a2e5b7bf42d5b936f19fbb67360721a8598727230f67080efee48c812a6a4442013fd3b0eed509171bef9f23f1c"
    );
    assert_eq!(client.nonces.last_issued(), 0);
}

#[test]
fn signature_recovers_to_signing_key() {
    let wallet = wallet();
    let connection_id = limit_order_action().hash(1583838, None);
    let hash = encode_l1_action(&connection_id).unwrap();
    let sig = sign_l1_action(&wallet, &connection_id, true).unwrap();
    let raw = sig.to_bytes();
    let parsed = alloy::primitives::Signature::from_raw(&raw).unwrap();
    let recovered = parsed
        .recover_address_from_prehash(&alloy::primitives::B256::from_slice(&hash))
        .unwrap();
    let signer = alloy::signers::local::PrivateKeySigner::from_slice(&wallet.key).unwrap();
    assert_eq!(recovered, signer.address());
    assert!(sig.v == 27 || sig.v == 28);
}

#[test]
fn prepared_message_is_the_agent_hash_of_the_action_hash() {
    let mut client = ExchangeClient::new(wallet(), None, true);
    let prepared = client.prepare_message(limit_order_action(), None, 1583838);
    assert_eq!(prepared.nonce, 1583838);
    assert_eq!(client.nonces.last_issued(), 1583838);
    let connection_id = limit_order_action().hash(1583838, None);
    assert_eq!(prepared.message, encode_l1_action(&connection_id).unwrap());
    let again = client.prepare_message(limit_order_action(), None, 1583838);
    assert_eq!(again.nonce, 1583839);
    assert_ne!(again.message, prepared.message);
}

#[test]
fn zero_key_fails_every_signing_path() {
    let zero = Wallet { key: [0; 32] };
    let hash = vec![0x42u8; 32];
    assert_eq!(zero.sign_hash(&hash).err(), Some(hyperliquid_rust_sdk::error::Error::SignatureFailure));
    assert!(sign_l1_action(&zero, &hash, true).is_err());
    assert!(hyperliquid_rust_sdk::signature::sign_typed_data(&hash, &zero).is_err());
    let mut client = ExchangeClient::new(zero, None, true);
    assert!(client.sign_action(limit_order_action(), None, 10).is_err());
    assert_eq!(client.nonces.last_issued(), 10);
    assert!(wallet().sign_hash(&hash).is_ok());
}
