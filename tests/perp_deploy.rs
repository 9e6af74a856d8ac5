use hyperliquid_rust_sdk::actions::Actions;
use hyperliquid_rust_sdk::exchange_client::ExchangeClient;
use hyperliquid_rust_sdk::signature::Wallet;

#[test]
fn set_oracle_sorts_prices_by_name_and_consumes_a_nonce() {
    let mut client = ExchangeClient::new(Wallet { key: [1; 32] }, None, false);
    let pair = |k: &str, v: &str| (k.to_string(), v.to_string());
    let signed = client
        .perp_deploy_set_oracle(
            "test".to_string(),
            vec![pair("test:TEST1", "1.0"), pair("test:TEST0", "12.0")],
            vec![vec![pair("test:TEST1", "3.0"), pair("test:TEST0", "14.0")]],
            1700000000000,
        )
        .unwrap();
    assert_eq!(signed.nonce, 1700000000000);
    assert_eq!(client.nonces.last_issued(), 1700000000000);
    match &signed.action {
        Actions::PerpDeploy(p) => {
            assert_eq!(p.set_oracle.dex, "test");
            assert_eq!(p.set_oracle.oracle_pxs, vec![pair("test:TEST0", "12.0"), pair("test:TEST1", "1.0")]);
            assert_eq!(
                p.set_oracle.mark_pxs,
                vec![vec![pair("test:TEST0", "14.0"), pair("test:TEST1", "3.0")]]
            );
        }
        _ => panic!("not a perp deploy action"),
    }
    let again = client.sign_action(signed.action.clone(), None, 1700000000000).unwrap();
    assert_eq!(again.nonce, 1700000000001);
}

#[test]
fn invalid_key_fails_to_sign() {
    let mut client = ExchangeClient::new(Wallet { key: [0; 32] }, None, true);
    let r = client.perp_deploy_set_oracle("d".to_string(), vec![], vec![], 5);
    assert_eq!(r.err(), Some(hyperliquid_rust_sdk::error::Error::SignatureFailure));
}
