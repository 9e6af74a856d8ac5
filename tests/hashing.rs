use alloy::primitives::keccak256;
use hyperliquid_rust_sdk::actions::{Actions, SetReferrer, UpdateLeverage};
use hyperliquid_rust_sdk::address::Address;
use hyperliquid_rust_sdk::eip712::{encode_type, hash_domain, hash_struct, hash_typed_data, FieldValue, TypedField};
use hyperliquid_rust_sdk::error::Error;
use hyperliquid_rust_sdk::signature::encode_l1_action;
use hyperliquid_rust_sdk::user_actions::{
    ApproveAgent, ApproveBuilderFee, ClassTransfer, SendAsset, SpotSend, UsdSend, Withdraw3,
};

fn leverage() -> Actions {
    Actions::UpdateLeverage(UpdateLeverage { asset: 1, is_cross: true, leverage: 10 })
}

#[test]
fn action_hash_is_keccak_of_encoding_timestamp_and_vault_flag() {
    let action = leverage();
    let mut body = Vec::new();
    action.write_msgpack(&mut body);

    let mut plain = body.clone();
    plain.extend_from_slice(&1700000000000u64.to_be_bytes());
    plain.push(0);
    assert_eq!(action.hash(1700000000000, None), keccak256(&plain).to_vec());

    let vault = Address { bytes: [7; 20] };
    let mut with_vault = body.clone();
    with_vault.extend_from_slice(&1700000000000u64.to_be_bytes());
    with_vault.push(1);
    with_vault.extend_from_slice(&[7; 20]);
    assert_eq!(action.hash(1700000000000, Some(vault)), keccak256(&with_vault).to_vec());
}

#[test]
fn action_hash_is_deterministic_and_context_sensitive() {
    let a = leverage();
    let h = a.hash(5, None);
    assert_eq!(h.len(), 32);
    assert_eq!(h, a.hash(5, None));
    assert_ne!(h, a.hash(6, None));
    assert_ne!(h, a.hash(5, Some(Address { bytes: [0; 20] })));
    let other = Actions::SetReferrer(SetReferrer { code: "X".to_string() });
    assert_ne!(h, other.hash(5, None));
}

#[test]
fn domain_type_string_and_hash() {
    let fields = vec![
        TypedField { name: "name", value: FieldValue::Text("Exchange".to_string()) },
        TypedField { name: "version", value: FieldValue::Text("1".to_string()) },
        TypedField { name: "chainId", value: FieldValue::Uint256(1337) },
        TypedField { name: "verifyingContract", value: FieldValue::Address(Address { bytes: [0; 20] }) },
    ];
    let t = encode_type("EIP712Domain", &fields);
    assert_eq!(
        String::from_utf8(t.clone()).unwrap(),
        "EIP712Domain(string name,string version,uint256 chainId,address verifyingContract)"
    );
    assert_eq!(
        hex::encode(keccak256(&t)),
        "8b73c3c69bb8fe3d512ecc4cf759cc79239f7b179b0ffacaa9a75d522b39400f"
    );
    let mut words = keccak256(&t).to_vec();
    words.extend_from_slice(keccak256("Exchange").as_slice());
    words.extend_from_slice(keccak256("1").as_slice());
    let mut chain = [0u8; 32];
    chain[24..].copy_from_slice(&1337u64.to_be_bytes());
    words.extend_from_slice(&chain);
    words.extend_from_slice(&[0u8; 32]);
    let separator = keccak256(&words).to_vec();
    assert_eq!(hash_struct("EIP712Domain", &fields), separator);
    assert_eq!(hash_domain("Exchange", 1337), separator);
}

#[test]
fn agent_envelope_hash_follows_typed_data_rules() {
    let connection_id = vec![0x11u8; 32];
    let fields = vec![
        TypedField { name: "source", value: FieldValue::Text("a".to_string()) },
        TypedField { name: "connectionId", value: FieldValue::Bytes32(connection_id.clone()) },
    ];
    assert_eq!(
        String::from_utf8(encode_type("Agent", &fields)).unwrap(),
        "Agent(string source,bytes32 connectionId)"
    );
    let mut s = keccak256("Agent(string source,bytes32 connectionId)").to_vec();
    s.extend_from_slice(keccak256("a").as_slice());
    s.extend_from_slice(&connection_id);
    let struct_hash = keccak256(&s);
    let mut m = vec![0x19u8, 0x01];
    m.extend_from_slice(&hash_domain("Exchange", 1337));
    m.extend_from_slice(struct_hash.as_slice());
    let expected = keccak256(&m).to_vec();
    assert_eq!(encode_l1_action(&connection_id).unwrap(), expected);
    assert_eq!(hash_typed_data("Exchange", 1337, "Agent", &fields), expected);
}

#[test]
fn user_signed_type_strings() {
    let send = UsdSend {
        signature_chain_id: 421614,
        hyperliquid_chain: "Testnet".to_string(),
        destination: "0x0D1d9635D0640821d15e323ac8AdADfA9c111414".to_string(),
        amount: "1".to_string(),
        time: 1690393044548,
    };
    assert_eq!(
        String::from_utf8(encode_type("HyperliquidTransaction:UsdSend", &send.typed_fields())).unwrap(),
        "HyperliquidTransaction:UsdSend(string hyperliquidChain,string destination,string amount,uint64 time)"
    );
    let class = ClassTransfer {
        amount: "1".to_string(),
        to_perp: true,
        nonce: 1,
        hyperliquid_chain: "Mainnet".to_string(),
        signature_chain_id: 42161,
    };
    assert_eq!(
        String::from_utf8(encode_type("HyperliquidTransaction:UsdClassTransfer", &class.typed_fields()))
            .unwrap(),
        "HyperliquidTransaction:UsdClassTransfer(string hyperliquidChain,string amount,bool toPerp,uint64 nonce)"
    );
    let asset = SendAsset {
        hyperliquid_chain: "Mainnet".to_string(),
        signature_chain_id: 42161,
        destination: "0x1".to_string(),
        source_dex: "".to_string(),
        destination_dex: "spot".to_string(),
        token: "USDC".to_string(),
        amount: "2".to_string(),
        from_sub_account: "".to_string(),
        nonce: 9,
    };
    assert_eq!(
        String::from_utf8(encode_type("HyperliquidTransaction:SendAsset", &asset.typed_fields())).unwrap(),
        "HyperliquidTransaction:SendAsset(string hyperliquidChain,string destination,string sourceDex,string destinationDex,string token,string amount,string fromSubAccount,uint64 nonce)"
    );
}

fn user_hash(chain: u64, type_string: &str, words: Vec<[u8; 32]>) -> Vec<u8> {
    let mut s = keccak256(type_string).to_vec();
    for w in words {
        s.extend_from_slice(&w);
    }
    let mut m = vec![0x19u8, 0x01];
    m.extend_from_slice(&hash_domain("HyperliquidSignTransaction", chain));
    m.extend_from_slice(keccak256(&s).as_slice());
    keccak256(&m).to_vec()
}

fn uint_word(n: u64) -> [u8; 32] {
    let mut w = [0u8; 32];
    w[24..].copy_from_slice(&n.to_be_bytes());
    w
}

fn text_word(s: &str) -> [u8; 32] {
    keccak256(s).0
}

#[test]
fn user_signed_hashes_encode_each_field() {
    let send = SpotSend {
        hyperliquid_chain: "Mainnet".to_string(),
        signature_chain_id: 42161,
        destination: "0xabc".to_string(),
        token: "PURR:0xc1fb593aeffbeb02f85e0308e9956a90".to_string(),
        amount: "0.1".to_string(),
        time: 1700000000000,
    };
    assert_eq!(
        send.eip712_signing_hash(),
        user_hash(
            42161,
            "HyperliquidTransaction:SpotSend(string hyperliquidChain,string destination,string token,string amount,uint64 time)",
            vec![
                text_word("Mainnet"),
                text_word("0xabc"),
                text_word("PURR:0xc1fb593aeffbeb02f85e0308e9956a90"),
                text_word("0.1"),
                uint_word(1700000000000),
            ],
        )
    );
    let withdraw = Withdraw3 {
        hyperliquid_chain: "Mainnet".to_string(),
        signature_chain_id: 42161,
        amount: "5".to_string(),
        time: 3,
        destination: "0xdef".to_string(),
    };
    assert_eq!(
        withdraw.eip712_signing_hash(),
        user_hash(
            42161,
            "HyperliquidTransaction:Withdraw(string hyperliquidChain,string destination,string amount,uint64 time)",
            vec![text_word("Mainnet"), text_word("0xdef"), text_word("5"), uint_word(3)],
        )
    );
    let class = ClassTransfer {
        amount: "1".to_string(),
        to_perp: true,
        nonce: 1,
        hyperliquid_chain: "Mainnet".to_string(),
        signature_chain_id: 42161,
    };
    assert_eq!(
        class.eip712_signing_hash(),
        user_hash(
            42161,
            "HyperliquidTransaction:UsdClassTransfer(string hyperliquidChain,string amount,bool toPerp,uint64 nonce)",
            vec![text_word("Mainnet"), text_word("1"), uint_word(1), uint_word(1)],
        )
    );
}

#[test]
fn approve_agent_hashes_missing_name_as_empty() {
    let agent = ApproveAgent {
        signature_chain_id: 421614,
        hyperliquid_chain: "Testnet".to_string(),
        agent_address: Address { bytes: [0x22; 20] },
        agent_name: None,
        nonce: 77,
    };
    let mut address_word = [0u8; 32];
    address_word[12..].copy_from_slice(&[0x22; 20]);
    assert_eq!(
        agent.eip712_signing_hash(),
        user_hash(
            421614,
            "HyperliquidTransaction:ApproveAgent(string hyperliquidChain,address agentAddress,string agentName,uint64 nonce)",
            vec![text_word("Testnet"), address_word, text_word(""), uint_word(77)],
        )
    );
}

#[test]
fn approve_builder_fee_parses_builder_address() {
    let mut fee = ApproveBuilderFee {
        max_fee_rate: "0.001%".to_string(),
        builder: "0x00000000000000000000000000000000000000Ff".to_string(),
        nonce: 5,
        signature_chain_id: 42161,
        hyperliquid_chain: "Mainnet".to_string(),
    };
    let mut address_word = [0u8; 32];
    address_word[31] = 0xff;
    assert_eq!(
        fee.eip712_signing_hash().unwrap(),
        user_hash(
            42161,
            "HyperliquidTransaction:ApproveBuilderFee(string hyperliquidChain,string maxFeeRate,address builder,uint64 nonce)",
            vec![text_word("Mainnet"), text_word("0.001%"), address_word, uint_word(5)],
        )
    );
    fee.builder = "0x1234".to_string();
    assert_eq!(fee.eip712_signing_hash(), Err(Error::InvalidAddress));
    fee.builder = "zz00000000000000000000000000000000000000".to_string();
    assert_eq!(fee.eip712_signing_hash(), Err(Error::InvalidAddress));
}

#[test]
fn address_text_round_trip() {
    let a = Address::parse("0xABCDEF0123456789abcdef0123456789ABCDEF01").unwrap();
    let mut out = Vec::new();
    a.push_text(&mut out);
    assert_eq!(String::from_utf8(out).unwrap(), "0xabcdef0123456789abcdef0123456789abcdef01");
    assert_eq!(Address::parse("abcdef0123456789abcdef0123456789abcdef01"), Some(a));
    assert_eq!(Address::parse("0xabcdef0123456789abcdef0123456789abcdef0"), None);
    assert_eq!(Address::parse(""), None);
}
