use hyperliquid_rust_sdk::actions::{
    Actions, BuilderInfo, BulkCancel, BulkCancelCloid, BulkModify, BulkOrder, CancelRequest,
    CancelRequestCloid, Limit, ModifyRequest, Order, OrderRequest, PerpDeploy, SetOracle,
    SetReferrer, Trigger, UpdateIsolatedMargin, UpdateLeverage, VaultTransfer,
};
use hyperliquid_rust_sdk::address::Address;
use hyperliquid_rust_sdk::msgpack::{
    write_array_len, write_bool, write_map_len, write_nil, write_sint, write_str, write_uint,
};
use rmpv::Value;

fn reference(v: &Value) -> Vec<u8> {
    let mut out = Vec::new();
    rmpv::encode::write_value(&mut out, v).unwrap();
    out
}

fn map(entries: Vec<(&str, Value)>) -> Value {
    Value::Map(entries.into_iter().map(|(k, v)| (Value::from(k), v)).collect())
}

fn encoded(a: &Actions) -> Vec<u8> {
    let mut out = Vec::new();
    a.write_msgpack(&mut out);
    out
}

#[test]
fn unsigned_integers_use_the_smallest_form() {
    for v in [0u64, 1, 127, 128, 255, 256, 65535, 65536, 4294967295, 4294967296, u64::MAX] {
        let mut out = Vec::new();
        write_uint(&mut out, v);
        assert_eq!(out, reference(&Value::from(v)), "value {v}");
    }
    let mut out = Vec::new();
    write_uint(&mut out, 200);
    assert_eq!(out, vec![0xcc, 200]);
}

#[test]
fn signed_integers_use_the_smallest_form() {
    for v in [
        0i64, 5, 127, 128, 300, -1, -32, -33, -128, -129, -32768, -32769, -2147483648,
        -2147483649, i64::MIN, i64::MAX,
    ] {
        let mut out = Vec::new();
        write_sint(&mut out, v);
        assert_eq!(out, reference(&Value::from(v)), "value {v}");
    }
    let mut out = Vec::new();
    write_sint(&mut out, -1);
    assert_eq!(out, vec![0xff]);
}

#[test]
fn strings_and_headers_match_the_format() {
    for len in [0usize, 31, 32, 255, 256, 65535, 65536] {
        let s = "x".repeat(len);
        let mut out = Vec::new();
        write_str(&mut out, &s);
        assert_eq!(out, reference(&Value::from(s.as_str())), "length {len}");
    }
    let mut out = Vec::new();
    write_str(&mut out, "é");
    assert_eq!(out, vec![0xa2, 0xc3, 0xa9]);
    for len in [0usize, 15, 16, 65535, 65536] {
        let mut out = Vec::new();
        write_array_len(&mut out, len);
        out.extend(std::iter::repeat(0xc0).take(len));
        assert_eq!(out, reference(&Value::Array(vec![Value::Nil; len])));
        let mut out = Vec::new();
        write_map_len(&mut out, len);
        out.extend(std::iter::repeat(0xc0).take(2 * len));
        assert_eq!(out, reference(&Value::Map(vec![(Value::Nil, Value::Nil); len])));
    }
    let mut out = Vec::new();
    write_bool(&mut out, true);
    write_bool(&mut out, false);
    write_nil(&mut out);
    assert_eq!(out, vec![0xc3, 0xc2, 0xc0]);
}

fn order(asset: u32, cloid: Option<&str>, order_type: Order) -> OrderRequest {
    OrderRequest {
        asset,
        is_buy: true,
        limit_px: "2000.0".to_string(),
        sz: "3.5".to_string(),
        reduce_only: false,
        order_type,
        cloid: cloid.map(|c| c.to_string()),
    }
}

fn order_value(asset: u32, cloid: Option<&str>, order_type: Value) -> Value {
    let mut entries = vec![
        ("a", Value::from(asset)),
        ("b", Value::from(true)),
        ("p", Value::from("2000.0")),
        ("s", Value::from("3.5")),
        ("r", Value::from(false)),
        ("t", order_type),
    ];
    if let Some(c) = cloid {
        entries.push(("c", Value::from(c)));
    }
    map(entries)
}

#[test]
fn order_batch_keeps_declared_field_order() {
    let action = Actions::Order(BulkOrder {
        orders: vec![
            order(1, None, Order::Limit(Limit { tif: "Ioc".to_string() })),
            order(
                7,
                Some("0x00000000000000000000000000000001"),
                Order::Trigger(Trigger {
                    is_market: true,
                    trigger_px: "1.5".to_string(),
                    tpsl: "tp".to_string(),
                }),
            ),
        ],
        grouping: "na".to_string(),
        builder: Some(BuilderInfo { builder: "0xabc".to_string(), fee: 10 }),
    });
    let expected = map(vec![
        ("type", Value::from("order")),
        (
            "orders",
            Value::Array(vec![
                order_value(1, None, map(vec![("limit", map(vec![("tif", Value::from("Ioc"))]))])),
                order_value(
                    7,
                    Some("0x00000000000000000000000000000001"),
                    map(vec![(
                        "trigger",
                        map(vec![
                            ("isMarket", Value::from(true)),
                            ("triggerPx", Value::from("1.5")),
                            ("tpsl", Value::from("tp")),
                        ]),
                    )]),
                ),
            ]),
        ),
        ("grouping", Value::from("na")),
        ("builder", map(vec![("b", Value::from("0xabc")), ("f", Value::from(10u64))])),
    ]);
    assert_eq!(encoded(&action), reference(&expected));
}

#[test]
fn cancel_and_modify_batches_encode_as_maps() {
    let cancel = Actions::Cancel(BulkCancel {
        cancels: vec![CancelRequest { asset: 3, oid: 1234567890123 }],
    });
    let expected = map(vec![
        ("type", Value::from("cancel")),
        (
            "cancels",
            Value::Array(vec![map(vec![
                ("a", Value::from(3u32)),
                ("o", Value::from(1234567890123u64)),
            ])]),
        ),
    ]);
    assert_eq!(encoded(&cancel), reference(&expected));

    let by_cloid = Actions::CancelByCloid(BulkCancelCloid {
        cancels: vec![CancelRequestCloid { asset: 2, cloid: "0x1".to_string() }],
    });
    let expected = map(vec![
        ("type", Value::from("cancelByCloid")),
        (
            "cancels",
            Value::Array(vec![map(vec![
                ("asset", Value::from(2u32)),
                ("cloid", Value::from("0x1")),
            ])]),
        ),
    ]);
    assert_eq!(encoded(&by_cloid), reference(&expected));

    let modify = Actions::BatchModify(BulkModify {
        modifies: vec![ModifyRequest {
            oid: 42,
            order: order(1, None, Order::Limit(Limit { tif: "Gtc".to_string() })),
        }],
    });
    let expected = map(vec![
        ("type", Value::from("batchModify")),
        (
            "modifies",
            Value::Array(vec![map(vec![
                ("oid", Value::from(42u64)),
                (
                    "order",
                    order_value(1, None, map(vec![("limit", map(vec![("tif", Value::from("Gtc"))]))])),
                ),
            ])]),
        ),
    ]);
    assert_eq!(encoded(&modify), reference(&expected));
}

#[test]
fn account_actions_encode_as_maps() {
    let leverage = Actions::UpdateLeverage(UpdateLeverage { asset: 4, is_cross: false, leverage: 20 });
    let expected = map(vec![
        ("type", Value::from("updateLeverage")),
        ("asset", Value::from(4u32)),
        ("isCross", Value::from(false)),
        ("leverage", Value::from(20u32)),
    ]);
    assert_eq!(encoded(&leverage), reference(&expected));

    let margin = Actions::UpdateIsolatedMargin(UpdateIsolatedMargin { asset: 4, is_buy: true, ntli: -1000000 });
    let expected = map(vec![
        ("type", Value::from("updateIsolatedMargin")),
        ("asset", Value::from(4u32)),
        ("isBuy", Value::from(true)),
        ("ntli", Value::from(-1000000i64)),
    ]);
    assert_eq!(encoded(&margin), reference(&expected));

    let vault = Address { bytes: [0xab; 20] };
    let transfer = Actions::VaultTransfer(VaultTransfer { vault_address: vault, is_deposit: true, usd: 5000000 });
    let expected = map(vec![
        ("type", Value::from("vaultTransfer")),
        ("vaultAddress", Value::from(format!("0x{}", "ab".repeat(20)).as_str())),
        ("isDeposit", Value::from(true)),
        ("usd", Value::from(5000000u64)),
    ]);
    assert_eq!(encoded(&transfer), reference(&expected));

    let referrer = Actions::SetReferrer(SetReferrer { code: "CODE".to_string() });
    let expected = map(vec![("type", Value::from("setReferrer")), ("code", Value::from("CODE"))]);
    assert_eq!(encoded(&referrer), reference(&expected));
}

#[test]
fn set_oracle_encodes_pairs_as_arrays() {
    let pair = |k: &str, v: &str| (k.to_string(), v.to_string());
    let action = Actions::PerpDeploy(PerpDeploy {
        set_oracle: SetOracle {
            dex: "test".to_string(),
            oracle_pxs: vec![pair("test:TEST0", "12.0")],
            mark_pxs: vec![vec![pair("test:TEST0", "14.0"), pair("test:TEST1", "3.0")]],
        },
    });
    let pv = |k: &str, v: &str| Value::Array(vec![Value::from(k), Value::from(v)]);
    let expected = map(vec![
        ("type", Value::from("perpDeploy")),
        (
            "setOracle",
            map(vec![
                ("dex", Value::from("test")),
                ("oraclePxs", Value::Array(vec![pv("test:TEST0", "12.0")])),
                (
                    "markPxs",
                    Value::Array(vec![Value::Array(vec![
                        pv("test:TEST0", "14.0"),
                        pv("test:TEST1", "3.0"),
                    ])]),
                ),
            ]),
        ),
    ]);
    assert_eq!(encoded(&action), reference(&expected));
}

#[test]
fn encodability_check_accepts_ordinary_actions() {
    let referrer = Actions::SetReferrer(SetReferrer { code: "x".repeat(70000) });
    assert!(referrer.is_encodable());
    let cancel = Actions::Cancel(BulkCancel { cancels: vec![] });
    assert!(cancel.is_encodable());
    let oracle = Actions::PerpDeploy(PerpDeploy {
        set_oracle: SetOracle { dex: "d".to_string(), oracle_pxs: vec![], mark_pxs: vec![vec![]] },
    });
    assert!(oracle.is_encodable());
}
