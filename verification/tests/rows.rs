use txn_display::args::RuntimeArgs;
use txn_display::element::{demote_all, Element};
use txn_display::parser::v1::{
    format_address, parse_v1_approvals, parse_v1_meta, parse_v1_payload, v1_type, InitiatorAddr,
    MetaRows, PricingMode, TransactionEntryPoint, TransactionInvocationTarget,
    try_parse_v1_meta, TransactionScheduling, TransactionTarget, TransactionV1Meta,
    TransactionV1Payload, ARGS_MAP_KEY, ENTRY_POINT_MAP_KEY, SCHEDULING_MAP_KEY, TARGET_MAP_KEY,
};
use txn_display::parser::{
    amount_is_valid, deploy_type, entrypoint, identity, is_delegate, is_entrypoint,
    is_system_payment, is_undelegate, parse_amount, parse_approvals, parse_delegation,
    parse_deploy_header, parse_fee, parse_optional_arg, parse_phase, parse_runtime_args,
    parse_transfer_args, parse_undelegation, parse_version, remove_amount_arg,
    remove_transfer_args, try_parse_phase, DeployHeader, ExecutableDeployItem, TxnPhase,
};
use txn_display::text::{str_lt, u64_to_decimal};

fn regular(label: &str, value: &str) -> Element {
    Element::regular(label, value.to_string())
}

fn expert(label: &str, value: &str) -> Element {
    Element::expert(label, value.to_string())
}

fn args_of(pairs: &[(&str, &str)]) -> RuntimeArgs {
    let mut args = RuntimeArgs::new();
    for (name, value) in pairs {
        args.insert(name, value);
    }
    args
}

fn rows_of(meta: &TransactionV1Meta) -> Vec<Element> {
    match parse_v1_meta(meta) {
        MetaRows::Rows(rows) => rows,
        _ => panic!("a staking operation"),
    }
}

#[test]
fn element_constructors_and_demotion() {
    let mut e = Element::regular("name", "value".to_string());
    assert_eq!(e.label, "name");
    assert_eq!(e.value, "value");
    assert!(!e.is_expert());
    e.as_expert();
    assert_eq!(e, expert("name", "value"));
    let x = Element::expert("a", "b".to_string());
    assert!(x.is_expert());
    let all = demote_all(&vec![regular("a", "1"), expert("b", "2")]);
    assert_eq!(all, vec![expert("a", "1"), expert("b", "2")]);
}

#[test]
fn args_insert_get_and_replace() {
    let mut args = RuntimeArgs::new();
    assert!(args.is_empty());
    args.insert("to", "X");
    args.insert("id", "7");
    assert_eq!(args.len(), 2);
    assert_eq!(args.get("to"), Some(&"X".to_string()));
    assert_eq!(args.get("id"), Some(&"7".to_string()));
    assert_eq!(args.get("amount"), None);
    args.insert("to", "Y");
    assert_eq!(args.len(), 2);
    assert_eq!(args.get("to"), Some(&"Y".to_string()));
}

#[test]
fn dump_has_two_rows_per_argument_in_name_order() {
    let args = args_of(&[("zeta", "1"), ("alpha", "2"), ("mid", "3")]);
    let rows = parse_runtime_args(&args);
    assert_eq!(
        rows,
        vec![
            expert("arg-0-name", "alpha"),
            expert("arg-0-val", "2"),
            expert("arg-1-name", "mid"),
            expert("arg-1-val", "3"),
            expert("arg-2-name", "zeta"),
            expert("arg-2-val", "1"),
        ]
    );
}

#[test]
fn dump_does_not_depend_on_insertion_order() {
    let a = args_of(&[("b", "2"), ("a", "1"), ("c", "3"), ("ab", "4")]);
    let b = args_of(&[("ab", "4"), ("c", "3"), ("a", "1"), ("b", "2")]);
    let rows_a = parse_runtime_args(&a);
    let rows_b = parse_runtime_args(&b);
    assert_eq!(rows_a, rows_b);
    assert_eq!(rows_a.len(), 8);
    let names: Vec<&str> = rows_a.iter().step_by(2).map(|e| e.value.as_str()).collect();
    assert_eq!(names, vec!["a", "ab", "b", "c"]);
}

#[test]
fn dump_of_nothing_is_empty() {
    assert!(parse_runtime_args(&RuntimeArgs::new()).is_empty());
}

#[test]
fn dump_orders_by_code_point_and_numbers_in_decimal() {
    let names = ["k", "B", "a", "j", "i", "h", "g", "f", "e", "d", "c", "b"];
    let mut args = RuntimeArgs::new();
    for n in names {
        args.insert(n, "v");
    }
    let rows = parse_runtime_args(&args);
    assert_eq!(rows.len(), 24);
    assert_eq!(rows[0], expert("arg-0-name", "B"));
    assert_eq!(rows[2], expert("arg-1-name", "a"));
    assert_eq!(rows[20], expert("arg-10-name", "j"));
    assert_eq!(rows[21], expert("arg-10-val", "v"));
    assert_eq!(rows[22], expert("arg-11-name", "k"));
}

#[test]
fn optional_arg_present_and_absent() {
    let args = args_of(&[("to", "X")]);
    assert_eq!(parse_optional_arg(&args, "to", false, identity), Some(regular("to", "X")));
    assert_eq!(parse_optional_arg(&args, "to", true, identity), Some(expert("to", "X")));
    assert_eq!(parse_optional_arg(&args, "source", true, identity), None);
    let shout = |s: String| s.to_uppercase();
    assert_eq!(parse_optional_arg(&args, "to", false, shout), Some(regular("to", "X")));
    let tag = |s: String| format!("<{}>", s);
    assert_eq!(parse_optional_arg(&args, "to", false, tag), Some(regular("to", "<X>")));
}

#[test]
fn amount_rows() {
    let args = args_of(&[("amount", "2500000000")]);
    assert!(amount_is_valid(&args));
    assert_eq!(parse_amount(&args), Some(regular("amount", "2 500 000 000 motes")));
    assert_eq!(parse_fee(&args), Some(expert("amount", "2 500 000 000 motes")));
    let none = args_of(&[("to", "X")]);
    assert!(amount_is_valid(&none));
    assert_eq!(parse_amount(&none), None);
    assert_eq!(parse_fee(&none), None);
}

#[test]
fn amount_that_is_no_number_is_reported() {
    assert!(!amount_is_valid(&args_of(&[("amount", "lots")])));
    assert!(!amount_is_valid(&args_of(&[("amount", "1e9")])));
    assert!(!amount_is_valid(&args_of(&[("amount", "-1")])));
    assert!(!amount_is_valid(&args_of(&[("amount", "")])));
    assert!(amount_is_valid(&args_of(&[("amount", "0")])));
}

#[test]
fn removing_used_keys() {
    let args = args_of(&[("x", "1"), ("amount", "5"), ("to", "T"), ("id", "9"), ("y", "2")]);
    let sans_amount = remove_amount_arg(&args);
    assert_eq!(sans_amount.len(), 4);
    assert_eq!(sans_amount.get("amount"), None);
    assert_eq!(sans_amount.get("to"), Some(&"T".to_string()));
    let rest = remove_transfer_args(&args);
    assert_eq!(rest.len(), 2);
    assert_eq!(rest.get("x"), Some(&"1".to_string()));
    assert_eq!(rest.get("y"), Some(&"2".to_string()));
    assert_eq!(args.len(), 5);
}

#[test]
fn transfer_with_all_five_keys_leaves_no_dump() {
    let args = args_of(&[
        ("id", "7"),
        ("amount", "1000"),
        ("target", "T"),
        ("source", "S"),
        ("to", "X"),
    ]);
    assert_eq!(
        parse_transfer_args(&args),
        vec![
            regular("to", "X"),
            expert("source", "S"),
            regular("target", "T"),
            regular("amount", "1 000 motes"),
            expert("id", "7"),
        ]
    );
    let rest = remove_transfer_args(&args);
    assert!(rest.is_empty());
    assert_eq!(parse_runtime_args(&rest).len(), 0);
}

#[test]
fn legacy_transfer_scenario() {
    let args = args_of(&[("to", "X"), ("amount", "1000"), ("id", "7")]);
    assert_eq!(
        parse_transfer_args(&args),
        vec![regular("to", "X"), regular("amount", "1 000 motes"), expert("id", "7")]
    );
    assert!(parse_runtime_args(&remove_transfer_args(&args)).is_empty());
    let item = ExecutableDeployItem::Transfer { args };
    assert_eq!(
        parse_phase(&item, TxnPhase::Session),
        vec![
            regular("Session", "native transfer"),
            regular("to", "X"),
            regular("amount", "1 000 motes"),
            expert("id", "7"),
        ]
    );
}

#[test]
fn legacy_transfer_dumps_what_is_left() {
    let item = ExecutableDeployItem::Transfer {
        args: args_of(&[("memo", "hi"), ("amount", "1"), ("target", "T")]),
    };
    assert_eq!(
        parse_phase(&item, TxnPhase::Session),
        vec![
            regular("Session", "native transfer"),
            regular("target", "T"),
            regular("amount", "1 motes"),
            expert("arg-0-name", "memo"),
            expert("arg-0-val", "hi"),
        ]
    );
}

#[test]
fn version_formatting() {
    assert_eq!(parse_version(&None), expert("version", "latest"));
    assert_eq!(parse_version(&Some(5)), expert("version", "5"));
    assert_eq!(parse_version(&Some(u32::MAX)), expert("version", "4294967295"));
}

#[test]
fn entry_point_row() {
    assert_eq!(entrypoint("mint"), expert("entry-point", "mint"));
}

#[test]
fn system_payment_is_an_empty_payment() {
    assert!(is_system_payment(TxnPhase::Payment, &vec![]));
    assert!(!is_system_payment(TxnPhase::Session, &vec![]));
    assert!(!is_system_payment(TxnPhase::Payment, &vec![1]));
    assert!(TxnPhase::Payment.is_payment());
    assert!(!TxnPhase::Session.is_payment());
    assert_eq!(TxnPhase::Payment.label(), "Payment");
    assert_eq!(TxnPhase::Session.label(), "Session");
}

#[test]
fn digest_of_the_same_code_is_the_same() {
    let code = vec![0u8, 97, 115, 109, 1, 0, 0, 0];
    let one = ExecutableDeployItem::ModuleBytes { module_bytes: code.clone(), args: RuntimeArgs::new() };
    let two = ExecutableDeployItem::ModuleBytes { module_bytes: code.clone(), args: RuntimeArgs::new() };
    let first = deploy_type(TxnPhase::Session, &one);
    let second = deploy_type(TxnPhase::Session, &two);
    assert_eq!(first, second);
    let expected = format!("{:?}", casper_types::Digest::hash(&code));
    assert_eq!(expected.len(), 64);
    assert_eq!(
        first,
        vec![regular("Session", "contract"), regular("Cntrct hash", &expected)]
    );
    let other = ExecutableDeployItem::ModuleBytes { module_bytes: vec![1], args: RuntimeArgs::new() };
    assert_ne!(deploy_type(TxnPhase::Session, &other)[1].value, expected);
}

#[test]
fn empty_payment_shows_no_digest() {
    let item = ExecutableDeployItem::ModuleBytes { module_bytes: vec![], args: RuntimeArgs::new() };
    assert_eq!(deploy_type(TxnPhase::Payment, &item), vec![regular("Payment", "system")]);
}

#[test]
fn empty_session_code_shows_no_digest() {
    let item = ExecutableDeployItem::ModuleBytes {
        module_bytes: vec![],
        args: args_of(&[("a", "1")]),
    };
    let kind = deploy_type(TxnPhase::Session, &item);
    assert_eq!(kind, vec![regular("Session", "contract")]);
    assert!(kind.iter().all(|e| e.label != "Cntrct hash"));
    let rows = parse_phase(&item, TxnPhase::Session);
    assert_eq!(
        rows,
        vec![
            regular("Session", "contract"),
            expert("arg-0-name", "a"),
            expert("arg-0-val", "1"),
        ]
    );
    let v1 = TransactionV1Meta::new(
        RuntimeArgs::new(),
        TransactionTarget::Session { module_bytes: vec![] },
        TransactionEntryPoint::Other("call".to_string()),
        TransactionScheduling::Standard,
    );
    assert!(v1_type(&v1).iter().all(|e| e.label != "Cntrct hash"));
}

#[test]
fn deploy_type_of_stored_contracts() {
    let by_hash = ExecutableDeployItem::StoredContractByHash {
        hash: "c0ffee".to_string(),
        entry_point: "run".to_string(),
        args: RuntimeArgs::new(),
    };
    assert_eq!(
        deploy_type(TxnPhase::Session, &by_hash),
        vec![regular("Session", "by-hash"), regular("address", "c0ffee")]
    );
    let by_name = ExecutableDeployItem::StoredContractByName {
        name: "faucet".to_string(),
        entry_point: "run".to_string(),
        args: RuntimeArgs::new(),
    };
    assert_eq!(
        deploy_type(TxnPhase::Payment, &by_name),
        vec![regular("Payment", "by-name"), regular("name", "faucet")]
    );
    let versioned_hash = ExecutableDeployItem::StoredVersionedContractByHash {
        hash: "c0ffee".to_string(),
        version: None,
        entry_point: "run".to_string(),
        args: RuntimeArgs::new(),
    };
    assert_eq!(
        deploy_type(TxnPhase::Session, &versioned_hash),
        vec![
            regular("Session", "by-hash-versioned"),
            regular("address", "c0ffee"),
            expert("version", "latest"),
        ]
    );
    let versioned_name = ExecutableDeployItem::StoredVersionedContractByName {
        name: "faucet".to_string(),
        version: Some(5),
        entry_point: "run".to_string(),
        args: RuntimeArgs::new(),
    };
    assert_eq!(
        deploy_type(TxnPhase::Session, &versioned_name),
        vec![
            regular("Session", "by-name-versioned"),
            regular("name", "faucet"),
            expert("version", "5"),
        ]
    );
    let transfer = ExecutableDeployItem::Transfer { args: RuntimeArgs::new() };
    assert_eq!(deploy_type(TxnPhase::Session, &transfer), vec![regular("Session", "native transfer")]);
}

#[test]
fn entry_point_is_matched_by_name_only() {
    let item = ExecutableDeployItem::StoredContractByName {
        name: "anything".to_string(),
        entry_point: "delegate".to_string(),
        args: RuntimeArgs::new(),
    };
    assert!(is_entrypoint(&item, "delegate"));
    assert!(is_delegate(&item));
    assert!(!is_undelegate(&item));
    assert!(!is_entrypoint(&item, "Delegate"));
    let transfer = ExecutableDeployItem::Transfer { args: args_of(&[("delegate", "x")]) };
    assert!(!is_delegate(&transfer));
    let code = ExecutableDeployItem::ModuleBytes { module_bytes: vec![1], args: RuntimeArgs::new() };
    assert!(!is_undelegate(&code));
}

#[test]
fn delegate_entry_point_is_shown_as_auction_whatever_the_contract() {
    let item = ExecutableDeployItem::StoredContractByHash {
        hash: "not-the-auction".to_string(),
        entry_point: "delegate".to_string(),
        args: args_of(&[
            ("validator", "V"),
            ("amount", "500000000000"),
            ("delegator", "D"),
            ("extra", "hidden?"),
        ]),
    };
    let expected = vec![
        regular("Auction", "delegate"),
        expert("Session", "by-hash"),
        expert("address", "not-the-auction"),
        regular("delegator", "D"),
        regular("validator", "V"),
        regular("amount", "500 000 000 000 motes"),
    ];
    assert_eq!(parse_phase(&item, TxnPhase::Session), expected);
    assert_eq!(parse_phase(&item, TxnPhase::Payment), expected);
    assert_eq!(parse_delegation(&item), expected);
}

#[test]
fn undelegate_entry_point_is_shown_as_auction() {
    let item = ExecutableDeployItem::StoredVersionedContractByName {
        name: "auction".to_string(),
        version: None,
        entry_point: "undelegate".to_string(),
        args: args_of(&[("amount", "1")]),
    };
    let expected = vec![
        regular("Auction", "undelegate"),
        expert("Session", "by-name-versioned"),
        expert("name", "auction"),
        expert("version", "latest"),
        regular("amount", "1 motes"),
    ];
    assert_eq!(parse_undelegation(&item), expected);
    assert_eq!(parse_phase(&item, TxnPhase::Session), expected);
}

#[test]
fn phase_of_system_payment() {
    let item = ExecutableDeployItem::ModuleBytes {
        module_bytes: vec![],
        args: args_of(&[("note", "n"), ("amount", "3000000000")]),
    };
    assert_eq!(
        parse_phase(&item, TxnPhase::Payment),
        vec![
            regular("Payment", "system"),
            regular("amount", "3 000 000 000 motes"),
            expert("arg-0-name", "note"),
            expert("arg-0-val", "n"),
        ]
    );
}

#[test]
fn phase_of_code_dumps_every_argument() {
    let item = ExecutableDeployItem::ModuleBytes {
        module_bytes: vec![9, 9],
        args: args_of(&[("b", "2"), ("amount", "not shown as amount"), ("a", "1")]),
    };
    let rows = parse_phase(&item, TxnPhase::Session);
    assert_eq!(rows.len(), 2 + 6);
    assert_eq!(rows[0], regular("Session", "contract"));
    assert_eq!(rows[1].label, "Cntrct hash");
    assert_eq!(rows[2], expert("arg-0-name", "a"));
    assert_eq!(rows[4], expert("arg-1-name", "amount"));
    assert_eq!(rows[5], expert("arg-1-val", "not shown as amount"));
    assert_eq!(rows[6], expert("arg-2-name", "b"));
}

#[test]
fn phase_of_stored_contract() {
    let item = ExecutableDeployItem::StoredContractByName {
        name: "faucet".to_string(),
        entry_point: "drip".to_string(),
        args: args_of(&[("who", "me")]),
    };
    assert_eq!(
        parse_phase(&item, TxnPhase::Session),
        vec![
            regular("Session", "by-name"),
            regular("name", "faucet"),
            expert("entry-point", "drip"),
            expert("arg-0-name", "who"),
            expert("arg-0-val", "me"),
        ]
    );
}

#[test]
fn approvals_rows() {
    assert_eq!(parse_approvals(3), vec![regular("Approvals #", "3")]);
    assert_eq!(parse_approvals(0), vec![regular("Approvals #", "0")]);
    assert_eq!(parse_v1_approvals(12), vec![expert("Approvals #", "12")]);
}

#[test]
fn deploy_header_rows() {
    let header = DeployHeader {
        chain_name: "casper".to_string(),
        account: "01ab".to_string(),
        timestamp: "1700000000".to_string(),
        ttl: "30m".to_string(),
        gas_price: 1,
        dependencies: 2,
    };
    assert_eq!(
        parse_deploy_header(&header),
        vec![
            regular("chain ID", "casper"),
            regular("from", "01ab"),
            expert("timestamp", "1700000000"),
            expert("ttl", "30m"),
            expert("gas price", "1"),
            expert("Deps #", "2"),
        ]
    );
}

#[test]
fn payload_rows_by_pricing_mode() {
    let mut payload = TransactionV1Payload {
        chain_name: "casper-net-1".to_string(),
        initiator_addr: InitiatorAddr::PublicKey("01ab".to_string()),
        timestamp: "1700000000".to_string(),
        ttl: "1h".to_string(),
        pricing_mode: PricingMode::PaymentLimited { payment_amount: 2_500_000_000 },
    };
    assert_eq!(
        parse_v1_payload(&payload),
        vec![
            regular("chain ID", "casper-net-1"),
            regular("account", "01ab"),
            expert("timestamp", "1700000000"),
            expert("ttl", "1h"),
            expert("payment", "2500000000"),
        ]
    );
    payload.pricing_mode = PricingMode::Fixed;
    payload.initiator_addr = InitiatorAddr::AccountHash("account-hash-ff".to_string());
    let rows = parse_v1_payload(&payload);
    assert_eq!(rows[1], regular("account", "account-hash-ff"));
    assert_eq!(rows[4], expert("payment", "Fixed"));
    payload.pricing_mode = PricingMode::Prepaid;
    assert_eq!(parse_v1_payload(&payload)[4], expert("payment", "0"));
}

#[test]
fn field_map_slots() {
    assert_eq!(ARGS_MAP_KEY, 0);
    assert_eq!(TARGET_MAP_KEY, 1);
    assert_eq!(ENTRY_POINT_MAP_KEY, 2);
    assert_eq!(SCHEDULING_MAP_KEY, 3);
}

#[test]
fn address_is_shown_byte_by_byte() {
    assert_eq!(format_address(&vec![1, 20, 255, 0]), "1202550");
    assert_eq!(format_address(&vec![]), "");
}

#[test]
fn v1_type_rows_by_target() {
    let meta = |target| {
        TransactionV1Meta::new(
            RuntimeArgs::new(),
            target,
            TransactionEntryPoint::Other("call".to_string()),
            TransactionScheduling::Standard,
        )
    };
    assert!(v1_type(&meta(TransactionTarget::Native)).is_empty());
    assert!(v1_type(&meta(TransactionTarget::Session { module_bytes: vec![] })).is_empty());
    assert_eq!(
        v1_type(&meta(TransactionTarget::Stored {
            id: TransactionInvocationTarget::ByHash(vec![7, 8]),
        })),
        vec![regular("execution", "by-hash"), regular("address", "78")]
    );
    assert_eq!(
        v1_type(&meta(TransactionTarget::Stored {
            id: TransactionInvocationTarget::ByName("faucet".to_string()),
        })),
        vec![regular("execution", "by-name"), regular("name", "faucet")]
    );
    assert_eq!(
        v1_type(&meta(TransactionTarget::Stored {
            id: TransactionInvocationTarget::ByPackageHash { addr: vec![10, 11], version: Some(5) },
        })),
        vec![
            regular("execution", "by-hash-versioned"),
            regular("address", "1011"),
            expert("version", "5"),
        ]
    );
    assert_eq!(
        v1_type(&meta(TransactionTarget::Stored {
            id: TransactionInvocationTarget::ByPackageName {
                name: "faucet".to_string(),
                version: None,
            },
        })),
        vec![
            regular("execution", "by-name-versioned"),
            regular("name", "faucet"),
            expert("version", "latest"),
        ]
    );
    let code = vec![1u8, 2, 3];
    let digest = format!("{:?}", casper_types::Digest::hash(&code));
    assert_eq!(
        v1_type(&meta(TransactionTarget::Session { module_bytes: code })),
        vec![regular("execution", "contract"), regular("Cntrct hash", &digest)]
    );
}

#[test]
fn v1_session_without_code_scenario() {
    let meta = TransactionV1Meta::new(
        args_of(&[("amount", "500")]),
        TransactionTarget::Session { module_bytes: vec![] },
        TransactionEntryPoint::Other("call".to_string()),
        TransactionScheduling::Standard,
    );
    assert_eq!(rows_of(&meta), vec![expert("amount", "500 motes")]);
}

#[test]
fn v1_session_without_code_dumps_the_rest() {
    let meta = TransactionV1Meta::new(
        args_of(&[("note", "n"), ("amount", "500")]),
        TransactionTarget::Session { module_bytes: vec![] },
        TransactionEntryPoint::Other("call".to_string()),
        TransactionScheduling::Standard,
    );
    assert_eq!(
        rows_of(&meta),
        vec![
            expert("amount", "500 motes"),
            expert("arg-0-name", "note"),
            expert("arg-0-val", "n"),
        ]
    );
}

#[test]
fn v1_session_with_code() {
    let meta = TransactionV1Meta::new(
        args_of(&[("amount", "1000")]),
        TransactionTarget::Session { module_bytes: vec![1] },
        TransactionEntryPoint::Other("call".to_string()),
        TransactionScheduling::Standard,
    );
    let rows = rows_of(&meta);
    assert_eq!(rows.len(), 5);
    assert_eq!(rows[0], regular("execution", "contract"));
    assert_eq!(rows[2], regular("amount", "1 000 motes"));
    assert_eq!(rows[3], expert("arg-0-name", "amount"));
    assert_eq!(rows[4], expert("arg-0-val", "1000"));
}

#[test]
fn v1_native_transfer() {
    let meta = TransactionV1Meta::new(
        args_of(&[("id", "7"), ("amount", "1000"), ("target", "T"), ("memo", "m")]),
        TransactionTarget::Native,
        TransactionEntryPoint::Transfer,
        TransactionScheduling::Standard,
    );
    assert_eq!(
        rows_of(&meta),
        vec![
            regular("target", "T"),
            regular("amount", "1 000 motes"),
            expert("id", "7"),
            expert("arg-0-name", "memo"),
            expert("arg-0-val", "m"),
        ]
    );
}

#[test]
fn v1_stored_target() {
    let meta = TransactionV1Meta::new(
        args_of(&[("who", "me")]),
        TransactionTarget::Stored { id: TransactionInvocationTarget::ByName("faucet".to_string()) },
        TransactionEntryPoint::Other("custom(drip)".to_string()),
        TransactionScheduling::Standard,
    );
    assert_eq!(
        rows_of(&meta),
        vec![
            regular("execution", "by-name"),
            regular("name", "faucet"),
            expert("entry-point", "custom(drip)"),
            expert("arg-0-name", "who"),
            expert("arg-0-val", "me"),
        ]
    );
    assert_eq!(TransactionEntryPoint::Transfer.name(), "transfer");
}

#[test]
fn v1_staking_operations_are_handed_on() {
    let meta = |entry_point| {
        TransactionV1Meta::new(
            args_of(&[("amount", "not read here")]),
            TransactionTarget::Native,
            entry_point,
            TransactionScheduling::Standard,
        )
    };
    assert!(matches!(parse_v1_meta(&meta(TransactionEntryPoint::Delegate)), MetaRows::Delegation));
    assert!(matches!(
        parse_v1_meta(&meta(TransactionEntryPoint::Undelegate)),
        MetaRows::Undelegation
    ));
    assert!(matches!(
        parse_v1_meta(&meta(TransactionEntryPoint::Redelegate)),
        MetaRows::Redelegation
    ));
}

#[test]
fn decimal_text_of_numbers() {
    assert_eq!(u64_to_decimal(0), "0");
    assert_eq!(u64_to_decimal(7), "7");
    assert_eq!(u64_to_decimal(10), "10");
    assert_eq!(u64_to_decimal(1_000_000), "1000000");
    assert_eq!(u64_to_decimal(u64::MAX), "18446744073709551615");
}

#[test]
fn order_of_names_is_that_of_strings() {
    let names = ["", "a", "A", "ab", "b", "Z", "z", "amount", "amounts", "é", "e", "日本", "~", "0", "10", "9"];
    for a in names {
        for b in names {
            assert_eq!(str_lt(a, b), a < b);
        }
    }
}

#[test]
fn phase_with_bad_amount_is_not_shown() {
    let bad = ExecutableDeployItem::Transfer { args: args_of(&[("amount", "ten"), ("to", "X")]) };
    assert!(try_parse_phase(&bad, TxnPhase::Session).is_none());
    let good = ExecutableDeployItem::Transfer { args: args_of(&[("amount", "10"), ("to", "X")]) };
    assert_eq!(
        try_parse_phase(&good, TxnPhase::Session),
        Some(vec![
            regular("Session", "native transfer"),
            regular("to", "X"),
            regular("amount", "10 motes"),
        ])
    );
    // Where no row reads the amount as a number, any text is shown as it is.
    let code = ExecutableDeployItem::ModuleBytes {
        module_bytes: vec![1],
        args: args_of(&[("amount", "ten")]),
    };
    let rows = try_parse_phase(&code, TxnPhase::Session).expect("shown");
    assert_eq!(rows[3], expert("arg-0-val", "ten"));
    let staking = ExecutableDeployItem::StoredContractByName {
        name: "auction".to_string(),
        entry_point: "undelegate".to_string(),
        args: args_of(&[("amount", "0")]),
    };
    let rows = try_parse_phase(&staking, TxnPhase::Session).expect("shown");
    assert_eq!(rows[rows.len() - 1], regular("amount", "0 motes"));
    let staking_empty = ExecutableDeployItem::StoredContractByName {
        name: "auction".to_string(),
        entry_point: "undelegate".to_string(),
        args: args_of(&[("amount", "")]),
    };
    assert!(try_parse_phase(&staking_empty, TxnPhase::Session).is_none());
    let payment_empty = ExecutableDeployItem::ModuleBytes {
        module_bytes: vec![],
        args: args_of(&[("amount", "")]),
    };
    assert!(try_parse_phase(&payment_empty, TxnPhase::Payment).is_none());
    let payment_text = ExecutableDeployItem::ModuleBytes {
        module_bytes: vec![],
        args: args_of(&[("amount", "abc")]),
    };
    assert!(try_parse_phase(&payment_text, TxnPhase::Payment).is_none());
    let staking_bad = ExecutableDeployItem::StoredContractByName {
        name: "auction".to_string(),
        entry_point: "delegate".to_string(),
        args: args_of(&[("amount", "1_000")]),
    };
    assert!(try_parse_phase(&staking_bad, TxnPhase::Session).is_none());
}

#[test]
fn v1_transaction_that_cannot_be_shown() {
    let native_custom = TransactionV1Meta::new(
        args_of(&[("amount", "1")]),
        TransactionTarget::Native,
        TransactionEntryPoint::Other("burn".to_string()),
        TransactionScheduling::Standard,
    );
    assert!(try_parse_v1_meta(&native_custom).is_none());
    let bad_amount = TransactionV1Meta::new(
        args_of(&[("amount", "x")]),
        TransactionTarget::Session { module_bytes: vec![] },
        TransactionEntryPoint::Other("call".to_string()),
        TransactionScheduling::Standard,
    );
    assert!(try_parse_v1_meta(&bad_amount).is_none());
    let staking = TransactionV1Meta::new(
        args_of(&[("amount", "x")]),
        TransactionTarget::Native,
        TransactionEntryPoint::Redelegate,
        TransactionScheduling::Standard,
    );
    assert!(matches!(try_parse_v1_meta(&staking), Some(MetaRows::Redelegation)));
    let fine = TransactionV1Meta::new(
        args_of(&[("amount", "500")]),
        TransactionTarget::Session { module_bytes: vec![] },
        TransactionEntryPoint::Other("call".to_string()),
        TransactionScheduling::Standard,
    );
    match try_parse_v1_meta(&fine) {
        Some(MetaRows::Rows(rows)) => assert_eq!(rows, vec![expert("amount", "500 motes")]),
        _ => panic!("rows"),
    }
}
