use my_algo::document::Json;
use my_algo::error::Error;
use my_algo::my_algo::MyAlgo;
use my_algo::to_my_algo_transaction::{
    app_on_complete_to_my_algo_index, to_api_transaction_type,
    to_my_algo_app_call, to_my_algo_app_transaction_common_fields,
    to_my_algo_app_transaction_fields, to_my_algo_asset_configuration_transaction_fields,
    to_my_algo_transaction_common_fields, to_my_algo_transaction_type_fields,
    to_my_algo_transaction_value,
};
use my_algo::transaction::{
    copy_list, Address, ApplicationCallOnComplete, ApplicationCallTransaction,
    AssetAcceptTransaction, AssetClawbackTransaction, AssetConfigurationTransaction,
    AssetFreezeTransaction, AssetParams, AssetTransferTransaction, KeyRegistration, Payment,
    StateSchema, Transaction, TransactionType,
};

const ZERO_ADDRESS: &str = "AAAAAAAAAAAAAAAAAAAAAAAAAAAAAAAAAAAAAAAAAAAAAAAAAAAAY5HFKQ";
const ZERO_HASH_BASE64: &str = "AAAAAAAAAAAAAAAAAAAAAAAAAAAAAAAAAAAAAAAAAAA=";
const ZERO_KEY_BASE32: &str = "AAAAAAAAAAAAAAAAAAAAAAAAAAAAAAAAAAAAAAAAAAAAAAAAAAAA====";

fn text(s: &str) -> Json {
    Json::Text(s.to_string())
}

fn object(entries: Vec<(&str, Json)>) -> Json {
    Json::Object(entries.into_iter().map(|(k, v)| (k.to_string(), v)).collect())
}

fn bytes(seed: u8) -> [u8; 32] {
    let mut k = [0u8; 32];
    for (i, b) in k.iter_mut().enumerate() {
        *b = seed.wrapping_add(i as u8);
    }
    k
}

fn address(seed: u8) -> Address {
    Address(bytes(seed))
}

fn address_text(seed: u8) -> String {
    algonaut::core::Address(bytes(seed)).to_string()
}

fn transaction(txn_type: TransactionType) -> Transaction {
    Transaction {
        fee: 1000,
        first_valid: 100,
        genesis_hash: [0u8; 32],
        last_valid: 200,
        txn_type,
        genesis_id: None,
        group: None,
        lease: None,
        note: None,
        rekey_to: None,
    }
}

fn common(tag: &str) -> Vec<(&'static str, Json)> {
    vec![
        ("fee", Json::Number(1000)),
        ("flatFee", Json::Bool(true)),
        ("firstRound", Json::Number(100)),
        ("genesisHash", text(ZERO_HASH_BASE64)),
        ("lastRound", Json::Number(200)),
        ("type", text(tag)),
    ]
}

fn with_common(tag: &str, rest: Vec<(&'static str, Json)>) -> Json {
    let mut all = common(tag);
    all.extend(rest);
    object(all)
}

fn app_call(on_complete: ApplicationCallOnComplete, app_id: Option<u64>) -> ApplicationCallTransaction {
    ApplicationCallTransaction {
        sender: address(1),
        app_id,
        on_complete,
        accounts: None,
        approval_program: None,
        app_arguments: None,
        clear_state_program: None,
        foreign_apps: None,
        foreign_assets: None,
        global_state_schema: None,
        local_state_schema: None,
        extra_pages: 0,
    }
}

fn has(doc: &Json, key: &str) -> bool {
    doc.get(&key.to_string()).is_some()
}

#[test]
fn payment_maps_to_exactly_its_fields() {
    let t = transaction(TransactionType::Payment(Payment {
        sender: address(1),
        receiver: address(2),
        amount: 5_000_000,
        close_remainder_to: None,
    }));
    let doc = to_my_algo_transaction_value(&t).unwrap();
    assert_eq!(
        doc,
        with_common(
            "pay",
            vec![
                ("from", Json::Text(address_text(1))),
                ("amount", Json::Number(5_000_000)),
                ("to", Json::Text(address_text(2))),
            ]
        )
    );
    match &doc {
        Json::Object(entries) => assert_eq!(entries.len(), 9),
        _ => unreachable!(),
    }
}

#[test]
fn payment_with_every_optional_field() {
    let mut t = transaction(TransactionType::Payment(Payment {
        sender: Address([0u8; 32]),
        receiver: address(2),
        amount: 1,
        close_remainder_to: Some(address(3)),
    }));
    t.genesis_id = Some("testnet-v1.0".to_string());
    t.group = Some(bytes(4));
    t.lease = Some([0u8; 32]);
    t.note = Some(vec![1, 2, 255]);
    t.rekey_to = Some(address(5));
    let doc = to_my_algo_transaction_value(&t).unwrap();
    assert_eq!(
        doc,
        object(vec![
            ("fee", Json::Number(1000)),
            ("flatFee", Json::Bool(true)),
            ("firstRound", Json::Number(100)),
            ("genesisHash", text(ZERO_HASH_BASE64)),
            ("lastRound", Json::Number(200)),
            ("genesisID", text("testnet-v1.0")),
            ("group", Json::Text(data_encoding::BASE64.encode(&bytes(4)))),
            ("lease", text(ZERO_HASH_BASE64)),
            ("note", Json::List(vec![Json::Number(1), Json::Number(2), Json::Number(255)])),
            ("reKeyTo", Json::Text(address_text(5))),
            ("type", text("pay")),
            ("from", text(ZERO_ADDRESS)),
            ("amount", Json::Number(1)),
            ("to", Json::Text(address_text(2))),
            ("closeRemainderTo", Json::Text(address_text(3))),
        ])
    );
}

#[test]
fn mapping_twice_gives_the_same_document() {
    let mut t = transaction(TransactionType::AssetFreezeTransaction(AssetFreezeTransaction {
        sender: address(1),
        freeze_account: address(2),
        asset_id: 77,
        frozen: true,
    }));
    t.note = Some(vec![9, 8, 7]);
    let first = to_my_algo_transaction_value(&t);
    let second = to_my_algo_transaction_value(&t);
    assert_eq!(first, second);
    assert_eq!(MyAlgo {}.sign_request(&t), first);
    assert_eq!(
        first.unwrap(),
        object(vec![
            ("fee", Json::Number(1000)),
            ("flatFee", Json::Bool(true)),
            ("firstRound", Json::Number(100)),
            ("genesisHash", text(ZERO_HASH_BASE64)),
            ("lastRound", Json::Number(200)),
            ("note", Json::List(vec![Json::Number(9), Json::Number(8), Json::Number(7)])),
            ("type", text("afrz")),
            ("from", Json::Text(address_text(1))),
            ("assetIndex", Json::Number(77)),
            ("freezeAccount", Json::Text(address_text(2))),
            ("freezeState", Json::Bool(true)),
        ])
    );
}

#[test]
fn unset_optional_fields_leave_no_key() {
    let t = transaction(TransactionType::KeyRegistration(KeyRegistration {
        sender: address(1),
        vote_pk: None,
        selection_pk: None,
        vote_first: None,
        vote_last: None,
        vote_key_dilution: None,
    }));
    let doc = to_my_algo_transaction_value(&t).unwrap();
    for key in [
        "genesisID", "group", "lease", "note", "reKeyTo", "voteKey", "selectionKey", "voteFirst",
        "voteLast", "voteKeyDilution",
    ] {
        assert!(!has(&doc, key));
    }
    assert_eq!(doc, with_common("keyreg", vec![("from", Json::Text(address_text(1)))]));
    match &doc {
        Json::Object(entries) => assert!(entries.iter().all(|(_, v)| *v != Json::Null)),
        _ => unreachable!(),
    }
}

#[test]
fn key_registration_with_some_fields_only() {
    let t = transaction(TransactionType::KeyRegistration(KeyRegistration {
        sender: address(1),
        vote_pk: Some([0u8; 32]),
        selection_pk: Some(bytes(3)),
        vote_first: None,
        vote_last: Some(3000),
        vote_key_dilution: Some(10),
    }));
    assert_eq!(
        to_my_algo_transaction_type_fields(&t),
        Ok(object(vec![
            ("from", Json::Text(address_text(1))),
            ("voteKey", text(ZERO_KEY_BASE32)),
            ("selectionKey", Json::Text(data_encoding::BASE32.encode(&bytes(3)))),
            ("voteLast", Json::Number(3000)),
            ("voteKeyDilution", Json::Number(10)),
        ]))
    );
}

#[test]
fn asset_configuration_with_parameters() {
    let params = Some(AssetParams {
        asset_name: Some("coin".to_string()),
        decimals: Some(2),
        default_frozen: Some(false),
        total: Some(1_000_000),
        unit_name: Some("cn".to_string()),
        url: None,
        freeze: Some(address(2)),
        manager: None,
        reserve: Some(address(3)),
    });
    assert_eq!(
        to_my_algo_asset_configuration_transaction_fields(&address(1), &params),
        object(vec![
            ("from", Json::Text(address_text(1))),
            ("assetName", text("coin")),
            ("assetUnitName", text("cn")),
            ("assetDecimals", Json::Number(2)),
            ("assetTotal", Json::Number(1_000_000)),
            ("assetFreeze", Json::Text(address_text(2))),
            ("assetReserve", Json::Text(address_text(3))),
            ("assetDefaultFrozen", Json::Bool(false)),
        ])
    );
}

#[test]
fn asset_configuration_without_parameters() {
    let t = transaction(TransactionType::AssetConfigurationTransaction(
        AssetConfigurationTransaction { sender: address(1), params: None },
    ));
    assert_eq!(
        to_my_algo_transaction_value(&t),
        Ok(with_common("acfg", vec![("from", Json::Text(address_text(1)))]))
    );
}

#[test]
fn asset_accept_is_a_transfer_of_nothing_to_oneself() {
    let t = transaction(TransactionType::AssetAcceptTransaction(AssetAcceptTransaction {
        sender: address(1),
        xfer: 7,
    }));
    let doc = to_my_algo_transaction_value(&t).unwrap();
    assert_eq!(doc.get(&"from".to_string()), Some(&Json::Text(address_text(1))));
    assert_eq!(doc.get(&"to".to_string()), doc.get(&"from".to_string()));
    assert_eq!(doc.get(&"amount".to_string()), Some(&Json::Number(0)));
    assert_eq!(doc.get(&"assetIndex".to_string()), Some(&Json::Number(7)));
    assert!(!has(&doc, "closeRemainderTo"));
    assert!(!has(&doc, "assetSender"));
}

#[test]
fn asset_transfers_share_a_tag_and_differ_in_fields() {
    let transfer = transaction(TransactionType::AssetTransferTransaction(
        AssetTransferTransaction {
            sender: address(1),
            xfer: 7,
            amount: 5,
            receiver: address(2),
            close_to: Some(address(3)),
        },
    ));
    let accept = transaction(TransactionType::AssetAcceptTransaction(AssetAcceptTransaction {
        sender: address(1),
        xfer: 7,
    }));
    let clawback = transaction(TransactionType::AssetClawbackTransaction(
        AssetClawbackTransaction {
            sender: address(1),
            xfer: 7,
            asset_amount: 5,
            asset_sender: address(4),
            asset_receiver: address(2),
        },
    ));
    let transfer_doc = to_my_algo_transaction_value(&transfer).unwrap();
    let accept_doc = to_my_algo_transaction_value(&accept).unwrap();
    let clawback_doc = to_my_algo_transaction_value(&clawback).unwrap();
    for doc in [&transfer_doc, &accept_doc, &clawback_doc] {
        assert_eq!(doc.get(&"type".to_string()), Some(&text("axfer")));
    }
    assert!(has(&transfer_doc, "closeRemainderTo"));
    assert!(!has(&transfer_doc, "assetSender"));
    assert!(!has(&accept_doc, "closeRemainderTo"));
    assert!(!has(&accept_doc, "assetSender"));
    assert!(!has(&clawback_doc, "closeRemainderTo"));
    assert_eq!(
        clawback_doc,
        with_common(
            "axfer",
            vec![
                ("from", Json::Text(address_text(1))),
                ("assetIndex", Json::Number(7)),
                ("to", Json::Text(address_text(2))),
                ("amount", Json::Number(5)),
                ("assetSender", Json::Text(address_text(4))),
            ]
        )
    );
    assert_ne!(transfer_doc, accept_doc);
    assert_ne!(transfer_doc, clawback_doc);
}

#[test]
fn application_call_with_an_id_and_nothing_else() {
    let call = app_call(ApplicationCallOnComplete::NoOp, Some(42));
    assert_eq!(
        to_my_algo_app_transaction_fields(&call),
        Ok(object(vec![("appIndex", Json::Number(42)), ("appOnComplete", Json::Number(0))]))
    );
    assert_eq!(
        to_my_algo_app_call(&call),
        Ok(object(vec![
            ("from", Json::Text(address_text(1))),
            ("appIndex", Json::Number(42)),
            ("appOnComplete", Json::Number(0)),
        ]))
    );
    let doc = to_my_algo_transaction_value(&transaction(
        TransactionType::ApplicationCallTransaction(call),
    ))
    .unwrap();
    assert_eq!(
        doc,
        with_common(
            "appl",
            vec![
                ("from", Json::Text(address_text(1))),
                ("appIndex", Json::Number(42)),
                ("appOnComplete", Json::Number(0)),
            ]
        )
    );
    for key in ["appArgs", "appAccounts", "appForeignApps", "appForeignAssets"] {
        assert!(!has(&doc, key));
    }
}

#[test]
fn application_call_common_fields_with_lists() {
    let mut call = app_call(ApplicationCallOnComplete::OptIn, Some(1));
    call.app_arguments = Some(vec![vec![1, 2, 3], vec![]]);
    call.accounts = Some(vec![Address([0u8; 32]), address(6)]);
    call.foreign_apps = Some(vec![10, 11]);
    call.foreign_assets = Some(vec![]);
    assert_eq!(
        to_my_algo_app_transaction_common_fields(&call),
        object(vec![
            ("from", Json::Text(address_text(1))),
            ("appArgs", Json::List(vec![text("AQID"), text("")])),
            ("appAccounts", Json::List(vec![text(ZERO_ADDRESS), Json::Text(address_text(6))])),
            ("appForeignApps", Json::List(vec![Json::Number(10), Json::Number(11)])),
            ("appForeignAssets", Json::List(vec![])),
        ])
    );
}

#[test]
fn application_create_has_programs_and_schemas() {
    let mut call = app_call(ApplicationCallOnComplete::NoOp, None);
    call.approval_program = Some(vec![1, 2, 3]);
    call.clear_state_program = Some(vec![255]);
    call.global_state_schema = Some(StateSchema { number_ints: 1, number_byteslices: 2 });
    call.local_state_schema = Some(StateSchema { number_ints: 3, number_byteslices: 4 });
    call.extra_pages = 2;
    assert_eq!(
        to_my_algo_app_transaction_fields(&call),
        Ok(object(vec![
            ("appApprovalProgram", text("AQID")),
            ("appClearProgram", text("/w==")),
            ("appLocalInts", Json::Number(3)),
            ("appLocalByteSlices", Json::Number(4)),
            ("appGlobalInts", Json::Number(1)),
            ("appGlobalByteSlices", Json::Number(2)),
            ("appOnComplete", Json::Number(0)),
            ("extraPages", Json::Number(2)),
        ]))
    );
}

#[test]
fn application_update_has_programs_and_no_schemas() {
    let mut call = app_call(ApplicationCallOnComplete::UpdateApplication, Some(5));
    call.approval_program = Some(vec![1, 2, 3]);
    call.clear_state_program = Some(vec![255]);
    assert_eq!(
        to_my_algo_app_transaction_fields(&call),
        Ok(object(vec![
            ("appIndex", Json::Number(5)),
            ("appOnComplete", Json::Number(4)),
            ("appApprovalProgram", text("AQID")),
            ("appClearProgram", text("/w==")),
        ]))
    );
}

#[test]
fn application_calls_of_the_plain_shapes() {
    let cases = [
        (ApplicationCallOnComplete::NoOp, 0),
        (ApplicationCallOnComplete::OptIn, 1),
        (ApplicationCallOnComplete::CloseOut, 2),
        (ApplicationCallOnComplete::ClearState, 3),
        (ApplicationCallOnComplete::DeleteApplication, 5),
    ];
    for (action, code) in cases {
        let call = app_call(action, Some(9));
        assert_eq!(
            to_my_algo_app_transaction_fields(&call),
            Ok(object(vec![("appIndex", Json::Number(9)), ("appOnComplete", Json::Number(code))]))
        );
    }
}

#[test]
fn application_call_of_an_unknown_shape_is_refused() {
    let mut no_id = app_call(ApplicationCallOnComplete::OptIn, None);
    no_id.app_arguments = Some(vec![vec![1, 2], vec![]]);
    no_id.accounts = Some(vec![address(3)]);
    no_id.foreign_apps = Some(vec![4]);
    let refused = || Err(Error::InvalidTransactionState(no_id.clone()));
    assert_eq!(to_my_algo_app_transaction_fields(&no_id), refused());
    assert_eq!(to_my_algo_app_call(&no_id), refused());
    let t = transaction(TransactionType::ApplicationCallTransaction(no_id.clone()));
    assert_eq!(to_my_algo_transaction_type_fields(&t), refused());
    assert_eq!(to_my_algo_transaction_value(&t), refused());
    assert_eq!(MyAlgo {}.sign_request(&t), refused());

    let update_without_programs = app_call(ApplicationCallOnComplete::UpdateApplication, Some(1));
    assert!(to_my_algo_app_transaction_fields(&update_without_programs).is_err());

    let mut call_with_program = app_call(ApplicationCallOnComplete::NoOp, Some(1));
    call_with_program.approval_program = Some(vec![1]);
    assert!(to_my_algo_app_transaction_fields(&call_with_program).is_err());

    let mut create_without_schema = app_call(ApplicationCallOnComplete::NoOp, None);
    create_without_schema.approval_program = Some(vec![1]);
    create_without_schema.clear_state_program = Some(vec![1]);
    create_without_schema.global_state_schema =
        Some(StateSchema { number_ints: 0, number_byteslices: 0 });
    assert!(to_my_algo_app_transaction_fields(&create_without_schema).is_err());

    let mut delete_with_schema = app_call(ApplicationCallOnComplete::DeleteApplication, Some(1));
    delete_with_schema.local_state_schema =
        Some(StateSchema { number_ints: 0, number_byteslices: 0 });
    assert!(to_my_algo_app_transaction_fields(&delete_with_schema).is_err());
}

#[test]
fn on_complete_codes_are_fixed() {
    assert_eq!(app_on_complete_to_my_algo_index(&ApplicationCallOnComplete::NoOp), 0);
    assert_eq!(app_on_complete_to_my_algo_index(&ApplicationCallOnComplete::OptIn), 1);
    assert_eq!(app_on_complete_to_my_algo_index(&ApplicationCallOnComplete::CloseOut), 2);
    assert_eq!(app_on_complete_to_my_algo_index(&ApplicationCallOnComplete::ClearState), 3);
    assert_eq!(app_on_complete_to_my_algo_index(&ApplicationCallOnComplete::UpdateApplication), 4);
    assert_eq!(app_on_complete_to_my_algo_index(&ApplicationCallOnComplete::DeleteApplication), 5);
}

#[test]
fn type_tags_are_fixed() {
    let payment = TransactionType::Payment(Payment {
        sender: address(1),
        receiver: address(2),
        amount: 0,
        close_remainder_to: None,
    });
    assert_eq!(to_api_transaction_type(&payment), "pay");
    let accept = TransactionType::AssetAcceptTransaction(AssetAcceptTransaction {
        sender: address(1),
        xfer: 1,
    });
    assert_eq!(to_api_transaction_type(&accept), "axfer");
    let call = TransactionType::ApplicationCallTransaction(app_call(
        ApplicationCallOnComplete::NoOp,
        Some(1),
    ));
    assert_eq!(to_api_transaction_type(&call), "appl");
    let config = TransactionType::AssetConfigurationTransaction(AssetConfigurationTransaction {
        sender: address(1),
        params: None,
    });
    assert_eq!(to_api_transaction_type(&config), "acfg");
}

#[test]
fn common_fields_of_a_plain_transaction() {
    let t = transaction(TransactionType::AssetAcceptTransaction(AssetAcceptTransaction {
        sender: address(1),
        xfer: 1,
    }));
    assert_eq!(to_my_algo_transaction_common_fields(&t), object(common("axfer")));
}

#[test]
fn address_text_is_the_checksummed_form() {
    let t = transaction(TransactionType::Payment(Payment {
        sender: Address([0u8; 32]),
        receiver: Address([0u8; 32]),
        amount: 0,
        close_remainder_to: None,
    }));
    let doc = to_my_algo_transaction_value(&t).unwrap();
    assert_eq!(doc.get(&"from".to_string()), Some(&text(ZERO_ADDRESS)));
}

#[test]
fn copy_of_an_application_call_is_equal() {
    let mut call = app_call(ApplicationCallOnComplete::UpdateApplication, Some(3));
    call.approval_program = Some(vec![1, 2, 3]);
    call.clear_state_program = Some(vec![]);
    call.app_arguments = Some(vec![vec![7], vec![8, 9]]);
    call.accounts = Some(vec![address(1), address(2)]);
    call.foreign_assets = Some(vec![5, 6]);
    call.global_state_schema = Some(StateSchema { number_ints: 1, number_byteslices: 2 });
    call.extra_pages = 3;
    assert_eq!(call.copy(), call);
    assert_eq!(copy_list(&vec![1u64, 2, 3]), vec![1u64, 2, 3]);
    assert_eq!(copy_list(&Vec::<u8>::new()), Vec::<u8>::new());
}
