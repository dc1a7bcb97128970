use brick_profile::text::mark;
use brick_profile::{
    check_poll_id, finish_poll, finish_signing, AccountId, BrickProfile, Error,
    TransactionRequest, H160,
};
use pink_extension::chain_extension::mock;

const ALICE: AccountId = AccountId([1; 32]);
const RUNNER: AccountId = AccountId([3; 32]);

/// A profile with two workflows, of which the first may use an account whose key is the number
/// five.
fn furnished() -> BrickProfile {
    mock::mock_get_public_key(|_, key| {
        let sk = secp256k1::SecretKey::from_slice(key).unwrap();
        let secp = secp256k1::Secp256k1::new();
        secp256k1::PublicKey::from_secret_key(&secp, &sk).serialize().to_vec()
    });
    let mut profile = BrickProfile::new(ALICE);
    profile.add_workflow(ALICE, "first".to_string(), "run first".to_string()).unwrap();
    profile.add_workflow(ALICE, "second".to_string(), "run second".to_string()).unwrap();
    let mut key = vec![0u8; 32];
    key[31] = 5;
    profile.add_generated_account(ALICE, "http://zero".to_string(), &key).unwrap();
    profile.authorize_workflow(ALICE, 0, 0).unwrap();
    profile
}

#[test]
fn poll_ids_are_short_and_plain() {
    assert!(check_poll_id(""));
    assert!(check_poll_id("aZ09_-azAZ09__--"));
    assert!(!check_poll_id("aZ09_-azAZ09__--x"));
    assert!(!check_poll_id("<script>"));
    assert!(!check_poll_id("a b"));
    assert!(!check_poll_id("\u{e9}"));
    assert!(!check_poll_id("`"));
    assert!(!check_poll_id("@"));
    assert!(!check_poll_id("["));
    assert!(!check_poll_id("{"));
    assert!(!check_poll_id("/"));
    assert!(!check_poll_id(":"));
}

#[test]
fn a_poll_asks_for_the_run_of_the_workflow() {
    let mut profile = furnished();
    profile.config(ALICE, RUNNER).unwrap();
    let call = profile.poll(false, 1, "poll-1".to_string()).unwrap();
    assert_eq!(call.js_runner, RUNNER);
    assert_eq!(call.commandline, "run second");
    assert!(matches!(
        profile.get_current_evm_account_address(),
        Err(Error::NoAuthorizedExternalAccount)
    ));
    profile.poll(false, 0, "poll-2".to_string()).unwrap();
    assert_eq!(
        profile.get_current_evm_account_address().unwrap(),
        profile.get_evm_account_address(ALICE, 0).unwrap()
    );
    assert_eq!(finish_poll(true).unwrap(), true);
    assert_eq!(finish_poll(false).unwrap(), false);
}

#[test]
fn polls_are_refused_in_order() {
    let mut profile = furnished();
    profile.disable_workflow(ALICE, 1).unwrap();
    assert!(matches!(profile.poll(true, 2, "<".to_string()), Err(Error::WorkflowNotFound)));
    assert!(matches!(profile.poll(true, 1, "<".to_string()), Err(Error::WorkflowDisabled)));
    assert!(matches!(profile.poll(true, 0, "<".to_string()), Err(Error::NoPollForTransaction)));
    assert!(matches!(profile.poll(false, 0, "<".to_string()), Err(Error::InvalidPollId)));
    assert!(matches!(
        profile.force_poll(true, 2, "<".to_string()),
        Err(Error::NoPollForTransaction)
    ));
    assert!(matches!(profile.force_poll(false, 2, "<".to_string()), Err(Error::InvalidPollId)));
    assert!(matches!(profile.force_poll(false, 2, "a".to_string()), Err(Error::WorkflowNotFound)));
    assert!(matches!(
        profile.get_current_evm_account_address(),
        Err(Error::BadWorkflowSession)
    ));
    // The session is open although nothing can run.
    assert!(matches!(profile.force_poll(false, 0, "a".to_string()), Err(Error::NotConfigured)));
    assert!(profile.get_current_evm_account_address().is_ok());
}

#[test]
fn force_polls_a_disabled_workflow() {
    let mut profile = furnished();
    profile.config(ALICE, RUNNER).unwrap();
    profile.disable_workflow(ALICE, 0).unwrap();
    let call = profile.force_poll(false, 0, "0123456789abcdef".to_string()).unwrap();
    assert_eq!(call.commandline, "run first");
}

#[test]
fn a_session_is_that_of_a_workflow() {
    let mut profile = furnished();
    assert!(matches!(profile.set_workflow_session(2), Err(Error::WorkflowNotFound)));
    assert!(matches!(
        profile.sign_evm_transaction(b"{}".to_vec()),
        Err(Error::BadWorkflowSession)
    ));
    profile.set_workflow_session(1).unwrap();
    assert!(matches!(
        profile.sign_evm_transaction(b"{}".to_vec()),
        Err(Error::NoAuthorizedExternalAccount)
    ));
}

#[test]
fn a_full_transaction_is_read() {
    let mut profile = furnished();
    profile.set_workflow_session(0).unwrap();
    let tx = br#"{
        "from": "0x407d73d8a49eeb85d32cf465507dd71d507100c1",
        "to": "0x853f43d8a49eeb85d32cf465507dd71d507100c1",
        "gas": "0x5208",
        "gasPrice": "0x9184e72a000",
        "value": "0x10000000000000000",
        "data": "0x010203",
        "nonce": "0x1",
        "type": "0x2",
        "accessList": [{
            "address": "0x853f43d8a49eeb85d32cf465507dd71d507100c2",
            "storageKeys": ["0x0000000000000000000000000000000000000000000000000000000000000007"]
        }],
        "maxFeePerGas": "0x64",
        "maxPriorityFeePerGas": "0x2",
        "comment": "unknown"
    }"#;
    let job = profile.sign_evm_transaction(tx.to_vec()).unwrap();
    assert_eq!(job.rpc, "http://zero");
    let mut sk = [0u8; 32];
    sk[31] = 5;
    assert_eq!(job.sk, sk);
    let p = job.parameters;
    let mut address = [
        0x85, 0x3f, 0x43, 0xd8, 0xa4, 0x9e, 0xeb, 0x85, 0xd3, 0x2c, 0xf4, 0x65, 0x50, 0x7d, 0xd7,
        0x1d, 0x50, 0x71, 0x00, 0xc1,
    ];
    assert_eq!(p.to, Some(H160(address)));
    assert_eq!(p.gas, [21000, 0, 0, 0]);
    assert_eq!(p.gas_price, Some([10_000_000_000_000, 0, 0, 0]));
    assert_eq!(p.value, [0, 1, 0, 0]);
    assert_eq!(p.data, vec![1, 2, 3]);
    assert_eq!(p.nonce, Some([1, 0, 0, 0]));
    assert_eq!(p.transaction_type, Some(2));
    address[19] = 0xc2;
    let mut storage_key = [0u8; 32];
    storage_key[31] = 7;
    assert_eq!(p.access_list, Some(vec![(H160(address), vec![storage_key])]));
    assert_eq!(p.max_priority_fee_per_gas, Some([2, 0, 0, 0]));
    // Never taken over, whatever the request says.
    assert_eq!(p.max_fee_per_gas, None);
    assert_eq!(p.chain_id, None);
}

#[test]
fn what_a_transaction_leaves_out_is_zero_or_empty() {
    let mut profile = furnished();
    profile.set_workflow_session(0).unwrap();
    let tx = br#"{"from":"0x407d73d8a49eeb85d32cf465507dd71d507100c1"}"#;
    let p = profile.sign_evm_transaction(tx.to_vec()).unwrap().parameters;
    assert_eq!(p.gas, [0; 4]);
    assert_eq!(p.value, [0; 4]);
    assert_eq!(p.data, Vec::<u8>::new());
    assert_eq!((p.to, p.nonce, p.gas_price), (None, None, None));
    assert_eq!((p.transaction_type, p.max_priority_fee_per_gas), (None, None));
    assert_eq!(p.access_list, None);
}

#[test]
fn a_text_that_is_no_transaction_is_refused() {
    let mut profile = furnished();
    profile.set_workflow_session(0).unwrap();
    for tx in ["", "{}", "nothing", "{\"from\":\"0x40\"}", "[]"] {
        assert!(matches!(
            profile.sign_evm_transaction(tx.as_bytes().to_vec()),
            Err(Error::BadUnsignedTransaction)
        ));
    }
    assert!(matches!(profile.prepare_signing(None), Err(Error::BadUnsignedTransaction)));
}

#[test]
fn data_with_a_character_in_the_way_is_refused() {
    let mut profile = furnished();
    profile.set_workflow_session(0).unwrap();
    let from = "\"from\":\"0x407d73d8a49eeb85d32cf465507dd71d507100c1\"";
    for rest in [
        "\"data\":\"a\u{e9}\"",
        "\"data\":\"\u{20ac}\"",
        "\"data\" :\n \"\u{20ac}\"",
        " \t\"data\":\"\u{20ac}\"",
        "\"gas\":\"0x1\" ,\r\"\\u0064\\u0061\\u0074\\u0061\":\"\u{20ac}\"",
        "\"d\\u0061t\\u0061\":\"\u{20ac}\"",
        "\"data\":\"\\u20ac\"",
        "\"data\":\"\\ud83d\\ude00\"",
        "\"data\":\"a\\u00e9\"",
        "\"data\":\"\\u0041\\u00e9\"",
        "\"data\":\"\\n\\u07ff\"",
        "\"memo\":1{,\"data\":\"\u{20ac}\"",
        "\"memo\":1\",\"data\":\"\u{20ac}\"",
        "\"to\":5,\"data\":\"\u{20ac}\"",
        "\"data\":\"0x01\",\"data\":\"\u{20ac}\"",
    ] {
        for tx in [format!("{{{},{}}}", from, rest), format!("{{{},{}}}", rest, from)] {
            assert!(
                matches!(
                    profile.sign_evm_transaction(tx.clone().into_bytes()),
                    Err(Error::BadUnsignedTransaction)
                ),
                "{}",
                tx
            );
        }
    }
}

#[test]
fn texts_are_marked_where_data_is_no_number() {
    for (tx, expected) in [
        ("{\"data\":\"\u{20ac}\"}", "{\"data\":\"??\u{20ac}\"}"),
        ("{\"x\":{\"data\" : \"a\"}}", "{\"x\":{\"data\" : \"??a\"}}"),
        ("{\"data\":\"1\",\"data\":\"2\"}", "{\"data\":\"??1\",\"data\":\"??2\"}"),
        ("{\"data\":\"", "{\"data\":\"??"),
        ("{\"data\":\"0x01\"}", "{\"data\":\"0x01\"}"),
        ("{\"data\":\"\\u00300x\"}", "{\"data\":\"??\\u00300x\"}"),
        ("{\"data\":\"\\u0030\\u0078\"}", "{\"data\":\"\\u0030\\u0078\"}"),
        ("{\"metadata\":\"\u{20ac}\"}", "{\"metadata\":\"\u{20ac}\"}"),
        ("{\"memo\":\"data\"}", "{\"memo\":\"data\"}"),
        ("", ""),
    ] {
        assert_eq!(mark(&tx.as_bytes().to_vec()), expected.as_bytes().to_vec());
    }
}

#[test]
fn a_text_with_other_letters_is_read() {
    let mut profile = furnished();
    profile.set_workflow_session(0).unwrap();
    let from = "\"from\":\"0x407d73d8a49eeb85d32cf465507dd71d507100c1\"";
    for (rest, granted) in [
        ("\"memo\":\"a\u{e9}\"", true),
        ("\"memo\":\"\u{20ac}\"", true),
        ("\"\u{20ac}\":1", true),
        ("\"metadata\":\"\u{20ac}\"", true),
        ("\"\\\"data\":\"\u{20ac}\"", true),
        ("\"version1\":\"\u{20ac}\"", true),
        ("\"x\":{\"data\":\"\u{20ac}\"}", true),
        ("\"x\":[{ \"y\":0,\"data\":\"a\u{e9}\"}]", true),
        ("\"x\":{\"data\":\"\\ud83d\\ude00\"}", true),
        ("\"x\":{\"data\":\"\\ude00\"}", false),
        ("\"x\":1{\"data\":\"\u{20ac}\"", true),
        ("\"accessList\":[{\"data\":\"\u{20ac}\",\"address\":\"0x853f43d8a49eeb85d32cf465507dd71d507100c2\",\"storageKeys\":[]}]", true),
        ("\"memo\":\"data\",\"x\":\"\u{20ac}\"", true),
        ("\"data\":\"\\u0030\\u0078\\u0030\\u0031\"", true),
        ("\"data\":\"\\u00e9\"", false),
        ("\"data\":\"\u{e9}x\"", false),
        ("\"data\":\"0x\u{20ac}\"", false),
        ("\"data\":\"\\\"\"", false),
        ("\"data\":\"\"", false),
        ("\"data\":\"0\"", false),
    ] {
        let tx = format!("{{{},{}}}", from, rest).into_bytes();
        match profile.sign_evm_transaction(tx) {
            Ok(job) => {
                assert!(granted, "{}", rest);
                if rest.starts_with("\"data\"") {
                    assert_eq!(job.parameters.data, vec![1]);
                }
            }
            Err(e) => {
                assert!(!granted, "{}", rest);
                assert!(matches!(e, Error::BadUnsignedTransaction));
            }
        }
    }
}

#[test]
fn parameters_follow_the_request() {
    let request = TransactionRequest {
        nonce: None,
        to: None,
        gas: Some([1, 2, 3, 4]),
        gas_price: None,
        value: None,
        data: Some(vec![8]),
        transaction_type: Some(1),
        access_list: None,
        max_priority_fee_per_gas: None,
    };
    let p = request.into_parameters();
    assert_eq!(p.gas, [1, 2, 3, 4]);
    assert_eq!(p.value, [0; 4]);
    assert_eq!(p.data, vec![8]);
    assert_eq!(p.transaction_type, Some(1));
}

#[test]
fn the_signers_reply_is_passed_on() {
    assert_eq!(finish_signing(Ok(vec![1, 2])).unwrap(), vec![1, 2]);
    assert!(matches!(
        finish_signing(Err("Transport(Code(500))".to_string())),
        Err(Error::FailedToSignTransaction(text)) if text == "Transport(Code(500))"
    ));
}
