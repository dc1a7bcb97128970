use brick_profile::{AccountId, BrickProfile, Error, WorkflowInfo};
use pink_extension::chain_extension::mock;
use std::collections::BTreeMap;

const ALICE: AccountId = AccountId([1; 32]);
const BOB: AccountId = AccountId([2; 32]);
const RUNNER: AccountId = AccountId([3; 32]);
const RPC: &str = "http://localhost:8545";

/// A host that derives a key of 64 bytes from the salt, and that knows the public keys.
fn mock_host() {
    mock::mock_derive_sr25519_key(|salt| {
        let mut key = vec![7u8; 64];
        key[24..32].copy_from_slice(&salt);
        key
    });
    mock::mock_get_public_key(|_, key| {
        let sk = secp256k1::SecretKey::from_slice(key).unwrap();
        let secp = secp256k1::Secp256k1::new();
        secp256k1::PublicKey::from_secret_key(&secp, &sk).serialize().to_vec()
    });
}

fn commandline() -> String {
    String::from("[
                {\"cmd\": \"fetch\", \"config\": {\"returnTextBody\":true,\"url\":\"https://min-api.cryptocompare.com/data/price?fsym=ETH&tsyms=BTC,USD,EUR\"}},
                {\"cmd\": \"eval\", \"config\": \"Math.round(JSON.parse(input.body).USD)\"},
                {\"cmd\": \"eval\", \"config\": \"numToUint8Array32(input)\"},
            ]")
}

#[test]
fn workflow_management_works() {
    let mut profile = BrickProfile::default(ALICE);

    // Basic add and get
    let cmd = commandline();
    let name = String::from("TestWorkflow");
    let wf1_id = profile.add_workflow(ALICE, name.clone(), cmd.clone()).unwrap();
    let _ = profile.add_workflow(ALICE, name.clone(), cmd.clone()).unwrap();
    assert_eq!(profile.workflow_count(), 2);

    let wf1_details = profile.get_workflow(ALICE, wf1_id).unwrap();
    assert_eq!(wf1_details.commandline, cmd);
    assert!(wf1_details.enabled);
    assert!(matches!(profile.get_workflow(ALICE, 3), Err(Error::WorkflowNotFound)));

    // Workflow enable and disable
    let _ = profile.disable_workflow(ALICE, wf1_id);
    let wf1_details = profile.get_workflow(ALICE, wf1_id).unwrap();
    assert!(!wf1_details.enabled);

    let _ = profile.enable_workflow(ALICE, wf1_id);
    let wf1_details = profile.get_workflow(ALICE, wf1_id).unwrap();
    assert!(wf1_details.enabled);

    // Access control
    assert!(matches!(
        profile.add_workflow(BOB, name.clone(), cmd.clone()),
        Err(Error::BadOrigin)
    ));
    assert!(matches!(profile.get_workflow(BOB, wf1_id), Err(Error::BadOrigin)));
    assert!(matches!(profile.enable_workflow(BOB, wf1_id), Err(Error::BadOrigin)));
    assert!(matches!(profile.disable_workflow(BOB, wf1_id), Err(Error::BadOrigin)));
}

#[test]
fn external_account_management_works() {
    mock_host();
    let rpc = String::from(RPC);
    let key = vec![9u8; 32];
    let mut profile = BrickProfile::default(ALICE);

    // Account generation
    let ea1_id = profile.generate_evm_account(ALICE, rpc.clone()).unwrap();
    let _ = profile.generate_evm_account(ALICE, rpc.clone()).unwrap();
    assert_eq!(profile.external_account_count(), 2);
    let _address = profile.get_evm_account_address(ALICE, ea1_id).unwrap();

    // RPC update
    let new_rpc = String::from("https://testrpc.com");
    let ea1_rpc = profile.get_rpc_endpoint(ALICE, ea1_id).unwrap();
    assert_eq!(ea1_rpc, rpc);
    profile.set_rpc_endpoint(ALICE, ea1_id, new_rpc.clone()).unwrap();
    let ea1_new_rpc = profile.get_rpc_endpoint(ALICE, ea1_id).unwrap();
    assert_eq!(ea1_new_rpc, new_rpc);

    // Deprecated for first release
    assert!(matches!(
        profile.import_evm_account(rpc.clone(), key.clone()),
        Err(Error::Deprecated)
    ));

    // Account dump
    let ea2_id = profile.generate_evm_account(ALICE, rpc.clone()).unwrap();
    assert!(matches!(
        profile.get_dumped_key(ALICE, ea2_id),
        Err(Error::OnlyDumpedAccount)
    ));
    profile.dump_evm_account(ALICE, ea2_id).unwrap();
    let sk = profile.get_dumped_key(ALICE, ea2_id).unwrap();
    println!("Dumped sk: {:?}", sk);

    // Access control
    assert!(matches!(
        profile.generate_evm_account(BOB, rpc.clone()),
        Err(Error::BadOrigin)
    ));
    assert!(matches!(profile.get_rpc_endpoint(BOB, ea1_id), Err(Error::BadOrigin)));
    assert!(matches!(
        profile.set_rpc_endpoint(BOB, ea1_id, new_rpc.clone()),
        Err(Error::BadOrigin)
    ));
}

#[test]
fn workflow_auth_works() {
    mock_host();
    let rpc = String::from(RPC);
    let mut profile = BrickProfile::default(ALICE);

    let cmd = commandline();
    let name = String::from("TestWorkflow");

    let wf1_id = profile.add_workflow(ALICE, name.clone(), cmd.clone()).unwrap();
    let wf2_id = profile.add_workflow(ALICE, name.clone(), cmd.clone()).unwrap();
    let wf3_id = profile.add_workflow(ALICE, name.clone(), cmd.clone()).unwrap();
    let ea1_id = profile.generate_evm_account(ALICE, rpc.clone()).unwrap();
    let ea2_id = profile.generate_evm_account(ALICE, rpc.clone()).unwrap();

    let workflow_accounts =
        BTreeMap::from([(wf1_id, ea1_id), (wf2_id, ea2_id), (wf3_id, ea2_id)]);

    for (wf_id, ea_id) in workflow_accounts.iter() {
        profile.authorize_workflow(ALICE, *wf_id, *ea_id).unwrap();
        assert_eq!(profile.get_authorized_account(*wf_id).unwrap(), *ea_id);
    }

    // Test dynamic authorization
    for (wf_id, ea_id) in workflow_accounts.iter() {
        profile.set_workflow_session(*wf_id).unwrap();
        let current_evm_address = profile.get_current_evm_account_address().unwrap();
        let expected_evm_address = profile.get_evm_account_address(ALICE, *ea_id).unwrap();
        assert_eq!(current_evm_address, expected_evm_address);
    }
}

/// A profile with two workflows, of which the first may use the first of two accounts, and with a
/// runner.
fn furnished() -> BrickProfile {
    mock_host();
    let mut profile = BrickProfile::new(ALICE);
    profile.config(ALICE, RUNNER).unwrap();
    profile.add_workflow(ALICE, "first".to_string(), "run first".to_string()).unwrap();
    profile.add_workflow(ALICE, "second".to_string(), "run second".to_string()).unwrap();
    profile.generate_evm_account(ALICE, "http://zero".to_string()).unwrap();
    profile.generate_evm_account(ALICE, "http://one".to_string()).unwrap();
    profile.authorize_workflow(ALICE, 0, 0).unwrap();
    profile
}

fn told(info: &WorkflowInfo) -> (u64, &str, bool, &str, Option<u64>) {
    (info.id, &info.name, info.enabled, &info.commandline, info.authorized_account)
}

#[test]
fn a_new_profile_is_empty() {
    let profile = BrickProfile::new(BOB);
    assert_eq!(profile.owner(), BOB);
    assert_eq!(profile.version(), (1, 0, 0));
    assert_eq!(profile.workflow_count(), 0);
    assert_eq!(profile.enabled_workflow_count(), 0);
    assert_eq!(profile.external_account_count(), 0);
    assert_eq!(profile.get_authorized_account(0), None);
    assert!(matches!(profile.get_js_runner(), Err(Error::NotConfigured)));
    assert_eq!(profile.get_all_workflows(BOB).unwrap().len(), 0);
    assert_eq!(profile.get_all_evm_accounts(BOB).unwrap().len(), 0);
    assert!(matches!(
        profile.get_current_evm_account_address(),
        Err(Error::BadWorkflowSession)
    ));
}

#[test]
fn the_runner_is_configured_by_the_owner() {
    let mut profile = BrickProfile::new(ALICE);
    assert!(matches!(profile.config(BOB, RUNNER), Err(Error::BadOrigin)));
    assert!(matches!(profile.get_js_runner(), Err(Error::NotConfigured)));
    profile.config(ALICE, RUNNER).unwrap();
    assert_eq!(profile.get_js_runner().unwrap(), RUNNER);
    profile.config(ALICE, BOB).unwrap();
    assert_eq!(profile.get_js_runner().unwrap(), BOB);
}

#[test]
fn workflows_are_numbered_and_listed() {
    let mut profile = furnished();
    assert_eq!(profile.add_workflow(ALICE, "third".into(), "c".into()).unwrap(), 2);
    profile.disable_workflow(ALICE, 1).unwrap();
    let all = profile.get_all_workflows(ALICE).unwrap();
    assert_eq!(all.len(), 3);
    assert_eq!(told(&all[0]), (0, "first", true, "run first", Some(0)));
    assert_eq!(told(&all[1]), (1, "second", false, "run second", None));
    assert_eq!(told(&all[2]), (2, "third", true, "c", None));
    assert!(matches!(profile.get_all_workflows(BOB), Err(Error::BadOrigin)));
}

#[test]
fn enabled_workflows_are_counted() {
    let mut profile = furnished();
    assert_eq!(profile.enabled_workflow_count(), 2);
    profile.disable_workflow(ALICE, 0).unwrap();
    assert_eq!(profile.enabled_workflow_count(), 1);
    profile.disable_workflow(ALICE, 0).unwrap();
    assert_eq!(profile.enabled_workflow_count(), 1);
    profile.add_workflow(ALICE, "third".into(), "c".into()).unwrap();
    assert_eq!(profile.enabled_workflow_count(), 2);
    profile.enable_workflow(ALICE, 0).unwrap();
    assert_eq!(profile.enabled_workflow_count(), 3);
    assert_eq!(profile.workflow_count(), 3);
    assert!(matches!(profile.disable_workflow(ALICE, 3), Err(Error::WorkflowNotFound)));
    assert!(matches!(profile.enable_workflow(ALICE, 3), Err(Error::WorkflowNotFound)));
}

#[test]
fn a_workflow_is_added_with_an_account() {
    let mut profile = furnished();
    let id = profile
        .add_workflow_and_authorize(ALICE, "third".into(), "c".into(), 1)
        .unwrap();
    assert_eq!(id, 2);
    assert_eq!(profile.get_authorized_account(2), Some(1));
    assert!(matches!(
        profile.add_workflow_and_authorize(BOB, "n".into(), "c".into(), 1),
        Err(Error::BadOrigin)
    ));
    assert_eq!(profile.workflow_count(), 3);
    // The workflow stays where the account does not exist.
    assert!(matches!(
        profile.add_workflow_and_authorize(ALICE, "n".into(), "c".into(), 2),
        Err(Error::ExternalAccountNotFound)
    ));
    assert_eq!(profile.workflow_count(), 4);
    assert_eq!(profile.get_authorized_account(3), None);
}

#[test]
fn authorization_needs_a_workflow_and_an_account() {
    let mut profile = furnished();
    assert!(matches!(
        profile.authorize_workflow(ALICE, 2, 0),
        Err(Error::WorkflowNotFound)
    ));
    assert!(matches!(
        profile.authorize_workflow(ALICE, 1, 2),
        Err(Error::ExternalAccountNotFound)
    ));
    assert!(matches!(profile.authorize_workflow(BOB, 1, 0), Err(Error::BadOrigin)));
    assert_eq!(profile.get_authorized_account(1), None);
    profile.authorize_workflow(ALICE, 0, 1).unwrap();
    assert_eq!(profile.get_authorized_account(0), Some(1));
    assert_eq!(profile.get_authorized_account(1), None);
}

#[test]
fn keys_are_derived_from_the_number_of_the_account() {
    let mut profile = furnished();
    profile.dump_evm_account(ALICE, 1).unwrap();
    let mut expected = [7u8; 32];
    expected[24..].copy_from_slice(&1u64.to_be_bytes());
    assert_eq!(profile.get_dumped_key(ALICE, 1).unwrap(), expected);
}

#[test]
fn a_derived_key_that_is_too_short_is_refused() {
    mock::mock_derive_sr25519_key(|_| vec![7u8; 31]);
    let mut profile = BrickProfile::new(ALICE);
    assert!(matches!(
        profile.generate_evm_account(ALICE, RPC.to_string()),
        Err(Error::BadEvmSecretKey)
    ));
    assert_eq!(profile.external_account_count(), 0);
}

#[test]
fn addresses_are_those_of_the_keys() {
    mock_host();
    let mut profile = BrickProfile::new(ALICE);
    let mut key = vec![0u8; 64];
    key[31] = 1;
    key[63] = 9;
    assert_eq!(profile.add_generated_account(ALICE, RPC.to_string(), &key).unwrap(), 0);
    let one = [
        0x7e, 0x5f, 0x45, 0x52, 0x09, 0x1a, 0x69, 0x12, 0x5d, 0x5d, 0xfc, 0xb7, 0xb8, 0xc2, 0x65,
        0x90, 0x29, 0x39, 0x5b, 0xdf,
    ];
    assert_eq!(profile.get_evm_account_address(ALICE, 0).unwrap().0, one);
    let all = profile.get_all_evm_accounts(ALICE).unwrap();
    assert_eq!(all.len(), 1);
    assert_eq!(all[0].address.0, one);
    assert!(matches!(profile.get_evm_account_address(BOB, 0), Err(Error::BadOrigin)));
    assert!(matches!(
        profile.get_evm_account_address(ALICE, 1),
        Err(Error::ExternalAccountNotFound)
    ));
}

#[test]
fn keys_that_are_none_are_noticed() {
    let mut profile = BrickProfile::new(ALICE);
    let mut key = vec![0u8; 32];
    profile.add_generated_account(ALICE, RPC.to_string(), &key).unwrap();
    assert!(!profile.is_addressable(0));
    assert!(!profile.is_all_addressable());
    assert!(profile.is_addressable(1));
    profile.dump_evm_account(ALICE, 0).unwrap();
    assert!(profile.is_addressable(0));
    key[31] = 1;
    profile.add_generated_account(ALICE, RPC.to_string(), &key).unwrap();
    assert!(profile.is_all_addressable());
    assert!(profile.is_current_addressable());
}

#[test]
fn accounts_in_use_are_listed() {
    let mut profile = furnished();
    profile.generate_evm_account(ALICE, "http://two".to_string()).unwrap();
    profile.dump_evm_account(ALICE, 1).unwrap();
    let all = profile.get_all_evm_accounts(ALICE).unwrap();
    assert_eq!(all.len(), 2);
    assert_eq!((all[0].id, all[0].rpc.as_str()), (0, "http://zero"));
    assert_eq!((all[1].id, all[1].rpc.as_str()), (2, "http://two"));
    assert_eq!(all[1].address, profile.get_evm_account_address(ALICE, 2).unwrap());
    assert_ne!(all[0].address, all[1].address);
    assert!(matches!(profile.get_all_evm_accounts(BOB), Err(Error::BadOrigin)));
}

#[test]
fn a_dumped_account_is_out_of_use() {
    let mut profile = furnished();
    profile.set_workflow_session(0).unwrap();
    assert!(matches!(profile.dump_evm_account(BOB, 0), Err(Error::BadOrigin)));
    assert!(matches!(
        profile.dump_evm_account(ALICE, 2),
        Err(Error::ExternalAccountNotFound)
    ));
    profile.dump_evm_account(ALICE, 0).unwrap();
    assert!(matches!(profile.get_dumped_key(BOB, 0), Err(Error::BadOrigin)));
    assert!(matches!(
        profile.get_dumped_key(ALICE, 2),
        Err(Error::ExternalAccountNotFound)
    ));
    assert!(profile.get_dumped_key(ALICE, 0).is_ok());
    assert!(matches!(
        profile.dump_evm_account(ALICE, 0),
        Err(Error::ExternalAccountDisabled)
    ));
    assert!(matches!(
        profile.get_evm_account_address(ALICE, 0),
        Err(Error::ExternalAccountDisabled)
    ));
    assert!(matches!(
        profile.get_rpc_endpoint(ALICE, 0),
        Err(Error::ExternalAccountDisabled)
    ));
    assert!(matches!(
        profile.set_rpc_endpoint(ALICE, 0, RPC.to_string()),
        Err(Error::ExternalAccountDisabled)
    ));
    assert!(matches!(
        profile.get_current_evm_account_address(),
        Err(Error::ExternalAccountDisabled)
    ));
    // It may still be named in an authorization, which is then of no use.
    profile.authorize_workflow(ALICE, 1, 0).unwrap();
    assert!(profile.get_dumped_key(ALICE, 0).is_ok());
}

#[test]
fn endpoints_are_set_one_by_one() {
    let mut profile = furnished();
    profile.set_rpc_endpoint(ALICE, 0, "http://new".to_string()).unwrap();
    assert_eq!(profile.get_rpc_endpoint(ALICE, 0).unwrap(), "http://new");
    assert_eq!(profile.get_rpc_endpoint(ALICE, 1).unwrap(), "http://one");
    assert!(matches!(
        profile.set_rpc_endpoint(ALICE, 2, RPC.to_string()),
        Err(Error::ExternalAccountNotFound)
    ));
}
