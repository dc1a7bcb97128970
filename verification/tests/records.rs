use brick_profile::keys::{account_salt, check_secret_key, leading_key};
use brick_profile::{
    AccountId, BrickProfile, Error, ExternalAccount, ExternalAccountType, ProfileRecord, Workflow,
};

const ALICE: AccountId = AccountId([1; 32]);
const RUNNER: AccountId = AccountId([3; 32]);

fn workflow(id: u64) -> Workflow {
    Workflow {
        id,
        name: "name".to_string(),
        enabled: id % 2 == 0,
        commandline: "commandline".to_string(),
    }
}

fn account(id: u64, dumped: bool) -> ExternalAccount {
    ExternalAccount {
        id,
        enabled: !dumped,
        account_type: if dumped {
            ExternalAccountType::Dumped
        } else {
            ExternalAccountType::Generated
        },
        rpc: "http://localhost".to_string(),
        sk: [7; 32],
    }
}

fn record() -> ProfileRecord {
    ProfileRecord {
        owner: ALICE,
        js_runner: Some(RUNNER),
        workflows: vec![workflow(0), workflow(1)],
        external_accounts: vec![account(0, false), account(1, true)],
        authorized_accounts: vec![None, Some(1)],
        workflow_session: Some(1),
    }
}

#[test]
fn a_record_is_restored() {
    let profile = BrickProfile::restore(record()).unwrap();
    assert_eq!(profile.owner(), ALICE);
    assert_eq!(profile.get_js_runner().unwrap(), RUNNER);
    assert_eq!(profile.workflow_count(), 2);
    assert_eq!(profile.enabled_workflow_count(), 1);
    assert_eq!(profile.external_account_count(), 2);
    assert_eq!(profile.get_authorized_account(0), None);
    assert_eq!(profile.get_authorized_account(1), Some(1));
    assert_eq!(profile.get_dumped_key(ALICE, 1).unwrap(), [7; 32]);
    assert!(matches!(
        profile.get_current_evm_account_address(),
        Err(Error::ExternalAccountDisabled)
    ));
}

#[test]
fn a_profile_survives_its_record() {
    let profile = BrickProfile::restore(record()).unwrap();
    let back = profile.to_record();
    assert_eq!(format!("{:?}", back), format!("{:?}", record()));
}

#[test]
fn a_record_that_describes_no_profile_is_refused() {
    let mut bad = record();
    bad.workflows[1].id = 0;
    assert!(BrickProfile::restore(bad).is_none());

    let mut bad = record();
    bad.external_accounts[0].id = 1;
    assert!(BrickProfile::restore(bad).is_none());

    let mut bad = record();
    bad.external_accounts[1].enabled = true;
    assert!(BrickProfile::restore(bad).is_none());

    let mut bad = record();
    bad.external_accounts[0].enabled = false;
    assert!(BrickProfile::restore(bad).is_none());

    let mut bad = record();
    bad.authorized_accounts[0] = Some(2);
    assert!(BrickProfile::restore(bad).is_none());

    let mut bad = record();
    bad.authorized_accounts.push(None);
    assert!(BrickProfile::restore(bad).is_none());

    let mut bad = record();
    bad.workflow_session = Some(2);
    assert!(BrickProfile::restore(bad).is_none());
}

#[test]
fn salts_are_big_endian() {
    assert_eq!(account_salt(0), [0; 8]);
    assert_eq!(account_salt(0x0102030405060708), [1, 2, 3, 4, 5, 6, 7, 8]);
    assert_eq!(account_salt(u64::MAX), u64::MAX.to_be_bytes());
}

#[test]
fn secret_keys_lie_below_the_order() {
    let mut order = [
        0xffu8, 0xff, 0xff, 0xff, 0xff, 0xff, 0xff, 0xff, 0xff, 0xff, 0xff, 0xff, 0xff, 0xff, 0xff,
        0xfe, 0xba, 0xae, 0xdc, 0xe6, 0xaf, 0x48, 0xa0, 0x3b, 0xbf, 0xd2, 0x5e, 0x8c, 0xd0, 0x36,
        0x41, 0x41,
    ];
    assert!(!check_secret_key(&order));
    assert!(secp256k1::SecretKey::from_slice(&order).is_err());
    order[31] = 0x40;
    assert!(check_secret_key(&order));
    assert!(secp256k1::SecretKey::from_slice(&order).is_ok());
    order[31] = 0x42;
    assert!(!check_secret_key(&order));
    assert!(secp256k1::SecretKey::from_slice(&order).is_err());
    assert!(!check_secret_key(&[0; 32]));
    assert!(secp256k1::SecretKey::from_slice(&[0; 32]).is_err());
    assert!(!check_secret_key(&[0xff; 32]));
    assert!(check_secret_key(&[7; 32]));
}

#[test]
fn keys_are_cut_to_their_size() {
    assert_eq!(leading_key(&vec![1; 31]), None);
    assert_eq!(leading_key(&vec![1; 32]), Some([1; 32]));
    let mut long = vec![1; 64];
    long[32] = 2;
    assert_eq!(leading_key(&long), Some([1; 32]));
}
