//! What the profile has from outside: keys and addresses from the host that runs it, and the reader
//! of requests.
//!
//! A host answers the calls for keys and addresses on the chain and, in native builds, where a mock
//! of it is registered. Without a host they panic.
use pink_extension::chain_extension::signing;
use pink_json::from_slice;
use pink_web3::keys::pink::KeyPair;
use pink_web3::signing::Key;
use pink_web3::types::{TransactionRequest as Web3Request, U256 as Web3U256};
use vstd::prelude::*;

use crate::keys::is_secret_key;
use crate::text::{is_readable, marked};
use crate::transaction::{RequestView, TransactionRequest};
use crate::types::{view_option, H160};

verus! {

/// That `key` is a key which a host derived from `salt` for a contract of its own.
pub uninterp spec fn is_derived_key(salt: Seq<u8>, key: Seq<u8>) -> bool;

/// The address of the EVM account with secret key `sk`.
pub uninterp spec fn evm_address(sk: Seq<u8>) -> [u8; 20];

/// Calls `pink_extension::chain_extension::signing::derive_sr25519_key`. The host derives the key
/// from the salt and from its own secret for the running contract, so that two contracts get
/// different keys for one salt. Claimed is only that the key was derived from this salt; nothing
/// is claimed of its length or of its bytes.
#[verifier::external_body]
pub(crate) fn derive_sr25519_key(salt: &[u8]) -> (key: Vec<u8>)
    ensures
        is_derived_key(salt@, key@),
{
    signing::derive_sr25519_key(salt)
}

/// Calls `pink_web3::keys::pink::KeyPair::from` and its `address`. The host computes the public
/// key that belongs to the secret key, and the address is computed from the public key alone. No
/// public key belongs to a number outside the order of the curve, and the call panics on one.
#[verifier::external_body]
pub(crate) fn address_of_key(sk: &[u8; 32]) -> (address: H160)
    requires
        is_secret_key(sk@),
    ensures
        address.0 == evm_address(sk@),
{
    H160(KeyPair::from(*sk).address().0)
}

/// The request that the text `tx` holds, or `None` where it holds none.
pub uninterp spec fn parsed_request(tx: Seq<u8>) -> Option<RequestView>;

/// Calls `pink_json::from_slice` for a `pink_web3::types::TransactionRequest`, and takes over the
/// fields that are used. The text alone decides the outcome. On a readable text the call does not
/// panic; how deep the values of unknown fields may be nested is bounded by the stack alone.
///
/// Claimed is, besides, that question marks put in front of the strings for a key `data` that do
/// not begin with `0x` make no difference to what a text holds. Such a string is no `data` of a
/// request, with question marks or without: a text that gives it as such holds no request, be it
/// that the call refuses the text or, without question marks, that it panics. Everywhere else in a
/// text, be it in a string or between two delimiters, question marks are passed over.
#[verifier::external_body]
pub(crate) fn parse_request(tx: &[u8]) -> (r: Option<TransactionRequest>)
    requires
        is_readable(tx@),
    ensures
        view_option(r) == parsed_request(tx@),
        forall|raw: Seq<u8>| #[trigger] marked(raw) == tx@ ==> view_option(r) == parsed_request(raw),
{
    let word = |v: Option<Web3U256>| v.map(|v| v.0);
    let q: Web3Request = from_slice(tx).ok()?;
    Some(TransactionRequest {
        nonce: word(q.nonce),
        to: q.to.map(|v| H160(v.0)),
        gas: word(q.gas),
        gas_price: word(q.gas_price),
        value: word(q.value),
        data: q.data.map(|v| v.0),
        transaction_type: q.transaction_type.map(|v| v.as_u64()),
        access_list: q.access_list.map(|l| l.into_iter().map(|a|
            (H160(a.address.0), a.storage_keys.into_iter().map(Into::into).collect())).collect()),
        max_priority_fee_per_gas: word(q.max_priority_fee_per_gas),
    })
}

} // verus!
