//! Transactions: the request that a workflow hands in, and the parameters that are signed.
use vstd::prelude::*;

use crate::types::H160;

verus! {

/// A number of 256 bits, as four words of 64 bits, the least significant word first.
pub type U256 = [u64; 4];

/// A storage key or a hash of 256 bits.
pub type H256 = [u8; 32];

/// An address, and the storage keys at that address, which a transaction is going to access.
pub type AccessListItem = (H160, Vec<H256>);

/// View of an access list.
pub type AccessListView = Seq<(H160, Seq<H256>)>;

/// What an unsigned transaction says of itself; `None` where it says nothing.
#[derive(Debug)]
pub struct TransactionRequest {
    pub nonce: Option<U256>,
    /// `None` for the creation of a contract.
    pub to: Option<H160>,
    pub gas: Option<U256>,
    pub gas_price: Option<U256>,
    pub value: Option<U256>,
    pub data: Option<Vec<u8>>,
    pub transaction_type: Option<u64>,
    pub access_list: Option<Vec<AccessListItem>>,
    pub max_priority_fee_per_gas: Option<U256>,
}

/// What is signed. The signer looks up the nonce, the gas price and the chain where they are
/// `None`.
#[derive(Debug)]
pub struct TransactionParameters {
    pub nonce: Option<U256>,
    pub to: Option<H160>,
    pub gas: U256,
    pub gas_price: Option<U256>,
    pub value: U256,
    pub data: Vec<u8>,
    pub chain_id: Option<u64>,
    pub transaction_type: Option<u64>,
    pub access_list: Option<Vec<AccessListItem>>,
    pub max_fee_per_gas: Option<U256>,
    pub max_priority_fee_per_gas: Option<U256>,
}

/// View of a [`TransactionRequest`].
pub struct RequestView {
    pub nonce: Option<U256>,
    pub to: Option<H160>,
    pub gas: Option<U256>,
    pub gas_price: Option<U256>,
    pub value: Option<U256>,
    pub data: Option<Seq<u8>>,
    pub transaction_type: Option<u64>,
    pub access_list: Option<AccessListView>,
    pub max_priority_fee_per_gas: Option<U256>,
}

/// View of [`TransactionParameters`].
pub struct ParametersView {
    pub nonce: Option<U256>,
    pub to: Option<H160>,
    pub gas: U256,
    pub gas_price: Option<U256>,
    pub value: U256,
    pub data: Seq<u8>,
    pub chain_id: Option<u64>,
    pub transaction_type: Option<u64>,
    pub access_list: Option<AccessListView>,
    pub max_fee_per_gas: Option<U256>,
    pub max_priority_fee_per_gas: Option<U256>,
}

/// View of the access list of a transaction.
pub open spec fn access_list_view(list: Option<Vec<AccessListItem>>) -> Option<AccessListView> {
    match list {
        Some(items) => Some(items@.map_values(|item: AccessListItem| (item.0, item.1@))),
        None => None,
    }
}

impl View for TransactionRequest {
    type V = RequestView;

    open spec fn view(&self) -> RequestView {
        RequestView {
            nonce: self.nonce,
            to: self.to,
            gas: self.gas,
            gas_price: self.gas_price,
            value: self.value,
            data: match self.data {
                Some(bytes) => Some(bytes@),
                None => None,
            },
            transaction_type: self.transaction_type,
            access_list: access_list_view(self.access_list),
            max_priority_fee_per_gas: self.max_priority_fee_per_gas,
        }
    }
}

impl View for TransactionParameters {
    type V = ParametersView;

    open spec fn view(&self) -> ParametersView {
        ParametersView {
            nonce: self.nonce,
            to: self.to,
            gas: self.gas,
            gas_price: self.gas_price,
            value: self.value,
            data: self.data@,
            chain_id: self.chain_id,
            transaction_type: self.transaction_type,
            access_list: access_list_view(self.access_list),
            max_fee_per_gas: self.max_fee_per_gas,
            max_priority_fee_per_gas: self.max_priority_fee_per_gas,
        }
    }
}

/// The number zero.
pub open spec fn zero() -> U256 {
    [0u64, 0, 0, 0]
}

impl RequestView {
    /// The parameters to be signed for a request: gas and value are zero and the data is empty
    /// where the request does not give them, the chain is left to the signer, and every other
    /// field is taken over. A limit of the fee per gas is never set.
    pub open spec fn parameters(self) -> ParametersView {
        ParametersView {
            nonce: self.nonce,
            to: self.to,
            gas: match self.gas {
                Some(gas) => gas,
                None => zero(),
            },
            gas_price: self.gas_price,
            value: match self.value {
                Some(value) => value,
                None => zero(),
            },
            data: match self.data {
                Some(bytes) => bytes,
                None => Seq::empty(),
            },
            chain_id: None,
            transaction_type: self.transaction_type,
            access_list: self.access_list,
            max_fee_per_gas: None,
            max_priority_fee_per_gas: self.max_priority_fee_per_gas,
        }
    }
}

impl TransactionRequest {
    /// The parameters to be signed for this request.
    pub fn into_parameters(self) -> (r: TransactionParameters)
        ensures
            r@ == self@.parameters(),
    {
        let gas: U256 = match self.gas {
            Some(gas) => gas,
            None => [0, 0, 0, 0],
        };
        let value: U256 = match self.value {
            Some(value) => value,
            None => [0, 0, 0, 0],
        };
        let data: Vec<u8> = match self.data {
            Some(bytes) => bytes,
            None => Vec::new(),
        };
        assert(self.gas is None ==> gas =~= zero());
        assert(self.value is None ==> value =~= zero());
        TransactionParameters {
            nonce: self.nonce,
            to: self.to,
            gas,
            gas_price: self.gas_price,
            value,
            data,
            chain_id: None,
            transaction_type: self.transaction_type,
            access_list: self.access_list,
            max_fee_per_gas: None,
            max_priority_fee_per_gas: self.max_priority_fee_per_gas,
        }
    }
}

/// The view of a request shows what the request holds.
pub proof fn law_request_is_shown_as_it_is(request: TransactionRequest)
    ensures
        request@.nonce == request.nonce,
        request@.to == request.to,
        request@.gas == request.gas,
        request@.gas_price == request.gas_price,
        request@.value == request.value,
        request@.transaction_type == request.transaction_type,
        request@.max_priority_fee_per_gas == request.max_priority_fee_per_gas,
        request.data is None <==> request@.data is None,
        request.data matches Some(data) ==> request@.data == Some(data@),
        request.access_list is None <==> request@.access_list is None,
        request.access_list matches Some(list) ==> {
            &&& request@.access_list matches Some(shown)
            &&& shown.len() == list@.len()
            &&& forall|i: int|
                0 <= i < shown.len() ==> (#[trigger] shown[i]).0 == list@[i].0 && shown[i].1
                    == list@[i].1@
        },
{
}

/// The view of parameters shows what the parameters hold.
pub proof fn law_parameters_are_shown_as_they_are(parameters: TransactionParameters)
    ensures
        parameters@.nonce == parameters.nonce,
        parameters@.to == parameters.to,
        parameters@.gas == parameters.gas,
        parameters@.gas_price == parameters.gas_price,
        parameters@.value == parameters.value,
        parameters@.transaction_type == parameters.transaction_type,
        parameters@.max_priority_fee_per_gas == parameters.max_priority_fee_per_gas,
        parameters@.chain_id == parameters.chain_id,
        parameters@.max_fee_per_gas == parameters.max_fee_per_gas,
        parameters@.data == parameters.data@,
        parameters.access_list is None <==> parameters@.access_list is None,
        parameters.access_list matches Some(list) ==> {
            &&& parameters@.access_list matches Some(shown)
            &&& shown.len() == list@.len()
            &&& forall|i: int|
                0 <= i < shown.len() ==> (#[trigger] shown[i]).0 == list@[i].0 && shown[i].1
                    == list@[i].1@
        },
{
}

} // verus!
