//! The plain values that a profile is made of, and their mathematical views.
use vstd::prelude::*;

verus! {

/// Number of an external account; accounts are numbered from zero, without gaps.
pub type ExternalAccountId = u64;

/// Number of a workflow; workflows are numbered from zero, without gaps.
pub type WorkflowId = u64;

/// Major, minor and patch number of the library.
pub type VersionTuple = (u16, u16, u16);

/// Identity of an account or a contract on the chain.
#[derive(Clone, Copy, Debug, PartialEq, Eq)]
pub struct AccountId(pub [u8; 32]);

/// Address of an EVM account.
#[derive(Clone, Copy, Debug, PartialEq, Eq)]
pub struct H160(pub [u8; 20]);

impl AccountId {
    /// Tells whether two identities are the same.
    pub fn same(&self, other: &AccountId) -> (r: bool)
        ensures
            r == (*self == *other),
    {
        let mut i: usize = 0;
        while i < 32
            invariant
                i <= 32,
                forall|j: int| 0 <= j < i ==> self.0[j] == other.0[j],
            decreases 32 - i,
        {
            if self.0[i] != other.0[i] {
                return false;
            }
            i = i + 1;
        }
        assert(self.0 =~= other.0);
        true
    }
}

/// Where the secret key of an external account comes from.
#[derive(Clone, Copy, Debug, PartialEq, Eq, Structural)]
pub enum ExternalAccountType {
    /// The key was handed in by the owner.
    Imported,
    /// The key was derived by the host.
    Generated,
    /// The key was given out to the owner; the account is no longer in use.
    Dumped,
}

/// An EVM account whose secret key the profile keeps.
#[derive(Debug)]
pub struct ExternalAccount {
    pub id: ExternalAccountId,
    /// An account is disabled once it is dumped.
    pub enabled: bool,
    pub account_type: ExternalAccountType,
    /// The endpoint determines on which chain the account is used. One secret key may serve
    /// several accounts on different chains.
    pub rpc: String,
    pub sk: [u8; 32],
}

/// A workflow: a command line that the JavaScript runner executes.
#[derive(Debug)]
pub struct Workflow {
    pub id: WorkflowId,
    pub name: String,
    pub enabled: bool,
    pub commandline: String,
}

/// What the owner is told about a workflow.
#[derive(Debug)]
pub struct WorkflowInfo {
    pub id: WorkflowId,
    pub name: String,
    pub enabled: bool,
    pub commandline: String,
    pub authorized_account: Option<ExternalAccountId>,
}

/// What the owner is told about an external account.
#[derive(Debug)]
pub struct ExternalAccountInfo {
    pub id: ExternalAccountId,
    pub address: H160,
    pub rpc: String,
}

/// Why a request was refused.
#[derive(Debug)]
pub enum Error {
    BadOrigin,
    NotConfigured,
    Deprecated,
    NoPollForTransaction,
    BadWorkflowSession,
    BadEvmSecretKey,
    BadUnsignedTransaction,
    WorkflowNotFound,
    WorkflowDisabled,
    NoAuthorizedExternalAccount,
    ExternalAccountNotFound,
    ExternalAccountDisabled,
    FailedToGetEthAccounts(String),
    FailedToSignTransaction(String),
    OnlyDumpedAccount,
    InvalidPollId,
}

/// View of an [`ExternalAccount`].
pub struct AccountView {
    pub id: ExternalAccountId,
    pub enabled: bool,
    pub account_type: ExternalAccountType,
    pub rpc: Seq<char>,
    pub sk: Seq<u8>,
}

/// View of a [`Workflow`].
pub struct WorkflowView {
    pub id: WorkflowId,
    pub name: Seq<char>,
    pub enabled: bool,
    pub commandline: Seq<char>,
}

/// View of a [`WorkflowInfo`].
pub struct WorkflowInfoView {
    pub id: WorkflowId,
    pub name: Seq<char>,
    pub enabled: bool,
    pub commandline: Seq<char>,
    pub authorized_account: Option<ExternalAccountId>,
}

/// View of an [`ExternalAccountInfo`].
pub struct AccountInfoView {
    pub id: ExternalAccountId,
    pub address: H160,
    pub rpc: Seq<char>,
}

impl View for ExternalAccount {
    type V = AccountView;

    open spec fn view(&self) -> AccountView {
        AccountView {
            id: self.id,
            enabled: self.enabled,
            account_type: self.account_type,
            rpc: self.rpc@,
            sk: self.sk@,
        }
    }
}

impl View for Workflow {
    type V = WorkflowView;

    open spec fn view(&self) -> WorkflowView {
        WorkflowView {
            id: self.id,
            name: self.name@,
            enabled: self.enabled,
            commandline: self.commandline@,
        }
    }
}

impl View for WorkflowInfo {
    type V = WorkflowInfoView;

    open spec fn view(&self) -> WorkflowInfoView {
        WorkflowInfoView {
            id: self.id,
            name: self.name@,
            enabled: self.enabled,
            commandline: self.commandline@,
            authorized_account: self.authorized_account,
        }
    }
}

impl View for ExternalAccountInfo {
    type V = AccountInfoView;

    open spec fn view(&self) -> AccountInfoView {
        AccountInfoView { id: self.id, address: self.address, rpc: self.rpc@ }
    }
}

impl ExternalAccount {
    /// An independent copy of the account.
    pub(crate) fn duplicate(&self) -> (r: ExternalAccount)
        ensures
            r@ == self@,
    {
        ExternalAccount {
            id: self.id,
            enabled: self.enabled,
            account_type: self.account_type,
            rpc: self.rpc.clone(),
            sk: self.sk,
        }
    }
}

impl Workflow {
    /// An independent copy of the workflow.
    pub(crate) fn duplicate(&self) -> (r: Workflow)
        ensures
            r@ == self@,
    {
        Workflow {
            id: self.id,
            name: self.name.clone(),
            enabled: self.enabled,
            commandline: self.commandline.clone(),
        }
    }
}

/// The outcome of a request, with the value replaced by its view.
pub open spec fn view_result<T: View>(r: Result<T, Error>) -> Result<T::V, Error> {
    match r {
        Ok(v) => Ok(v@),
        Err(e) => Err(e),
    }
}

/// A value that may be missing, replaced by its view.
pub open spec fn view_option<T: View>(r: Option<T>) -> Option<T::V> {
    match r {
        Some(v) => Some(v@),
        None => None,
    }
}

/// The outcome of a request for a list, with each item replaced by its view.
pub open spec fn view_list<T: View>(r: Result<Vec<T>, Error>) -> Result<Seq<T::V>, Error> {
    match r {
        Ok(items) => Ok(items@.map_values(|item: T| item@)),
        Err(e) => Err(e),
    }
}

/// The view of a workflow shows what the workflow holds.
pub proof fn law_workflow_is_shown_as_it_is(workflow: Workflow)
    ensures
        workflow@.id == workflow.id,
        workflow@.name == workflow.name@,
        workflow@.enabled == workflow.enabled,
        workflow@.commandline == workflow.commandline@,
{
}

/// The view of an account shows what the account holds.
pub proof fn law_account_is_shown_as_it_is(account: ExternalAccount)
    ensures
        account@.id == account.id,
        account@.enabled == account.enabled,
        account@.account_type == account.account_type,
        account@.rpc == account.rpc@,
        account@.sk == account.sk@,
{
}

/// The views of what the owner is told show what is told.
pub proof fn law_answers_are_shown_as_they_are(told: WorkflowInfo, info: ExternalAccountInfo)
    ensures
        told@.id == told.id,
        told@.name == told.name@,
        told@.enabled == told.enabled,
        told@.commandline == told.commandline@,
        told@.authorized_account == told.authorized_account,
        info@.id == info.id,
        info@.address == info.address,
        info@.rpc == info.rpc@,
{
}

/// The view of an outcome is granted or refused, or there or missing, as the outcome is; the view of
/// a list shows its items in their places.
pub proof fn law_outcomes_are_shown_as_they_are<T: View>(
    one: Result<T, Error>,
    maybe: Option<T>,
    list: Result<Vec<T>, Error>,
    i: int,
)
    ensures
        one matches Ok(v) ==> view_result(one) == Ok::<T::V, Error>(v@),
        one matches Err(e) ==> view_result(one) == Err::<T::V, Error>(e),
        maybe matches Some(v) ==> view_option(maybe) == Some(v@),
        maybe is None ==> view_option(maybe) is None,
        list matches Err(e) ==> view_list(list) == Err::<Seq<T::V>, Error>(e),
        list matches Ok(items) ==> {
            &&& view_list(list) matches Ok(shown)
            &&& shown.len() == items@.len()
            &&& 0 <= i < shown.len() ==> shown[i] == items@[i]@
        },
{
}

} // verus!
