//! The mathematical model of a profile: its contents, what each request answers, and what each
//! request leaves behind.
use vstd::prelude::*;

use crate::host::{evm_address, parsed_request};
use crate::keys::is_secret_key;
use crate::poll::{is_poll_id, RunCallView};
use crate::signing::SigningJobView;
use crate::transaction::RequestView;
use crate::types::{
    AccountId, AccountInfoView, AccountView, Error, ExternalAccountId, ExternalAccountType,
    WorkflowId, WorkflowInfoView, WorkflowView, H160,
};

verus! {

/// The contents of a profile.
#[verifier::ext_equal]
pub struct ProfileView {
    pub owner: AccountId,
    pub js_runner: Option<AccountId>,
    pub next_workflow_id: WorkflowId,
    pub workflows: Map<WorkflowId, WorkflowView>,
    pub next_external_account_id: ExternalAccountId,
    pub external_accounts: Map<ExternalAccountId, AccountView>,
    pub authorized_account: Map<WorkflowId, ExternalAccountId>,
    pub workflow_session: Option<WorkflowId>,
}

/// The answer to a request, and the profile that it leaves behind.
pub type Step<T> = (Result<T, Error>, ProfileView);

// What a profile is.
impl ProfileView {
    /// A profile without workflows, accounts, runner and session.
    pub open spec fn empty(owner: AccountId) -> ProfileView {
        ProfileView {
            owner,
            js_runner: None,
            next_workflow_id: 0,
            workflows: Map::empty(),
            next_external_account_id: 0,
            external_accounts: Map::empty(),
            authorized_account: Map::empty(),
            workflow_session: None,
        }
    }

    /// What holds of every profile. Workflows and accounts are numbered from zero without gaps,
    /// each under its own number; an account is disabled if and only if it is dumped; only
    /// workflows that exist are authorized, for accounts that exist; a session is that of a
    /// workflow that exists.
    pub open spec fn wf(self) -> bool {
        &&& forall|id: WorkflowId| #[trigger]
            self.workflows.contains_key(id) <==> id < self.next_workflow_id
        &&& forall|id: WorkflowId| #[trigger]
            self.workflows.contains_key(id) ==> self.workflows[id].id == id
        &&& forall|id: ExternalAccountId| #[trigger]
            self.external_accounts.contains_key(id) <==> id < self.next_external_account_id
        &&& forall|id: ExternalAccountId| #[trigger]
            self.external_accounts.contains_key(id) ==> self.external_accounts[id].wf(id)
        &&& forall|id: WorkflowId| #[trigger]
            self.authorized_account.contains_key(id) ==> self.workflows.contains_key(id)
                && self.external_accounts.contains_key(self.authorized_account[id])
        &&& self.workflow_session matches Some(id) ==> self.workflows.contains_key(id)
    }
}

impl AccountView {
    /// What holds of every account: it stands under its own number, it is disabled if and only if
    /// it is dumped, and its key has 32 bytes.
    pub open spec fn wf(self, id: ExternalAccountId) -> bool {
        &&& self.id == id
        &&& self.enabled <==> self.account_type != ExternalAccountType::Dumped
        &&& self.sk.len() == 32
    }
}

// What is looked up.
impl ProfileView {
    /// Only the owner passes.
    pub open spec fn owner_only(self, caller: AccountId) -> Result<(), Error> {
        if caller == self.owner {
            Ok(())
        } else {
            Err(Error::BadOrigin)
        }
    }

    pub open spec fn session(self) -> Result<WorkflowId, Error> {
        match self.workflow_session {
            Some(id) => Ok(id),
            None => Err(Error::BadWorkflowSession),
        }
    }

    pub open spec fn runner(self) -> Result<AccountId, Error> {
        match self.js_runner {
            Some(js_runner) => Ok(js_runner),
            None => Err(Error::NotConfigured),
        }
    }

    pub open spec fn workflow(self, id: WorkflowId) -> Result<WorkflowView, Error> {
        if self.workflows.contains_key(id) {
            Ok(self.workflows[id])
        } else {
            Err(Error::WorkflowNotFound)
        }
    }

    pub open spec fn enabled_workflow(self, id: WorkflowId) -> Result<WorkflowView, Error> {
        match self.workflow(id) {
            Ok(workflow) => if workflow.enabled {
                Ok(workflow)
            } else {
                Err(Error::WorkflowDisabled)
            },
            Err(e) => Err(e),
        }
    }

    pub open spec fn account(self, id: ExternalAccountId) -> Result<AccountView, Error> {
        if self.external_accounts.contains_key(id) {
            Ok(self.external_accounts[id])
        } else {
            Err(Error::ExternalAccountNotFound)
        }
    }

    pub open spec fn enabled_account(self, id: ExternalAccountId) -> Result<AccountView, Error> {
        match self.account(id) {
            Ok(account) => if account.enabled {
                Ok(account)
            } else {
                Err(Error::ExternalAccountDisabled)
            },
            Err(e) => Err(e),
        }
    }

    pub open spec fn dumped_account(self, id: ExternalAccountId) -> Result<AccountView, Error> {
        match self.account(id) {
            Ok(account) => if account.account_type == ExternalAccountType::Dumped {
                Ok(account)
            } else {
                Err(Error::OnlyDumpedAccount)
            },
            Err(e) => Err(e),
        }
    }

    /// The account that the workflow of the session is authorized to use.
    pub open spec fn current_account(self) -> Result<AccountView, Error> {
        match self.session() {
            Ok(workflow) => if self.authorized_account.contains_key(workflow) {
                self.enabled_account(self.authorized_account[workflow])
            } else {
                Err(Error::NoAuthorizedExternalAccount)
            },
            Err(e) => Err(e),
        }
    }

    /// The account that a workflow is authorized to use, if there is one.
    pub open spec fn authorized(self, workflow: WorkflowId) -> Option<ExternalAccountId> {
        if self.authorized_account.contains_key(workflow) {
            Some(self.authorized_account[workflow])
        } else {
            None
        }
    }

    /// What there is to tell about a workflow that exists.
    pub open spec fn info(self, id: WorkflowId) -> WorkflowInfoView {
        WorkflowInfoView {
            id: self.workflows[id].id,
            name: self.workflows[id].name,
            enabled: self.workflows[id].enabled,
            commandline: self.workflows[id].commandline,
            authorized_account: self.authorized(id),
        }
    }

    /// What there is to tell about an account that exists.
    pub open spec fn account_info(self, id: ExternalAccountId) -> AccountInfoView {
        AccountInfoView {
            id: self.external_accounts[id].id,
            address: H160(evm_address(self.external_accounts[id].sk)),
            rpc: self.external_accounts[id].rpc,
        }
    }

    /// The numbers of the enabled workflows.
    pub open spec fn enabled_workflows(self) -> Set<WorkflowId> {
        Set::new(|id: WorkflowId| self.workflows.contains_key(id) && self.workflows[id].enabled)
    }

    /// Whether account `id` exists and is enabled.
    pub open spec fn account_enabled(self, id: ExternalAccountId) -> bool {
        self.external_accounts.contains_key(id) && self.external_accounts[id].enabled
    }

    /// The numbers of the enabled accounts below `n`, in ascending order.
    pub open spec fn enabled_accounts_below(self, n: nat) -> Seq<ExternalAccountId>
        decreases n,
    {
        if n == 0 {
            Seq::empty()
        } else {
            let before = self.enabled_accounts_below((n - 1) as nat);
            let id = (n - 1) as ExternalAccountId;
            if self.account_enabled(id) {
                before.push(id)
            } else {
                before
            }
        }
    }

    /// The numbers of the enabled accounts, in ascending order.
    pub open spec fn enabled_accounts(self) -> Seq<ExternalAccountId> {
        self.enabled_accounts_below(self.next_external_account_id as nat)
    }

    /// Whether the key of account `id` is a secret key, unless the account is out of use.
    pub open spec fn addressable(self, id: ExternalAccountId) -> bool {
        self.account_enabled(id) ==> is_secret_key(self.external_accounts[id].sk)
    }

    /// Whether the key of every account in use is a secret key.
    pub open spec fn all_addressable(self) -> bool {
        forall|id: ExternalAccountId| #[trigger] self.addressable(id)
    }

    /// Whether the key of the account of the session, where there is one, is a secret key.
    pub open spec fn current_addressable(self) -> bool {
        self.current_account() matches Ok(account) ==> is_secret_key(account.sk)
    }
}

// What requests that only read answer.
impl ProfileView {
    pub open spec fn get_workflow(self, caller: AccountId, id: WorkflowId) -> Result<
        WorkflowInfoView,
        Error,
    > {
        if caller != self.owner {
            Err(Error::BadOrigin)
        } else if !self.workflows.contains_key(id) {
            Err(Error::WorkflowNotFound)
        } else {
            Ok(self.info(id))
        }
    }

    pub open spec fn get_all_workflows(self, caller: AccountId) -> Result<
        Seq<WorkflowInfoView>,
        Error,
    > {
        if caller != self.owner {
            Err(Error::BadOrigin)
        } else {
            Ok(Seq::new(self.next_workflow_id as nat, |i: int| self.info(i as WorkflowId)))
        }
    }

    pub open spec fn get_evm_account_address(
        self,
        caller: AccountId,
        id: ExternalAccountId,
    ) -> Result<H160, Error> {
        if caller != self.owner {
            Err(Error::BadOrigin)
        } else {
            match self.enabled_account(id) {
                Ok(account) => Ok(H160(evm_address(account.sk))),
                Err(e) => Err(e),
            }
        }
    }

    pub open spec fn get_all_evm_accounts(self, caller: AccountId) -> Result<
        Seq<AccountInfoView>,
        Error,
    > {
        if caller != self.owner {
            Err(Error::BadOrigin)
        } else {
            Ok(self.enabled_accounts().map_values(|id: ExternalAccountId| self.account_info(id)))
        }
    }

    pub open spec fn get_rpc_endpoint(self, caller: AccountId, id: ExternalAccountId) -> Result<
        Seq<char>,
        Error,
    > {
        if caller != self.owner {
            Err(Error::BadOrigin)
        } else {
            match self.enabled_account(id) {
                Ok(account) => Ok(account.rpc),
                Err(e) => Err(e),
            }
        }
    }

    pub open spec fn get_dumped_key(self, caller: AccountId, id: ExternalAccountId) -> Result<
        Seq<u8>,
        Error,
    > {
        if caller != self.owner {
            Err(Error::BadOrigin)
        } else {
            match self.dumped_account(id) {
                Ok(account) => Ok(account.sk),
                Err(e) => Err(e),
            }
        }
    }

    pub open spec fn get_current_evm_account_address(self) -> Result<H160, Error> {
        match self.current_account() {
            Ok(account) => Ok(H160(evm_address(account.sk))),
            Err(e) => Err(e),
        }
    }

    /// What is to be signed, and with which key, for a request as it was read.
    pub open spec fn prepare_signing(self, request: Option<RequestView>) -> Result<
        SigningJobView,
        Error,
    > {
        match self.current_account() {
            Ok(account) => match request {
                Some(request) => Ok(
                    SigningJobView {
                        rpc: account.rpc,
                        sk: account.sk,
                        parameters: request.parameters(),
                    },
                ),
                None => Err(Error::BadUnsignedTransaction),
            },
            Err(e) => Err(e),
        }
    }

    pub open spec fn sign_evm_transaction(self, tx: Seq<u8>) -> Result<SigningJobView, Error> {
        self.prepare_signing(parsed_request(tx))
    }
}

// What requests that write answer, and leave behind.
impl ProfileView {
    pub open spec fn config(self, caller: AccountId, js_runner: AccountId) -> Step<()> {
        if caller != self.owner {
            (Err(Error::BadOrigin), self)
        } else {
            (Ok(()), ProfileView { js_runner: Some(js_runner), ..self })
        }
    }

    pub open spec fn add_workflow(
        self,
        caller: AccountId,
        name: Seq<char>,
        commandline: Seq<char>,
    ) -> Step<WorkflowId> {
        if caller != self.owner {
            (Err(Error::BadOrigin), self)
        } else {
            let id = self.next_workflow_id;
            let workflow = WorkflowView { id, name, enabled: true, commandline };
            (
                Ok(id),
                ProfileView {
                    next_workflow_id: (id + 1) as WorkflowId,
                    workflows: self.workflows.insert(id, workflow),
                    ..self
                },
            )
        }
    }

    pub open spec fn authorize_workflow(
        self,
        caller: AccountId,
        workflow: WorkflowId,
        account: ExternalAccountId,
    ) -> Step<()> {
        if caller != self.owner {
            (Err(Error::BadOrigin), self)
        } else if !self.workflows.contains_key(workflow) {
            (Err(Error::WorkflowNotFound), self)
        } else if !self.external_accounts.contains_key(account) {
            (Err(Error::ExternalAccountNotFound), self)
        } else {
            (
                Ok(()),
                ProfileView {
                    authorized_account: self.authorized_account.insert(workflow, account),
                    ..self
                },
            )
        }
    }

    /// The workflow is added first, and stays where the account then turns out not to exist.
    pub open spec fn add_workflow_and_authorize(
        self,
        caller: AccountId,
        name: Seq<char>,
        commandline: Seq<char>,
        account: ExternalAccountId,
    ) -> Step<WorkflowId> {
        match self.add_workflow(caller, name, commandline) {
            (Ok(id), added) => match added.authorize_workflow(caller, id, account) {
                (Ok(_), authorized) => (Ok(id), authorized),
                (Err(e), unchanged) => (Err(e), unchanged),
            },
            (Err(e), unchanged) => (Err(e), unchanged),
        }
    }

    /// Enables or disables a workflow.
    pub open spec fn switch_workflow(
        self,
        caller: AccountId,
        id: WorkflowId,
        enabled: bool,
    ) -> Step<()> {
        if caller != self.owner {
            (Err(Error::BadOrigin), self)
        } else if !self.workflows.contains_key(id) {
            (Err(Error::WorkflowNotFound), self)
        } else {
            let workflow = WorkflowView { enabled, ..self.workflows[id] };
            (Ok(()), ProfileView { workflows: self.workflows.insert(id, workflow), ..self })
        }
    }

    /// The profile in which account `id` is replaced.
    pub open spec fn with_account(self, id: ExternalAccountId, account: AccountView) -> ProfileView {
        ProfileView { external_accounts: self.external_accounts.insert(id, account), ..self }
    }

    pub open spec fn set_rpc_endpoint(
        self,
        caller: AccountId,
        id: ExternalAccountId,
        rpc: Seq<char>,
    ) -> Step<()> {
        if caller != self.owner {
            (Err(Error::BadOrigin), self)
        } else {
            match self.enabled_account(id) {
                Ok(account) => (Ok(()), self.with_account(id, AccountView { rpc, ..account })),
                Err(e) => (Err(e), self),
            }
        }
    }

    /// Adds an account with the first 32 bytes of a key that the host derived.
    pub open spec fn add_generated_account(
        self,
        caller: AccountId,
        rpc: Seq<char>,
        key: Seq<u8>,
    ) -> Step<ExternalAccountId> {
        if caller != self.owner {
            (Err(Error::BadOrigin), self)
        } else if key.len() < 32 {
            (Err(Error::BadEvmSecretKey), self)
        } else {
            let id = self.next_external_account_id;
            let account = AccountView {
                id,
                enabled: true,
                account_type: ExternalAccountType::Generated,
                rpc,
                sk: key.take(32),
            };
            (
                Ok(id),
                ProfileView {
                    next_external_account_id: (id + 1) as ExternalAccountId,
                    ..self.with_account(id, account)
                },
            )
        }
    }

    pub open spec fn dump_evm_account(self, caller: AccountId, id: ExternalAccountId) -> Step<()> {
        if caller != self.owner {
            (Err(Error::BadOrigin), self)
        } else {
            match self.enabled_account(id) {
                Ok(account) => (
                    Ok(()),
                    self.with_account(
                        id,
                        AccountView {
                            enabled: false,
                            account_type: ExternalAccountType::Dumped,
                            ..account
                        },
                    ),
                ),
                Err(e) => (Err(e), self),
            }
        }
    }

    pub open spec fn set_workflow_session(self, workflow: WorkflowId) -> Step<()> {
        if self.workflows.contains_key(workflow) {
            (Ok(()), ProfileView { workflow_session: Some(workflow), ..self })
        } else {
            (Err(Error::WorkflowNotFound), self)
        }
    }

    /// The session is opened before the runner is looked up, and stays where there is none.
    pub open spec fn force_poll(
        self,
        in_transaction: bool,
        workflow_id: WorkflowId,
        poll_id: Seq<char>,
    ) -> Step<RunCallView> {
        if in_transaction {
            (Err(Error::NoPollForTransaction), self)
        } else if !is_poll_id(poll_id) {
            (Err(Error::InvalidPollId), self)
        } else {
            match self.set_workflow_session(workflow_id) {
                (Ok(_), opened) => match self.js_runner {
                    Some(js_runner) => (
                        Ok(
                            RunCallView {
                                js_runner,
                                commandline: self.workflows[workflow_id].commandline,
                            },
                        ),
                        opened,
                    ),
                    None => (Err(Error::NotConfigured), opened),
                },
                (Err(e), unchanged) => (Err(e), unchanged),
            }
        }
    }

    pub open spec fn poll(
        self,
        in_transaction: bool,
        workflow_id: WorkflowId,
        poll_id: Seq<char>,
    ) -> Step<RunCallView> {
        match self.enabled_workflow(workflow_id) {
            Ok(_) => self.force_poll(in_transaction, workflow_id, poll_id),
            Err(e) => (Err(e), self),
        }
    }
}

} // verus!
