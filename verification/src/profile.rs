//! The profile: the workflows of one owner, the external accounts that these may use, and the
//! rules by which they are managed.
use std::collections::BTreeMap;
use vstd::prelude::*;

use crate::host::{address_of_key, derive_sr25519_key, is_derived_key, parse_request};
use crate::keys::{account_salt, check_secret_key, leading_key, salt_of};
use crate::poll::{check_poll_id, RunCall};
use crate::record::ProfileRecord;
use crate::signing::SigningJob;
use crate::state::ProfileView;
use crate::text::mark;
use crate::transaction::TransactionRequest;
use crate::types::{
    view_list, view_option, view_result, AccountId, Error, ExternalAccount, ExternalAccountId,
    ExternalAccountInfo, ExternalAccountType, VersionTuple, Workflow, WorkflowId, WorkflowInfo,
    H160,
};

verus! {

broadcast use {vstd::std_specs::btree::group_btree_axioms, vstd::laws_cmp::group_laws_cmp};

/// Where the JavaScript runner is found.
#[derive(Debug)]
struct Config {
    js_runner: AccountId,
}

/// The workflows and the external accounts of one owner.
#[derive(Debug)]
pub struct BrickProfile {
    owner: AccountId,
    config: Option<Config>,
    next_workflow_id: WorkflowId,
    workflows: BTreeMap<WorkflowId, Workflow>,
    next_external_account_id: ExternalAccountId,
    external_accounts: BTreeMap<ExternalAccountId, ExternalAccount>,
    authorized_account: BTreeMap<WorkflowId, ExternalAccountId>,
    workflow_session: Option<WorkflowId>,
}

impl View for BrickProfile {
    type V = ProfileView;

    closed spec fn view(&self) -> ProfileView {
        ProfileView {
            owner: self.owner,
            js_runner: match self.config {
                Some(config) => Some(config.js_runner),
                None => None,
            },
            next_workflow_id: self.next_workflow_id,
            workflows: self.workflows@.map_values(|w: Workflow| w@),
            next_external_account_id: self.next_external_account_id,
            external_accounts: self.external_accounts@.map_values(|a: ExternalAccount| a@),
            authorized_account: self.authorized_account@,
            workflow_session: self.workflow_session,
        }
    }
}

// What is checked before a request is served.
impl BrickProfile {
    /// Returns `BadOrigin` if the caller is not the owner.
    fn ensure_owner(&self, caller: AccountId) -> (r: Result<(), Error>)
        ensures
            r == self@.owner_only(caller),
    {
        if caller.same(&self.owner) {
            Ok(())
        } else {
            Err(Error::BadOrigin)
        }
    }

    fn ensure_workflow_session(&self) -> (r: Result<WorkflowId, Error>)
        ensures
            r == self@.session(),
    {
        match self.workflow_session {
            Some(id) => Ok(id),
            None => Err(Error::BadWorkflowSession),
        }
    }

    fn ensure_workflow(&self, id: WorkflowId) -> (r: Result<Workflow, Error>)
        ensures
            view_result(r) == self@.workflow(id),
    {
        match self.workflows.get(&id) {
            Some(workflow) => Ok(workflow.duplicate()),
            None => Err(Error::WorkflowNotFound),
        }
    }

    fn ensure_enabled_workflow(&self, id: WorkflowId) -> (r: Result<Workflow, Error>)
        ensures
            view_result(r) == self@.enabled_workflow(id),
    {
        let workflow: Workflow = self.ensure_workflow(id)?;
        if workflow.enabled {
            Ok(workflow)
        } else {
            Err(Error::WorkflowDisabled)
        }
    }

    fn ensure_external_account(&self, id: ExternalAccountId) -> (r: Result<ExternalAccount, Error>)
        ensures
            view_result(r) == self@.account(id),
    {
        match self.external_accounts.get(&id) {
            Some(account) => Ok(account.duplicate()),
            None => Err(Error::ExternalAccountNotFound),
        }
    }

    fn ensure_enabled_external_account(&self, id: ExternalAccountId) -> (r: Result<
        ExternalAccount,
        Error,
    >)
        ensures
            view_result(r) == self@.enabled_account(id),
    {
        let account: ExternalAccount = self.ensure_external_account(id)?;
        if account.enabled {
            Ok(account)
        } else {
            Err(Error::ExternalAccountDisabled)
        }
    }

    fn ensure_dumped_external_account(&self, id: ExternalAccountId) -> (r: Result<
        ExternalAccount,
        Error,
    >)
        ensures
            view_result(r) == self@.dumped_account(id),
    {
        let account: ExternalAccount = self.ensure_external_account(id)?;
        if account.account_type == ExternalAccountType::Dumped {
            Ok(account)
        } else {
            Err(Error::OnlyDumpedAccount)
        }
    }

    /// The account that the workflow of the session is authorized to use.
    fn ensure_current_account(&self) -> (r: Result<ExternalAccount, Error>)
        ensures
            view_result(r) == self@.current_account(),
    {
        let workflow: WorkflowId = self.ensure_workflow_session()?;
        match self.authorized_account.get(&workflow) {
            Some(account) => self.ensure_enabled_external_account(*account),
            None => Err(Error::NoAuthorizedExternalAccount),
        }
    }
}

// Workflows.
impl BrickProfile {
    /// A profile without workflows and accounts.
    pub fn new(owner: AccountId) -> (r: Self)
        ensures
            r@ == ProfileView::empty(owner),
            r@.wf(),
    {
        let r = BrickProfile {
            owner,
            config: None,
            next_workflow_id: 0,
            workflows: BTreeMap::new(),
            next_external_account_id: 0,
            external_accounts: BTreeMap::new(),
            authorized_account: BTreeMap::new(),
            workflow_session: None,
        };
        assert(r@ =~= ProfileView::empty(owner));
        r
    }

    /// A profile without workflows and accounts, which belongs to the caller.
    pub fn default(caller: AccountId) -> (r: Self)
        ensures
            r@ == ProfileView::empty(caller),
            r@.wf(),
    {
        Self::new(caller)
    }

    /// Configures the workflow executor (only owner).
    pub fn config(&mut self, caller: AccountId, js_runner: AccountId) -> (r: Result<(), Error>)
        requires
            old(self)@.wf(),
        ensures
            (r, final(self)@) == old(self)@.config(caller, js_runner),
            final(self)@.wf(),
    {
        self.ensure_owner(caller)?;
        self.config = Some(Config { js_runner });
        Ok(())
    }

    /// Adds a new workflow (only owner).
    pub fn add_workflow(
        &mut self,
        caller: AccountId,
        name: String,
        commandline: String,
    ) -> (r: Result<WorkflowId, Error>)
        requires
            old(self)@.wf(),
            caller == old(self)@.owner ==> old(self)@.next_workflow_id < u64::MAX,
        ensures
            (r, final(self)@) == old(self)@.add_workflow(caller, name@, commandline@),
            final(self)@.wf(),
    {
        self.ensure_owner(caller)?;
        let id: WorkflowId = self.next_workflow_id;
        let workflow = Workflow { id, name, enabled: true, commandline };
        self.workflows.insert(id, workflow);
        self.next_workflow_id = self.next_workflow_id + 1;
        proof {
            assert(self@ =~= old(self)@.add_workflow(caller, name@, commandline@).1);
        }
        Ok(id)
    }

    /// Adds a new workflow and authorizes it to use the account (only owner).
    pub fn add_workflow_and_authorize(
        &mut self,
        caller: AccountId,
        name: String,
        commandline: String,
        account: ExternalAccountId,
    ) -> (r: Result<WorkflowId, Error>)
        requires
            old(self)@.wf(),
            caller == old(self)@.owner ==> old(self)@.next_workflow_id < u64::MAX,
        ensures
            (r, final(self)@) == old(self)@.add_workflow_and_authorize(
                caller,
                name@,
                commandline@,
                account,
            ),
            final(self)@.wf(),
    {
        self.ensure_owner(caller)?;
        let id: WorkflowId = self.next_workflow_id;
        self.add_workflow(caller, name, commandline)?;
        self.authorize_workflow(caller, id, account)?;
        Ok(id)
    }

    /// Authorizes a workflow to use an account (only owner).
    pub fn authorize_workflow(
        &mut self,
        caller: AccountId,
        workflow: WorkflowId,
        account: ExternalAccountId,
    ) -> (r: Result<(), Error>)
        requires
            old(self)@.wf(),
        ensures
            (r, final(self)@) == old(self)@.authorize_workflow(caller, workflow, account),
            final(self)@.wf(),
    {
        self.ensure_owner(caller)?;
        self.ensure_workflow(workflow)?;
        self.ensure_external_account(account)?;
        self.authorized_account.insert(workflow, account);
        Ok(())
    }

    /// Gets workflow details (only owner).
    pub fn get_workflow(&self, caller: AccountId, id: WorkflowId) -> (r: Result<
        WorkflowInfo,
        Error,
    >)
        ensures
            view_result(r) == self@.get_workflow(caller, id),
    {
        self.ensure_owner(caller)?;
        let workflow: Workflow = self.ensure_workflow(id)?;
        Ok(
            WorkflowInfo {
                id: workflow.id,
                name: workflow.name,
                enabled: workflow.enabled,
                commandline: workflow.commandline,
                authorized_account: self.get_authorized_account(id),
            },
        )
    }

    /// Gets the account that a workflow is authorized to use.
    pub fn get_authorized_account(&self, workflow: WorkflowId) -> (r: Option<ExternalAccountId>)
        ensures
            r == self@.authorized(workflow),
    {
        match self.authorized_account.get(&workflow) {
            Some(account) => Some(*account),
            None => None,
        }
    }

    /// Gets all workflows (only owner).
    pub fn get_all_workflows(&self, caller: AccountId) -> (r: Result<Vec<WorkflowInfo>, Error>)
        requires
            self@.wf(),
        ensures
            view_list(r) == self@.get_all_workflows(caller),
    {
        self.ensure_owner(caller)?;
        let mut workflows: Vec<WorkflowInfo> = Vec::new();
        let mut id: WorkflowId = 0;
        while id < self.next_workflow_id
            invariant
                self@.wf(),
                id <= self.next_workflow_id,
                workflows@.len() == id,
                forall|i: int|
                    0 <= i < id ==> (#[trigger] workflows@[i])@ == self@.info(i as WorkflowId),
            decreases self.next_workflow_id - id,
        {
            assert(self@.workflows.contains_key(id));
            if let Some(workflow) = self.workflows.get(&id) {
                workflows.push(
                    WorkflowInfo {
                        id: workflow.id,
                        name: workflow.name.clone(),
                        enabled: workflow.enabled,
                        commandline: workflow.commandline.clone(),
                        authorized_account: self.get_authorized_account(id),
                    },
                );
            }
            id = id + 1;
        }
        proof {
            assert(workflows@.map_values(|item: WorkflowInfo| item@) =~= Seq::new(
                self@.next_workflow_id as nat,
                |i: int| self@.info(i as WorkflowId),
            ));
        }
        Ok(workflows)
    }

    /// Enables a workflow (only owner).
    pub fn enable_workflow(&mut self, caller: AccountId, id: WorkflowId) -> (r: Result<(), Error>)
        requires
            old(self)@.wf(),
        ensures
            (r, final(self)@) == old(self)@.switch_workflow(caller, id, true),
            final(self)@.wf(),
    {
        self.ensure_owner(caller)?;
        let mut workflow: Workflow = self.ensure_workflow(id)?;
        if !workflow.enabled {
            workflow.enabled = true;
            self.workflows.insert(id, workflow);
        }
        assert(self@ =~= old(self)@.switch_workflow(caller, id, true).1);
        Ok(())
    }

    /// Disables a workflow (only owner).
    pub fn disable_workflow(&mut self, caller: AccountId, id: WorkflowId) -> (r: Result<(), Error>)
        requires
            old(self)@.wf(),
        ensures
            (r, final(self)@) == old(self)@.switch_workflow(caller, id, false),
            final(self)@.wf(),
    {
        self.ensure_owner(caller)?;
        let mut workflow: Workflow = self.ensure_workflow(id)?;
        if workflow.enabled {
            workflow.enabled = false;
            self.workflows.insert(id, workflow);
        }
        assert(self@ =~= old(self)@.switch_workflow(caller, id, false).1);
        Ok(())
    }

    /// Gets the number of enabled workflows.
    pub fn enabled_workflow_count(&self) -> (r: u64)
        requires
            self@.wf(),
        ensures
            self@.enabled_workflows().finite(),
            r == self@.enabled_workflows().len(),
    {
        let mut counts: u64 = 0;
        let mut id: WorkflowId = 0;
        let ghost mut seen: Set<WorkflowId> = Set::empty();
        while id < self.next_workflow_id
            invariant
                self@.wf(),
                id <= self.next_workflow_id,
                counts <= id,
                seen.finite(),
                seen.len() == counts,
                forall|i: WorkflowId| #[trigger]
                    seen.contains(i) <==> i < id && self@.enabled_workflows().contains(i),
            decreases self.next_workflow_id - id,
        {
            assert(self@.workflows.contains_key(id));
            if let Some(workflow) = self.workflows.get(&id) {
                if workflow.enabled {
                    counts = counts + 1;
                    proof {
                        seen = seen.insert(id);
                    }
                }
            }
            id = id + 1;
        }
        assert(seen =~= self@.enabled_workflows());
        counts
    }
}

// External accounts.
impl BrickProfile {
    /// Tests whether the key of account `id` is a secret key, unless the account is out of use.
    pub fn is_addressable(&self, id: ExternalAccountId) -> (r: bool)
        ensures
            r == self@.addressable(id),
    {
        match self.external_accounts.get(&id) {
            Some(account) => !account.enabled || check_secret_key(&account.sk),
            None => true,
        }
    }

    /// Tests whether the key of every account in use is a secret key.
    pub fn is_all_addressable(&self) -> (r: bool)
        requires
            self@.wf(),
        ensures
            r == self@.all_addressable(),
    {
        let mut id: ExternalAccountId = 0;
        while id < self.next_external_account_id
            invariant
                self@.wf(),
                id <= self.next_external_account_id,
                forall|i: ExternalAccountId| i < id ==> #[trigger] self@.addressable(i),
            decreases self.next_external_account_id - id,
        {
            if !self.is_addressable(id) {
                return false;
            }
            id = id + 1;
        }
        assert forall|i: ExternalAccountId| #[trigger] self@.addressable(i) by {
            if i >= id {
                assert(!self@.external_accounts.contains_key(i));
            }
        }
        true
    }

    /// Tests whether the key of the account of the session, where there is one, is a secret key.
    pub fn is_current_addressable(&self) -> (r: bool)
        ensures
            r == self@.current_addressable(),
    {
        match self.ensure_current_account() {
            Ok(account) => check_secret_key(&account.sk),
            Err(_) => true,
        }
    }

    /// Gets the EVM address of the given account (only owner).
    pub fn get_evm_account_address(&self, caller: AccountId, id: ExternalAccountId) -> (r: Result<
        H160,
        Error,
    >)
        requires
            caller == self@.owner ==> self@.addressable(id),
        ensures
            r == self@.get_evm_account_address(caller, id),
    {
        self.ensure_owner(caller)?;
        let account: ExternalAccount = self.ensure_enabled_external_account(id)?;
        Ok(address_of_key(&account.sk))
    }

    /// Gets the number, the EVM address and the endpoint of every account in use (only owner).
    pub fn get_all_evm_accounts(&self, caller: AccountId) -> (r: Result<
        Vec<ExternalAccountInfo>,
        Error,
    >)
        requires
            self@.wf(),
            caller == self@.owner ==> self@.all_addressable(),
        ensures
            view_list(r) == self@.get_all_evm_accounts(caller),
    {
        self.ensure_owner(caller)?;
        let mut accounts: Vec<ExternalAccountInfo> = Vec::new();
        let ghost view = |item: ExternalAccountInfo| item@;
        let ghost info = |id: ExternalAccountId| self@.account_info(id);
        let mut id: ExternalAccountId = 0;
        assert(accounts@.map_values(view) =~= self@.enabled_accounts_below(0).map_values(info));
        while id < self.next_external_account_id
            invariant
                self@.wf(),
                self@.all_addressable(),
                id <= self.next_external_account_id,
                view == (|item: ExternalAccountInfo| item@),
                info == (|id: ExternalAccountId| self@.account_info(id)),
                accounts@.map_values(view) == self@.enabled_accounts_below(id as nat).map_values(
                    info,
                ),
            decreases self.next_external_account_id - id,
        {
            let ghost before = accounts@;
            assert(self@.external_accounts.contains_key(id));
            assert(self@.addressable(id));
            if let Some(account) = self.external_accounts.get(&id) {
                if account.enabled {
                    let item = ExternalAccountInfo {
                        id: account.id,
                        address: address_of_key(&account.sk),
                        rpc: account.rpc.clone(),
                    };
                    assert(item@ == self@.account_info(id));
                    accounts.push(item);
                    assert(accounts@.map_values(view) =~= before.map_values(view).push(item@));
                    assert(self@.enabled_accounts_below((id + 1) as nat).map_values(info)
                        =~= self@.enabled_accounts_below(id as nat).map_values(info).push(
                        self@.account_info(id),
                    ));
                }
            }
            id = id + 1;
        }
        Ok(accounts)
    }

    /// Gets the endpoint of the given account (only owner).
    pub fn get_rpc_endpoint(&self, caller: AccountId, id: ExternalAccountId) -> (r: Result<
        String,
        Error,
    >)
        ensures
            view_result(r) == self@.get_rpc_endpoint(caller, id),
    {
        self.ensure_owner(caller)?;
        let account: ExternalAccount = self.ensure_enabled_external_account(id)?;
        Ok(account.rpc)
    }

    /// Sets the endpoint of the given account (only owner).
    pub fn set_rpc_endpoint(
        &mut self,
        caller: AccountId,
        id: ExternalAccountId,
        rpc: String,
    ) -> (r: Result<(), Error>)
        requires
            old(self)@.wf(),
        ensures
            (r, final(self)@) == old(self)@.set_rpc_endpoint(caller, id, rpc@),
            final(self)@.wf(),
    {
        self.ensure_owner(caller)?;
        let mut account: ExternalAccount = self.ensure_enabled_external_account(id)?;
        account.rpc = rpc;
        self.external_accounts.insert(id, account);
        assert(self@ =~= old(self)@.set_rpc_endpoint(caller, id, rpc@).1);
        Ok(())
    }

    /// Generates a new EVM account (only owner). The host derives its secret key from the number
    /// of the account.
    pub fn generate_evm_account(&mut self, caller: AccountId, rpc: String) -> (r: Result<
        ExternalAccountId,
        Error,
    >)
        requires
            old(self)@.wf(),
            caller == old(self)@.owner ==> old(self)@.next_external_account_id < u64::MAX,
        ensures
            exists|key: Seq<u8>|
                {
                    &&& caller == old(self)@.owner ==> is_derived_key(
                        salt_of(old(self)@.next_external_account_id),
                        key,
                    )
                    &&& (r, final(self)@) == #[trigger] old(self)@.add_generated_account(
                        caller,
                        rpc@,
                        key,
                    )
                },
            final(self)@.wf(),
    {
        match self.ensure_owner(caller) {
            Ok(_) => {},
            Err(e) => {
                assert((Err::<ExternalAccountId, Error>(e), self@)
                    == self@.add_generated_account(caller, rpc@, Seq::empty()));
                return Err(e);
            },
        }
        let salt: [u8; 8] = account_salt(self.next_external_account_id);
        let key: Vec<u8> = derive_sr25519_key(&salt);
        self.add_generated_account(caller, rpc, &key)
    }

    /// Adds an account with the key that the host derived for it (only owner). The first 32 bytes
    /// of it are the secret key of the account; a shorter one is refused.
    pub fn add_generated_account(
        &mut self,
        caller: AccountId,
        rpc: String,
        key: &Vec<u8>,
    ) -> (r: Result<ExternalAccountId, Error>)
        requires
            old(self)@.wf(),
            caller == old(self)@.owner && key@.len() >= 32 ==> old(self)@.next_external_account_id
                < u64::MAX,
        ensures
            (r, final(self)@) == old(self)@.add_generated_account(caller, rpc@, key@),
            final(self)@.wf(),
    {
        self.ensure_owner(caller)?;
        let id: ExternalAccountId = self.next_external_account_id;
        let sk: [u8; 32] = match leading_key(key) {
            Some(sk) => sk,
            None => {
                return Err(Error::BadEvmSecretKey);
            },
        };
        let evm_account = ExternalAccount {
            id,
            enabled: true,
            account_type: ExternalAccountType::Generated,
            rpc,
            sk,
        };
        self.external_accounts.insert(id, evm_account);
        self.next_external_account_id = self.next_external_account_id + 1;
        assert(self@ =~= old(self)@.add_generated_account(caller, rpc@, key@).1);
        Ok(id)
    }

    /// Adds an existing EVM account. Deprecated: refused to everyone.
    pub fn import_evm_account(&mut self, rpc: String, sk: Vec<u8>) -> (r: Result<
        ExternalAccountId,
        Error,
    >)
        ensures
            r == Err::<ExternalAccountId, Error>(Error::Deprecated),
            *final(self) == *old(self),
    {
        Err(Error::Deprecated)
    }

    /// Dumps an EVM account, which disables it (only owner).
    pub fn dump_evm_account(&mut self, caller: AccountId, id: ExternalAccountId) -> (r: Result<
        (),
        Error,
    >)
        requires
            old(self)@.wf(),
        ensures
            (r, final(self)@) == old(self)@.dump_evm_account(caller, id),
            final(self)@.wf(),
    {
        self.ensure_owner(caller)?;
        let mut account: ExternalAccount = self.ensure_enabled_external_account(id)?;
        account.enabled = false;
        account.account_type = ExternalAccountType::Dumped;
        self.external_accounts.insert(id, account);
        assert(self@ =~= old(self)@.dump_evm_account(caller, id).1);
        Ok(())
    }

    /// Gets the secret key of a dumped EVM account (only owner).
    pub fn get_dumped_key(&self, caller: AccountId, id: ExternalAccountId) -> (r: Result<
        [u8; 32],
        Error,
    >)
        ensures
            view_result(r) == self@.get_dumped_key(caller, id),
    {
        self.ensure_owner(caller)?;
        let account: ExternalAccount = self.ensure_dumped_external_account(id)?;
        Ok(account.sk)
    }
}

// Polling, and what a workflow that is being polled may ask for.
impl BrickProfile {
    /// Opens a session of the given workflow.
    pub fn set_workflow_session(&mut self, workflow: WorkflowId) -> (r: Result<(), Error>)
        requires
            old(self)@.wf(),
        ensures
            (r, final(self)@) == old(self)@.set_workflow_session(workflow),
            final(self)@.wf(),
    {
        let now_workflow: Workflow = self.ensure_workflow(workflow)?;
        self.workflow_session = Some(now_workflow.id);
        Ok(())
    }

    /// Polls a workflow, whether or not it is enabled: opens its session, and answers with the
    /// call that runs it.
    ///
    /// Only queries may poll: what a query changes lives in that query alone, so the session is
    /// never written back to the chain.
    pub fn force_poll(
        &mut self,
        in_transaction: bool,
        workflow_id: WorkflowId,
        poll_id: String,
    ) -> (r: Result<RunCall, Error>)
        requires
            old(self)@.wf(),
        ensures
            (view_result(r), final(self)@) == old(self)@.force_poll(
                in_transaction,
                workflow_id,
                poll_id@,
            ),
            final(self)@.wf(),
    {
        if in_transaction {
            return Err(Error::NoPollForTransaction);
        }
        if !check_poll_id(poll_id.as_str()) {
            return Err(Error::InvalidPollId);
        }
        let now_workflow: Workflow = self.ensure_workflow(workflow_id)?;
        self.set_workflow_session(workflow_id)?;
        let js_runner: AccountId = self.get_js_runner()?;
        Ok(RunCall { js_runner, commandline: now_workflow.commandline })
    }

    /// Polls a workflow that is enabled. A scheduler calls this periodically, with a query.
    pub fn poll(&mut self, in_transaction: bool, workflow_id: WorkflowId, poll_id: String) -> (r:
        Result<RunCall, Error>)
        requires
            old(self)@.wf(),
        ensures
            (view_result(r), final(self)@) == old(self)@.poll(
                in_transaction,
                workflow_id,
                poll_id@,
            ),
            final(self)@.wf(),
    {
        self.ensure_enabled_workflow(workflow_id)?;
        self.force_poll(in_transaction, workflow_id, poll_id)
    }

    /// Gets the EVM address of the account that the workflow of the session may use. Only a call
    /// that the profile itself has set off finds a session.
    pub fn get_current_evm_account_address(&self) -> (r: Result<H160, Error>)
        requires
            self@.current_addressable(),
        ensures
            r == self@.get_current_evm_account_address(),
    {
        let account: ExternalAccount = self.ensure_current_account()?;
        Ok(address_of_key(&account.sk))
    }

    /// Reads an unsigned transaction, and says how it is to be signed for the workflow of the
    /// session. Only a call that the profile itself has set off finds a session.
    ///
    /// A text that holds no request is refused, whatever it is: the reader is handed it in a form on
    /// which it does not panic.
    pub fn sign_evm_transaction(&self, tx: Vec<u8>) -> (r: Result<SigningJob, Error>)
        ensures
            view_result(r) == self@.sign_evm_transaction(tx@),
    {
        self.ensure_current_account()?;
        let text: Vec<u8> = mark(&tx);
        let request: Option<TransactionRequest> = parse_request(text.as_slice());
        self.prepare_signing(request)
    }

    /// Says how the transaction that was asked for is to be signed for the workflow of the
    /// session; `None` stands for a request that could not be read.
    pub fn prepare_signing(&self, request: Option<TransactionRequest>) -> (r: Result<
        SigningJob,
        Error,
    >)
        ensures
            view_result(r) == self@.prepare_signing(view_option(request)),
    {
        let account: ExternalAccount = self.ensure_current_account()?;
        match request {
            Some(request) => Ok(
                SigningJob {
                    rpc: account.rpc,
                    sk: account.sk,
                    parameters: request.into_parameters(),
                },
            ),
            None => Err(Error::BadUnsignedTransaction),
        }
    }
}

/// Major number of the library's version.
pub const VERSION_MAJOR: u16 = 1;

/// Minor number of the library's version.
pub const VERSION_MINOR: u16 = 0;

/// Patch number of the library's version.
pub const VERSION_PATCH: u16 = 0;

// Records.
impl BrickProfile {
    /// The profile that the record describes, or `None` where it describes none.
    pub fn restore(record: ProfileRecord) -> (r: Option<BrickProfile>)
        ensures
            r is Some <==> record@.valid(),
            r matches Some(profile) ==> profile@ == record@.profile(),
    {
        let ghost told = record@.profile();
        let n: usize = record.workflows.len();
        let m: usize = record.external_accounts.len();
        if record.authorized_accounts.len() != n {
            return None;
        }
        let mut workflows: BTreeMap<WorkflowId, Workflow> = BTreeMap::new();
        let mut authorized_account: BTreeMap<WorkflowId, ExternalAccountId> = BTreeMap::new();
        let mut i: usize = 0;
        while i < n
            invariant
                i <= n,
                n == record.workflows@.len(),
                n == record.authorized_accounts@.len(),
                m == record.external_accounts@.len(),
                told == record@.profile(),
                forall|id: WorkflowId| #[trigger] workflows@.contains_key(id) <==> id < i,
                forall|id: WorkflowId|
                    id < i ==> (#[trigger] workflows@[id])@ == record.workflows@[id as int]@
                        && workflows@[id].id == id,
                forall|id: WorkflowId| #[trigger]
                    authorized_account@.contains_key(id) <==> id < i
                        && record.authorized_accounts@[id as int] is Some,
                forall|id: WorkflowId| #[trigger]
                    authorized_account@.contains_key(id) ==> record.authorized_accounts@[id as int]
                        == Some(authorized_account@[id]) && authorized_account@[id] < m,
            decreases n - i,
        {
            let id: WorkflowId = i as u64;
            assert(told.workflows.contains_key(id));
            if record.workflows[i].id != id {
                return None;
            }
            workflows.insert(id, record.workflows[i].duplicate());
            if let Some(account) = record.authorized_accounts[i] {
                assert(told.authorized_account.contains_key(id));
                if account >= m as u64 {
                    return None;
                }
                authorized_account.insert(id, account);
            }
            i = i + 1;
        }
        let mut external_accounts: BTreeMap<ExternalAccountId, ExternalAccount> = BTreeMap::new();
        let mut k: usize = 0;
        while k < m
            invariant
                k <= m,
                m == record.external_accounts@.len(),
                told == record@.profile(),
                forall|id: ExternalAccountId| #[trigger] external_accounts@.contains_key(id) <==> id < k,
                forall|id: ExternalAccountId|
                    id < k ==> (#[trigger] external_accounts@[id])@
                        == record.external_accounts@[id as int]@ && external_accounts@[id]@.wf(id),
            decreases m - k,
        {
            let id: ExternalAccountId = k as u64;
            assert(told.external_accounts.contains_key(id));
            assert(told.external_accounts[id] == record.external_accounts@[k as int]@);
            let account: ExternalAccount = record.external_accounts[k].duplicate();
            if account.id != id {
                return None;
            }
            if account.enabled != (account.account_type != ExternalAccountType::Dumped) {
                return None;
            }
            external_accounts.insert(id, account);
            k = k + 1;
        }
        if let Some(id) = record.workflow_session {
            if id >= n as u64 {
                return None;
            }
        }
        let config: Option<Config> = match record.js_runner {
            Some(js_runner) => Some(Config { js_runner }),
            None => None,
        };
        let r = BrickProfile {
            owner: record.owner,
            config,
            next_workflow_id: n as u64,
            workflows,
            next_external_account_id: m as u64,
            external_accounts,
            authorized_account,
            workflow_session: record.workflow_session,
        };
        assert(r@.workflows =~= told.workflows);
        assert(r@.external_accounts =~= told.external_accounts);
        assert(r@.authorized_account =~= told.authorized_account);
        assert(r@ =~= told);
        assert(told.wf());
        Some(r)
    }

    /// The record of the profile.
    pub fn to_record(&self) -> (r: ProfileRecord)
        requires
            self@.wf(),
        ensures
            r@ == self@.record(),
    {
        let mut workflows: Vec<Workflow> = Vec::new();
        let mut authorized_accounts: Vec<Option<ExternalAccountId>> = Vec::new();
        let mut i: WorkflowId = 0;
        while i < self.next_workflow_id
            invariant
                self@.wf(),
                i <= self.next_workflow_id,
                workflows@.len() == i,
                authorized_accounts@.len() == i,
                forall|j: int|
                    0 <= j < i ==> (#[trigger] workflows@[j])@ == self@.workflows[j as WorkflowId],
                forall|j: int|
                    0 <= j < i ==> #[trigger] authorized_accounts@[j] == self@.authorized(
                        j as WorkflowId,
                    ),
            decreases self.next_workflow_id - i,
        {
            assert(self@.workflows.contains_key(i));
            if let Some(workflow) = self.workflows.get(&i) {
                workflows.push(workflow.duplicate());
            }
            authorized_accounts.push(self.get_authorized_account(i));
            i = i + 1;
        }
        let mut external_accounts: Vec<ExternalAccount> = Vec::new();
        let mut k: ExternalAccountId = 0;
        while k < self.next_external_account_id
            invariant
                self@.wf(),
                k <= self.next_external_account_id,
                external_accounts@.len() == k,
                forall|j: int|
                    0 <= j < k ==> (#[trigger] external_accounts@[j])@
                        == self@.external_accounts[j as ExternalAccountId],
            decreases self.next_external_account_id - k,
        {
            assert(self@.external_accounts.contains_key(k));
            if let Some(account) = self.external_accounts.get(&k) {
                external_accounts.push(account.duplicate());
            }
            k = k + 1;
        }
        let js_runner: Option<AccountId> = match &self.config {
            Some(config) => Some(config.js_runner),
            None => None,
        };
        let r = ProfileRecord {
            owner: self.owner,
            js_runner,
            workflows,
            external_accounts,
            authorized_accounts,
            workflow_session: self.workflow_session,
        };
        assert(r@.workflows =~= self@.record().workflows);
        assert(r@.external_accounts =~= self@.record().external_accounts);
        assert(r@.authorized_accounts =~= self@.record().authorized_accounts);
        r
    }
}

// What anyone may ask for.
impl BrickProfile {
    /// Gets the version of the library.
    pub fn version(&self) -> (r: VersionTuple)
        ensures
            r == (VERSION_MAJOR, VERSION_MINOR, VERSION_PATCH),
            r == (1u16, 0u16, 0u16),
    {
        (VERSION_MAJOR, VERSION_MINOR, VERSION_PATCH)
    }

    /// Gets the owner of the profile.
    pub fn owner(&self) -> (r: AccountId)
        ensures
            r == self@.owner,
    {
        self.owner
    }

    /// Gets the contract address of the JavaScript runner.
    pub fn get_js_runner(&self) -> (r: Result<AccountId, Error>)
        ensures
            r == self@.runner(),
    {
        match &self.config {
            Some(config) => Ok(config.js_runner),
            None => Err(Error::NotConfigured),
        }
    }

    /// Gets the number of workflows.
    pub fn workflow_count(&self) -> (r: u64)
        ensures
            r == self@.next_workflow_id,
    {
        self.next_workflow_id
    }

    /// Gets the number of external accounts. Their numbers run from zero up to this one.
    pub fn external_account_count(&self) -> (r: u64)
        ensures
            r == self@.next_external_account_id,
    {
        self.next_external_account_id
    }
}

} // verus!
