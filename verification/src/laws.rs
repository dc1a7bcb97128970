//! Laws: what holds of a profile across requests.
use vstd::prelude::*;

use crate::host::parsed_request;
use crate::poll::RunCallView;
use crate::signing::SigningJobView;
use crate::state::ProfileView;
use crate::transaction::RequestView;
use crate::types::{
    AccountId, AccountView, Error, ExternalAccountId, ExternalAccountType, WorkflowId,
    WorkflowInfoView, H160,
};

verus! {

/// A request that may change a profile.
pub enum Message {
    Config { caller: AccountId, js_runner: AccountId },
    AddWorkflow { caller: AccountId, name: Seq<char>, commandline: Seq<char> },
    AddWorkflowAndAuthorize {
        caller: AccountId,
        name: Seq<char>,
        commandline: Seq<char>,
        account: ExternalAccountId,
    },
    AuthorizeWorkflow { caller: AccountId, workflow: WorkflowId, account: ExternalAccountId },
    EnableWorkflow { caller: AccountId, workflow: WorkflowId },
    DisableWorkflow { caller: AccountId, workflow: WorkflowId },
    SetRpcEndpoint { caller: AccountId, id: ExternalAccountId, rpc: Seq<char> },
    /// `key` is what the host derived.
    GenerateEvmAccount { caller: AccountId, rpc: Seq<char>, key: Seq<u8> },
    DumpEvmAccount { caller: AccountId, id: ExternalAccountId },
    ForcePoll { in_transaction: bool, workflow_id: WorkflowId, poll_id: Seq<char> },
    Poll { in_transaction: bool, workflow_id: WorkflowId, poll_id: Seq<char> },
}

impl Message {
    /// Who sends the message, where that matters.
    pub open spec fn caller(self) -> Option<AccountId> {
        match self {
            Message::Config { caller, .. } => Some(caller),
            Message::AddWorkflow { caller, .. } => Some(caller),
            Message::AddWorkflowAndAuthorize { caller, .. } => Some(caller),
            Message::AuthorizeWorkflow { caller, .. } => Some(caller),
            Message::EnableWorkflow { caller, .. } => Some(caller),
            Message::DisableWorkflow { caller, .. } => Some(caller),
            Message::SetRpcEndpoint { caller, .. } => Some(caller),
            Message::GenerateEvmAccount { caller, .. } => Some(caller),
            Message::DumpEvmAccount { caller, .. } => Some(caller),
            Message::ForcePoll { .. } => None,
            Message::Poll { .. } => None,
        }
    }

    /// Whether the message may be sent in a transaction: whether it is not a poll in a query.
    pub open spec fn transactional(self) -> bool {
        match self {
            Message::ForcePoll { in_transaction, .. } => in_transaction,
            Message::Poll { in_transaction, .. } => in_transaction,
            _ => true,
        }
    }
}

/// The answer without its value: `None` for a request that was granted, else the reason.
pub open spec fn refusal<T>(r: Result<T, Error>) -> Option<Error> {
    match r {
        Ok(_) => None,
        Err(e) => Some(e),
    }
}

impl ProfileView {
    /// Why a message is refused, if it is, and the profile that it leaves behind.
    pub open spec fn step(self, m: Message) -> (Option<Error>, ProfileView) {
        match m {
            Message::Config { caller, js_runner } => {
                let s = self.config(caller, js_runner);
                (refusal(s.0), s.1)
            },
            Message::AddWorkflow { caller, name, commandline } => {
                let s = self.add_workflow(caller, name, commandline);
                (refusal(s.0), s.1)
            },
            Message::AddWorkflowAndAuthorize { caller, name, commandline, account } => {
                let s = self.add_workflow_and_authorize(caller, name, commandline, account);
                (refusal(s.0), s.1)
            },
            Message::AuthorizeWorkflow { caller, workflow, account } => {
                let s = self.authorize_workflow(caller, workflow, account);
                (refusal(s.0), s.1)
            },
            Message::EnableWorkflow { caller, workflow } => {
                let s = self.switch_workflow(caller, workflow, true);
                (refusal(s.0), s.1)
            },
            Message::DisableWorkflow { caller, workflow } => {
                let s = self.switch_workflow(caller, workflow, false);
                (refusal(s.0), s.1)
            },
            Message::SetRpcEndpoint { caller, id, rpc } => {
                let s = self.set_rpc_endpoint(caller, id, rpc);
                (refusal(s.0), s.1)
            },
            Message::GenerateEvmAccount { caller, rpc, key } => {
                let s = self.add_generated_account(caller, rpc, key);
                (refusal(s.0), s.1)
            },
            Message::DumpEvmAccount { caller, id } => {
                let s = self.dump_evm_account(caller, id);
                (refusal(s.0), s.1)
            },
            Message::ForcePoll { in_transaction, workflow_id, poll_id } => {
                let s = self.force_poll(in_transaction, workflow_id, poll_id);
                (refusal(s.0), s.1)
            },
            Message::Poll { in_transaction, workflow_id, poll_id } => {
                let s = self.poll(in_transaction, workflow_id, poll_id);
                (refusal(s.0), s.1)
            },
        }
    }

    /// The profile after a number of messages.
    pub open spec fn run(self, messages: Seq<Message>) -> ProfileView
        decreases messages.len(),
    {
        if messages.len() == 0 {
            self
        } else {
            self.run(messages.drop_last()).step(messages.last()).1
        }
    }

    /// Whether a number for another workflow is left.
    pub open spec fn has_workflow_id(self) -> bool {
        self.next_workflow_id < u64::MAX
    }

    /// Whether a number for another account is left.
    pub open spec fn has_account_id(self) -> bool {
        self.next_external_account_id < u64::MAX
    }

    /// Whether a number is left for what the message adds, if it adds anything.
    pub open spec fn admits(self, m: Message) -> bool {
        match m {
            Message::AddWorkflow { caller, .. } => caller == self.owner ==> self.has_workflow_id(),
            Message::AddWorkflowAndAuthorize { caller, .. } => caller == self.owner
                ==> self.has_workflow_id(),
            Message::GenerateEvmAccount { caller, key, .. } => caller == self.owner && key.len()
                >= 32 ==> self.has_account_id(),
            _ => true,
        }
    }

    /// Whether numbers are left for all that the messages add, one after the other.
    pub open spec fn admits_all(self, messages: Seq<Message>) -> bool
        decreases messages.len(),
    {
        messages.len() == 0 || {
            &&& self.admits_all(messages.drop_last())
            &&& self.run(messages.drop_last()).admits(messages.last())
        }
    }

    /// What no message takes back: `later` has the same owner, the same workflows under the same
    /// names and with the same command lines, the same accounts with the same keys, and possibly
    /// more of both; an account that is dumped stays dumped; an authorization is never withdrawn,
    /// at most replaced.
    pub open spec fn grows_to(self, later: ProfileView) -> bool {
        &&& later.owner == self.owner
        &&& self.js_runner is Some ==> later.js_runner is Some
        &&& self.next_workflow_id <= later.next_workflow_id
        &&& self.next_external_account_id <= later.next_external_account_id
        &&& forall|id: WorkflowId| #[trigger]
            self.workflows.contains_key(id) ==> {
                &&& later.workflows.contains_key(id)
                &&& later.workflows[id].name == self.workflows[id].name
                &&& later.workflows[id].commandline == self.workflows[id].commandline
            }
        &&& forall|id: ExternalAccountId| #[trigger]
            self.external_accounts.contains_key(id) ==> {
                &&& later.external_accounts.contains_key(id)
                &&& later.external_accounts[id].sk == self.external_accounts[id].sk
                &&& !self.external_accounts[id].enabled ==> later.external_accounts[id]
                    == self.external_accounts[id]
            }
        &&& forall|id: WorkflowId| #[trigger]
            self.authorized_account.contains_key(id) ==> later.authorized_account.contains_key(id)
    }
}

/// What a message may make of a profile: a well-formed one, with nothing taken back and at most one
/// more workflow and one more account.
pub open spec fn kept(profile: ProfileView, after: ProfileView) -> bool {
    &&& after.wf()
    &&& profile.grows_to(after)
    &&& after.next_workflow_id <= profile.next_workflow_id + 1
    &&& after.next_external_account_id <= profile.next_external_account_id + 1
}

proof fn lemma_added_workflow_keeps(
    profile: ProfileView,
    caller: AccountId,
    name: Seq<char>,
    commandline: Seq<char>,
)
    requires
        profile.wf(),
        caller == profile.owner ==> profile.has_workflow_id(),
    ensures
        kept(profile, profile.add_workflow(caller, name, commandline).1),
{
}

proof fn lemma_switched_workflow_keeps(
    profile: ProfileView,
    caller: AccountId,
    id: WorkflowId,
    enabled: bool,
)
    requires
        profile.wf(),
    ensures
        kept(profile, profile.switch_workflow(caller, id, enabled).1),
{
}

proof fn lemma_authorization_keeps(
    profile: ProfileView,
    caller: AccountId,
    workflow: WorkflowId,
    account: ExternalAccountId,
)
    requires
        profile.wf(),
    ensures
        kept(profile, profile.authorize_workflow(caller, workflow, account).1),
{
}

proof fn lemma_add_and_authorize_keeps(
    profile: ProfileView,
    caller: AccountId,
    name: Seq<char>,
    commandline: Seq<char>,
    account: ExternalAccountId,
)
    requires
        profile.wf(),
        caller == profile.owner ==> profile.has_workflow_id(),
    ensures
        kept(profile, profile.add_workflow_and_authorize(caller, name, commandline, account).1),
{
    lemma_added_workflow_keeps(profile, caller, name, commandline);
    let added = profile.add_workflow(caller, name, commandline).1;
    lemma_authorization_keeps(added, caller, profile.next_workflow_id, account);
}

proof fn lemma_generated_account_keeps(
    profile: ProfileView,
    caller: AccountId,
    rpc: Seq<char>,
    key: Seq<u8>,
)
    requires
        profile.wf(),
        caller == profile.owner && key.len() >= 32 ==> profile.has_account_id(),
    ensures
        kept(profile, profile.add_generated_account(caller, rpc, key).1),
{
}

proof fn lemma_account_requests_keep(
    profile: ProfileView,
    caller: AccountId,
    rpc: Seq<char>,
    id: ExternalAccountId,
)
    requires
        profile.wf(),
    ensures
        kept(profile, profile.set_rpc_endpoint(caller, id, rpc).1),
        kept(profile, profile.dump_evm_account(caller, id).1),
{
}

proof fn lemma_other_requests_keep(
    profile: ProfileView,
    caller: AccountId,
    js_runner: AccountId,
    in_transaction: bool,
    workflow_id: WorkflowId,
    poll_id: Seq<char>,
)
    requires
        profile.wf(),
    ensures
        kept(profile, profile.config(caller, js_runner).1),
        kept(profile, profile.force_poll(in_transaction, workflow_id, poll_id).1),
        kept(profile, profile.poll(in_transaction, workflow_id, poll_id).1),
{
}

/// Every message leaves a well-formed profile behind, takes nothing back, and adds at most one
/// workflow and one account.
pub proof fn law_messages_keep_profiles(profile: ProfileView, m: Message)
    requires
        profile.wf(),
        profile.admits(m),
    ensures
        kept(profile, profile.step(m).1),
{
    match m {
        Message::Config { caller, js_runner } => {
            lemma_other_requests_keep(profile, caller, js_runner, true, 0, Seq::empty());
        },
        Message::AddWorkflow { caller, name, commandline } => {
            lemma_added_workflow_keeps(profile, caller, name, commandline);
        },
        Message::AddWorkflowAndAuthorize { caller, name, commandline, account } => {
            lemma_add_and_authorize_keeps(profile, caller, name, commandline, account);
        },
        Message::AuthorizeWorkflow { caller, workflow, account } => {
            lemma_authorization_keeps(profile, caller, workflow, account);
        },
        Message::EnableWorkflow { caller, workflow } => {
            lemma_switched_workflow_keeps(profile, caller, workflow, true);
        },
        Message::DisableWorkflow { caller, workflow } => {
            lemma_switched_workflow_keeps(profile, caller, workflow, false);
        },
        Message::SetRpcEndpoint { caller, id, rpc } => {
            lemma_account_requests_keep(profile, caller, rpc, id);
        },
        Message::GenerateEvmAccount { caller, rpc, key } => {
            lemma_generated_account_keeps(profile, caller, rpc, key);
        },
        Message::DumpEvmAccount { caller, id } => {
            lemma_account_requests_keep(profile, caller, Seq::empty(), id);
        },
        Message::ForcePoll { in_transaction, workflow_id, poll_id } => {
            let owner = profile.owner;
            lemma_other_requests_keep(profile, owner, owner, in_transaction, workflow_id, poll_id);
        },
        Message::Poll { in_transaction, workflow_id, poll_id } => {
            let owner = profile.owner;
            lemma_other_requests_keep(profile, owner, owner, in_transaction, workflow_id, poll_id);
        },
    }
}

/// Any number of messages leave a well-formed profile behind, and take nothing back.
pub proof fn law_runs_keep_profiles(profile: ProfileView, messages: Seq<Message>)
    requires
        profile.wf(),
        profile.admits_all(messages),
    ensures
        profile.run(messages).wf(),
        profile.grows_to(profile.run(messages)),
        profile.run(messages).next_workflow_id <= profile.next_workflow_id + messages.len(),
        profile.run(messages).next_external_account_id <= profile.next_external_account_id
            + messages.len(),
    decreases messages.len(),
{
    if messages.len() > 0 {
        law_runs_keep_profiles(profile, messages.drop_last());
        law_messages_keep_profiles(profile.run(messages.drop_last()), messages.last());
    }
}

/// Once an account is dumped, no messages bring it back into use or change it, and its secret key
/// stays available to the owner.
pub proof fn law_dumped_accounts_stay_dumped(
    profile: ProfileView,
    messages: Seq<Message>,
    id: ExternalAccountId,
)
    requires
        profile.wf(),
        profile.admits_all(messages),
        profile.dumped_account(id) is Ok,
    ensures
        profile.run(messages).dumped_account(id) == profile.dumped_account(id),
        profile.run(messages).enabled_account(id) == Err::<AccountView, Error>(
            Error::ExternalAccountDisabled,
        ),
        profile.run(messages).get_dumped_key(profile.owner, id) == profile.get_dumped_key(
            profile.owner,
            id,
        ),
{
    law_runs_keep_profiles(profile, messages);
    assert(profile.external_accounts.contains_key(id));
}

/// Whoever is not the owner is refused whatever is for the owner alone, and changes nothing.
pub proof fn law_strangers_are_refused(profile: ProfileView, m: Message, stranger: AccountId)
    requires
        stranger != profile.owner,
    ensures
        m.caller() == Some(stranger) ==> profile.step(m) == (Some(Error::BadOrigin), profile),
        forall|id: WorkflowId|
            (#[trigger] profile.get_workflow(stranger, id)) == Err::<WorkflowInfoView, Error>(
                Error::BadOrigin,
            ),
        refusal(profile.get_all_workflows(stranger)) == Some(Error::BadOrigin),
        forall|id: ExternalAccountId|
            (#[trigger] profile.get_evm_account_address(stranger, id)) == Err::<H160, Error>(
                Error::BadOrigin,
            ),
        refusal(profile.get_all_evm_accounts(stranger)) == Some(Error::BadOrigin),
        forall|id: ExternalAccountId|
            (#[trigger] profile.get_rpc_endpoint(stranger, id)) == Err::<Seq<char>, Error>(
                Error::BadOrigin,
            ),
        forall|id: ExternalAccountId|
            (#[trigger] profile.get_dumped_key(stranger, id)) == Err::<Seq<u8>, Error>(
                Error::BadOrigin,
            ),
{
}

/// Whoever sends it, a message that is not from the owner changes at most the session.
pub proof fn law_only_the_owner_changes_more_than_the_session(profile: ProfileView, m: Message)
    requires
        m.caller() != Some(profile.owner),
    ensures
        profile.step(m).1 == (ProfileView {
            workflow_session: profile.step(m).1.workflow_session,
            ..profile
        }),
{
}

/// A message that is refused changes nothing, with two exceptions: the workflow stays that was to
/// be authorized for an account that does not exist, and so does the session of a workflow that
/// was polled when no runner was configured.
pub proof fn law_refused_messages_change_nothing(profile: ProfileView, m: Message)
    requires
        profile.step(m).0 is Some,
        m is AddWorkflowAndAuthorize ==> profile.step(m).0 != Some(Error::ExternalAccountNotFound),
        profile.step(m).0 != Some(Error::NotConfigured),
    ensures
        profile.step(m).1 == profile,
{
}

/// Transactions never open, change or close a session: what a poll in a query opened is gone with
/// the query.
pub proof fn law_transactions_leave_the_session(profile: ProfileView, messages: Seq<Message>)
    requires
        forall|i: int| 0 <= i < messages.len() ==> (#[trigger] messages[i]).transactional(),
    ensures
        profile.run(messages).workflow_session == profile.workflow_session,
    decreases messages.len(),
{
    if messages.len() > 0 {
        let before = messages.drop_last();
        assert forall|i: int| 0 <= i < before.len() implies (#[trigger] before[i]).transactional() by {
            assert(before[i] == messages[i]);
        }
        law_transactions_leave_the_session(profile, before);
        assert(messages.last().transactional());
    }
}

/// Without a session, nobody is told an address or has anything signed on behalf of a workflow.
pub proof fn law_no_session_no_account(profile: ProfileView, request: Option<RequestView>)
    requires
        profile.workflow_session is None,
    ensures
        profile.get_current_evm_account_address() == Err::<H160, Error>(Error::BadWorkflowSession),
        refusal(profile.prepare_signing(request)) == Some(Error::BadWorkflowSession),
{
}

/// A workflow that was added is found under the number that was given to it, with its name and
/// its command line, enabled and without an account; every other workflow is as it was.
pub proof fn law_added_workflow_is_found(
    profile: ProfileView,
    name: Seq<char>,
    commandline: Seq<char>,
    other: WorkflowId,
)
    requires
        profile.wf(),
        profile.has_workflow_id(),
    ensures
        ({
            let (answer, after) = profile.add_workflow(profile.owner, name, commandline);
            let id = profile.next_workflow_id;
            &&& answer == Ok::<WorkflowId, Error>(id)
            &&& profile.workflow(id) is Err
            &&& after.next_workflow_id == id + 1
            &&& after.get_workflow(profile.owner, id) == Ok::<WorkflowInfoView, Error>(
                WorkflowInfoView {
                    id,
                    name,
                    enabled: true,
                    commandline,
                    authorized_account: None,
                },
            )
            &&& other != id ==> after.get_workflow(profile.owner, other) == profile.get_workflow(
                profile.owner,
                other,
            )
        }),
{
    let id = profile.next_workflow_id;
    assert(!profile.workflows.contains_key(id));
    assert(!profile.authorized_account.contains_key(id));
}

/// A workflow that was enabled or disabled is found so, with all else about it unchanged; every
/// other workflow is as it was. Doing it twice is doing it once, and undoing it restores the
/// profile.
pub proof fn law_switched_workflow_is_found(
    profile: ProfileView,
    id: WorkflowId,
    enabled: bool,
    other: WorkflowId,
)
    requires
        profile.wf(),
        profile.workflow(id) is Ok,
    ensures
        ({
            let owner = profile.owner;
            let (answer, after) = profile.switch_workflow(owner, id, enabled);
            &&& answer == Ok::<(), Error>(())
            &&& after.get_workflow(owner, id) == Ok::<WorkflowInfoView, Error>(
                WorkflowInfoView { enabled, ..profile.info(id) },
            )
            &&& other != id ==> after.get_workflow(owner, other) == profile.get_workflow(
                owner,
                other,
            )
            &&& after.switch_workflow(owner, id, enabled).1 == after
            &&& after.switch_workflow(owner, id, profile.workflows[id].enabled).1 == profile
        }),
{
    let owner = profile.owner;
    let after = profile.switch_workflow(owner, id, enabled).1;
    assert(after.switch_workflow(owner, id, enabled).1.workflows =~= after.workflows);
    assert(after.switch_workflow(owner, id, profile.workflows[id].enabled).1.workflows
        =~= profile.workflows);
}

/// There are never more enabled workflows than workflows.
pub proof fn law_enabled_workflows_are_workflows(profile: ProfileView)
    requires
        profile.wf(),
    ensures
        profile.enabled_workflows().finite(),
        profile.enabled_workflows().len() <= profile.next_workflow_id,
{
    lemma_ids_below(profile.next_workflow_id);
    let all = ids_below(profile.next_workflow_id);
    assert(profile.enabled_workflows().subset_of(all)) by {
        assert forall|id: WorkflowId| #[trigger] profile.enabled_workflows().contains(id) implies all.contains(
            id,
        ) by {
            assert(profile.workflows.contains_key(id));
        }
    }
    vstd::set_lib::lemma_len_subset(profile.enabled_workflows(), all);
}

spec fn ids_below(n: u64) -> Set<u64> {
    Set::new(|id: u64| id < n)
}

proof fn lemma_ids_below(n: u64)
    ensures
        ids_below(n).finite(),
        ids_below(n).len() == n,
    decreases n,
{
    if n == 0 {
        assert(ids_below(n) =~= Set::empty());
    } else {
        let m = (n - 1) as u64;
        lemma_ids_below(m);
        assert(ids_below(n) =~= ids_below(m).insert(m));
    }
}

/// Adding a workflow makes one more enabled workflow; disabling one that is enabled makes one
/// less.
pub proof fn law_enabled_workflows_are_counted(
    profile: ProfileView,
    name: Seq<char>,
    commandline: Seq<char>,
    id: WorkflowId,
)
    requires
        profile.wf(),
    ensures
        profile.has_workflow_id() ==> profile.add_workflow(
            profile.owner,
            name,
            commandline,
        ).1.enabled_workflows().len() == profile.enabled_workflows().len() + 1,
        profile.enabled_workflow(id) is Ok ==> profile.switch_workflow(
            profile.owner,
            id,
            false,
        ).1.enabled_workflows().len() == profile.enabled_workflows().len() - 1,
{
    law_enabled_workflows_are_workflows(profile);
    if profile.has_workflow_id() {
        let added = profile.add_workflow(profile.owner, name, commandline).1;
        assert(!profile.workflows.contains_key(profile.next_workflow_id));
        assert(added.enabled_workflows() =~= profile.enabled_workflows().insert(
            profile.next_workflow_id,
        ));
    }
    if profile.enabled_workflow(id) is Ok {
        let after = profile.switch_workflow(profile.owner, id, false).1;
        assert(after.enabled_workflows() =~= profile.enabled_workflows().remove(id));
    }
}

/// An account that was generated is found under the number that was given to it, in use, with
/// its endpoint, and with the first 32 bytes of the derived key; every other account is as it was.
pub proof fn law_generated_account_is_found(
    profile: ProfileView,
    rpc: Seq<char>,
    key: Seq<u8>,
    other: ExternalAccountId,
)
    requires
        profile.wf(),
        profile.has_account_id(),
        key.len() >= 32,
    ensures
        ({
            let (answer, after) = profile.add_generated_account(profile.owner, rpc, key);
            let id = profile.next_external_account_id;
            &&& answer == Ok::<ExternalAccountId, Error>(id)
            &&& profile.account(id) is Err
            &&& after.next_external_account_id == id + 1
            &&& after.get_rpc_endpoint(profile.owner, id) == Ok::<Seq<char>, Error>(rpc)
            &&& after.enabled_account(id) matches Ok(account) && account.sk == key.take(32)
            &&& after.get_dumped_key(profile.owner, id) == Err::<Seq<u8>, Error>(
                Error::OnlyDumpedAccount,
            )
            &&& other != id ==> after.account(other) == profile.account(other)
        }),
{
    assert(!profile.external_accounts.contains_key(profile.next_external_account_id));
}

/// The endpoint that was set is the endpoint that is read; every other account is as it was, and
/// so is the key of this one.
pub proof fn law_endpoint_reads_as_written(
    profile: ProfileView,
    id: ExternalAccountId,
    rpc: Seq<char>,
    other: ExternalAccountId,
)
    requires
        profile.enabled_account(id) is Ok,
    ensures
        ({
            let (answer, after) = profile.set_rpc_endpoint(profile.owner, id, rpc);
            &&& answer == Ok::<(), Error>(())
            &&& after.get_rpc_endpoint(profile.owner, id) == Ok::<Seq<char>, Error>(rpc)
            &&& after.get_evm_account_address(profile.owner, id) == profile.get_evm_account_address(
                profile.owner,
                id,
            )
            &&& other != id ==> after.account(other) == profile.account(other)
        }),
{
}

/// The secret key of an account is given out if and only if the owner asks for it and the account
/// is dumped.
pub proof fn law_keys_are_given_out_after_the_dump(
    profile: ProfileView,
    caller: AccountId,
    id: ExternalAccountId,
)
    requires
        profile.wf(),
    ensures
        profile.get_dumped_key(caller, id) is Ok <==> caller == profile.owner
            && profile.external_accounts.contains_key(id)
            && profile.external_accounts[id].account_type == ExternalAccountType::Dumped,
        profile.get_dumped_key(caller, id) is Ok ==> profile.enabled_account(id) is Err,
{
}

/// Dumping an account in use gives its key out and ends its use: it has no address and no
/// endpoint any more, is not listed, is not dumped again, and no workflow uses it.
pub proof fn law_dump_ends_the_use(
    profile: ProfileView,
    id: ExternalAccountId,
    rpc: Seq<char>,
    request: Option<RequestView>,
)
    requires
        profile.wf(),
        profile.enabled_account(id) is Ok,
    ensures
        ({
            let owner = profile.owner;
            let (answer, after) = profile.dump_evm_account(owner, id);
            &&& answer == Ok::<(), Error>(())
            &&& after.get_dumped_key(owner, id) == Ok::<Seq<u8>, Error>(
                profile.external_accounts[id].sk,
            )
            &&& after.get_evm_account_address(owner, id) == Err::<H160, Error>(
                Error::ExternalAccountDisabled,
            )
            &&& after.get_rpc_endpoint(owner, id) == Err::<Seq<char>, Error>(
                Error::ExternalAccountDisabled,
            )
            &&& after.set_rpc_endpoint(owner, id, rpc) == (
                Err::<(), Error>(Error::ExternalAccountDisabled),
                after,
            )
            &&& after.dump_evm_account(owner, id) == (
                Err::<(), Error>(Error::ExternalAccountDisabled),
                after,
            )
            &&& !after.enabled_accounts().contains(id)
            &&& (after.workflow_session matches Some(workflow) && after.authorized(workflow) == Some(
                id,
            )) ==> {
                &&& after.get_current_evm_account_address() == Err::<H160, Error>(
                    Error::ExternalAccountDisabled,
                )
                &&& refusal(after.prepare_signing(request)) == Some(Error::ExternalAccountDisabled)
            }
        }),
{
    let after = profile.dump_evm_account(profile.owner, id).1;
    lemma_enabled_accounts_below(after, after.next_external_account_id as nat);
    assert(!after.account_enabled(id));
}

pub(crate) proof fn lemma_enabled_accounts_below(profile: ProfileView, n: nat)
    requires
        n <= u64::MAX,
    ensures
        forall|id: ExternalAccountId| #[trigger]
            profile.enabled_accounts_below(n).contains(id) <==> id < n && profile.account_enabled(
                id,
            ),
        forall|i: int, j: int|
            0 <= i < j < profile.enabled_accounts_below(n).len()
                ==> #[trigger] profile.enabled_accounts_below(n)[i]
                < #[trigger] profile.enabled_accounts_below(n)[j],
    decreases n,
{
    if n > 0 {
        let m = (n - 1) as nat;
        lemma_enabled_accounts_below(profile, m);
        let before = profile.enabled_accounts_below(m);
        let all = profile.enabled_accounts_below(n);
        assert forall|i: int| 0 <= i < before.len() implies #[trigger] before[i] < m by {
            assert(before.contains(before[i]));
        }
        assert forall|id: ExternalAccountId| #[trigger] all.contains(id) <==> id < n
            && profile.account_enabled(id) by {
            if profile.account_enabled(m as u64) {
                assert(all == before.push(m as u64));
                assert(all[before.len() as int] == m as u64);
                if before.contains(id) {
                    let k = choose|k: int| 0 <= k < before.len() && before[k] == id;
                    assert(all[k] == id);
                }
                if all.contains(id) && id != m as u64 {
                    let k = choose|k: int| 0 <= k < all.len() && all[k] == id;
                    assert(before[k] == id);
                }
            }
            if id < n && !(id < m) {
                assert(id == m as u64);
            }
            assert(before.contains(id) <==> id < m && profile.account_enabled(id));
        }
    }
}

/// The accounts in use are listed, each once, in ascending order of their numbers, and no others.
pub proof fn law_accounts_in_use_are_listed(profile: ProfileView, id: ExternalAccountId)
    requires
        profile.wf(),
    ensures
        profile.enabled_accounts().contains(id) <==> profile.account_enabled(id),
        forall|i: int, j: int|
            0 <= i < j < profile.enabled_accounts().len() ==> #[trigger] profile.enabled_accounts()[i]
                < #[trigger] profile.enabled_accounts()[j],
{
    lemma_enabled_accounts_below(profile, profile.next_external_account_id as nat);
    if profile.account_enabled(id) {
        assert(profile.external_accounts.contains_key(id));
    }
}

/// The account for which a workflow was authorized is the account that is read for it; every
/// other workflow has the account that it had.
pub proof fn law_authorization_reads_as_written(
    profile: ProfileView,
    workflow: WorkflowId,
    account: ExternalAccountId,
    other: WorkflowId,
)
    requires
        profile.workflow(workflow) is Ok,
        profile.account(account) is Ok,
    ensures
        ({
            let (answer, after) = profile.authorize_workflow(profile.owner, workflow, account);
            &&& answer == Ok::<(), Error>(())
            &&& after.authorized(workflow) == Some(account)
            &&& other != workflow ==> after.authorized(other) == profile.authorized(other)
        }),
{
}

/// A workflow in session uses the account for which it was authorized: it is told the address
/// that the owner is told, and its transactions are signed with the key and at the endpoint of
/// that account.
pub proof fn law_session_uses_the_authorized_account(
    profile: ProfileView,
    workflow: WorkflowId,
    account: ExternalAccountId,
    request: RequestView,
)
    requires
        profile.workflow(workflow) is Ok,
        profile.enabled_account(account) is Ok,
    ensures
        ({
            let authorized = profile.authorize_workflow(profile.owner, workflow, account).1;
            let (answer, opened) = authorized.set_workflow_session(workflow);
            &&& answer == Ok::<(), Error>(())
            &&& opened.get_current_evm_account_address() == profile.get_evm_account_address(
                profile.owner,
                account,
            )
            &&& opened.prepare_signing(Some(request)) matches Ok(job) && {
                &&& job.sk == profile.external_accounts[account].sk
                &&& job.rpc == profile.external_accounts[account].rpc
                &&& job.parameters == request.parameters()
            }
        }),
{
}

/// While a workflow is in session and the account for which it is authorized is in use, its
/// transaction is refused as none if and only if the text holds no request; else the request that
/// the text holds is signed.
pub proof fn law_texts_without_a_request_are_refused(profile: ProfileView, tx: Seq<u8>)
    requires
        profile.current_account() is Ok,
    ensures
        profile.sign_evm_transaction(tx) == Err::<SigningJobView, Error>(
            Error::BadUnsignedTransaction,
        ) <==> parsed_request(tx) is None,
        parsed_request(tx) matches Some(request) ==> {
            &&& profile.sign_evm_transaction(tx) matches Ok(job)
            &&& job.parameters == request.parameters()
        },
{
}

/// A poll that is granted opens the session of the workflow that was polled, changes nothing
/// else, and has the configured runner execute the command line of that workflow.
pub proof fn law_poll_runs_the_workflow(
    profile: ProfileView,
    in_transaction: bool,
    workflow_id: WorkflowId,
    poll_id: Seq<char>,
)
    requires
        profile.force_poll(in_transaction, workflow_id, poll_id).0 is Ok,
    ensures
        ({
            let (answer, after) = profile.force_poll(in_transaction, workflow_id, poll_id);
            &&& !in_transaction
            &&& after == (ProfileView { workflow_session: Some(workflow_id), ..profile })
            &&& profile.js_runner matches Some(js_runner) && answer == Ok::<RunCallView, Error>(
                RunCallView { js_runner, commandline: profile.workflows[workflow_id].commandline },
            )
        }),
{
}

/// Polling a workflow that is enabled is polling it by force; one that is disabled is refused,
/// and nothing changes.
pub proof fn law_poll_needs_an_enabled_workflow(
    profile: ProfileView,
    in_transaction: bool,
    workflow_id: WorkflowId,
    poll_id: Seq<char>,
)
    requires
        profile.workflow(workflow_id) is Ok,
    ensures
        profile.workflows[workflow_id].enabled ==> profile.poll(
            in_transaction,
            workflow_id,
            poll_id,
        ) == profile.force_poll(in_transaction, workflow_id, poll_id),
        !profile.workflows[workflow_id].enabled ==> profile.poll(
            in_transaction,
            workflow_id,
            poll_id,
        ) == (Err::<RunCallView, Error>(Error::WorkflowDisabled), profile),
{
}

/// Adding a workflow with an account is adding it and then authorizing it.
pub proof fn law_add_and_authorize_is_both(
    profile: ProfileView,
    name: Seq<char>,
    commandline: Seq<char>,
    account: ExternalAccountId,
)
    requires
        profile.wf(),
        profile.has_workflow_id(),
        profile.account(account) is Ok,
    ensures
        ({
            let owner = profile.owner;
            let id = profile.next_workflow_id;
            let added = profile.add_workflow(owner, name, commandline).1;
            let (answer, after) = profile.add_workflow_and_authorize(
                owner,
                name,
                commandline,
                account,
            );
            &&& answer == Ok::<WorkflowId, Error>(id)
            &&& after == added.authorize_workflow(owner, id, account).1
            &&& after.get_workflow(owner, id) matches Ok(info) && info.authorized_account == Some(
                account,
            )
        }),
{
}

/// The list of all workflows holds, at each number, what is told about the workflow of that number.
pub proof fn law_workflow_list_agrees_with_details(profile: ProfileView, id: WorkflowId)
    requires
        profile.wf(),
        id < profile.next_workflow_id,
    ensures
        profile.get_all_workflows(profile.owner) matches Ok(list) && list.len()
            == profile.next_workflow_id && profile.get_workflow(profile.owner, id) == Ok::<
            WorkflowInfoView,
            Error,
        >(list[id as int]),
{
    assert(profile.workflows.contains_key(id));
}

/// The list of the accounts in use holds, for each of them, the address and the endpoint that are
/// told about that account.
pub proof fn law_account_list_agrees_with_details(profile: ProfileView, i: int)
    requires
        profile.wf(),
        0 <= i < profile.enabled_accounts().len(),
    ensures
        ({
            let owner = profile.owner;
            let id = profile.enabled_accounts()[i];
            profile.get_all_evm_accounts(owner) matches Ok(list) && {
                &&& list.len() == profile.enabled_accounts().len()
                &&& list[i].id == id
                &&& profile.get_evm_account_address(owner, id) == Ok::<H160, Error>(list[i].address)
                &&& profile.get_rpc_endpoint(owner, id) == Ok::<Seq<char>, Error>(list[i].rpc)
            }
        }),
{
    let id = profile.enabled_accounts()[i];
    law_accounts_in_use_are_listed(profile, id);
    assert(profile.enabled_accounts().contains(id));
}

} // verus!
