//! Laws of the single requests: on which profiles each is granted, what it answers, what it changes,
//! and that it changes nothing else. All are stated over the contents of the profile.
use vstd::prelude::*;

use crate::host::{evm_address, parsed_request};
use crate::keys::is_secret_key;
use crate::poll::{is_poll_id, RunCallView};
use crate::state::ProfileView;
use crate::transaction::{ParametersView, RequestView};
use crate::types::{
    AccountId, Error, ExternalAccountId, ExternalAccountType, WorkflowId, H160,
};

verus! {

/// A new profile belongs to its owner, and there is nothing in it.
pub proof fn law_new_profile_holds_nothing(
    owner: AccountId,
    workflow: WorkflowId,
    account: ExternalAccountId,
)
    ensures
        ({
            let p = ProfileView::empty(owner);
            &&& p.wf()
            &&& p.owner == owner
            &&& p.js_runner is None
            &&& p.workflow_session is None
            &&& p.next_workflow_id == 0
            &&& p.next_external_account_id == 0
            &&& !p.workflows.contains_key(workflow)
            &&& !p.external_accounts.contains_key(account)
            &&& !p.authorized_account.contains_key(workflow)
        }),
{
}

/// Whatever is for the owner alone is refused to everyone else as of bad origin, before anything
/// else is looked at, and leaves the profile as it was.
pub proof fn law_requests_of_strangers_are_of_bad_origin(
    p: ProfileView,
    stranger: AccountId,
    js_runner: AccountId,
    text: Seq<char>,
    other_text: Seq<char>,
    workflow: WorkflowId,
    account: ExternalAccountId,
    enabled: bool,
    key: Seq<u8>,
)
    requires
        stranger != p.owner,
    ensures
        p.config(stranger, js_runner) == (Err::<(), Error>(Error::BadOrigin), p),
        p.add_workflow(stranger, text, other_text) == (
            Err::<WorkflowId, Error>(Error::BadOrigin),
            p,
        ),
        p.add_workflow_and_authorize(stranger, text, other_text, account) == (
            Err::<WorkflowId, Error>(Error::BadOrigin),
            p,
        ),
        p.authorize_workflow(stranger, workflow, account) == (
            Err::<(), Error>(Error::BadOrigin),
            p,
        ),
        p.switch_workflow(stranger, workflow, enabled) == (Err::<(), Error>(Error::BadOrigin), p),
        p.set_rpc_endpoint(stranger, account, text) == (Err::<(), Error>(Error::BadOrigin), p),
        p.add_generated_account(stranger, text, key) == (
            Err::<ExternalAccountId, Error>(Error::BadOrigin),
            p,
        ),
        p.dump_evm_account(stranger, account) == (Err::<(), Error>(Error::BadOrigin), p),
        p.get_workflow(stranger, workflow) matches Err(Error::BadOrigin),
        p.get_all_workflows(stranger) matches Err(Error::BadOrigin),
        p.get_evm_account_address(stranger, account) matches Err(Error::BadOrigin),
        p.get_all_evm_accounts(stranger) matches Err(Error::BadOrigin),
        p.get_rpc_endpoint(stranger, account) matches Err(Error::BadOrigin),
        p.get_dumped_key(stranger, account) matches Err(Error::BadOrigin),
{
}

/// The runner that the owner configures is the runner that is read from then on, and the one that
/// every poll calls, whichever was configured before; nothing else changes.
pub proof fn law_configured_runner_is_read(
    p: ProfileView,
    js_runner: AccountId,
    in_transaction: bool,
    workflow_id: WorkflowId,
    poll_id: Seq<char>,
)
    ensures
        ({
            let (answer, after) = p.config(p.owner, js_runner);
            &&& answer == Ok::<(), Error>(())
            &&& after.js_runner == Some(js_runner)
            &&& after.runner() == Ok::<AccountId, Error>(js_runner)
            &&& after == (ProfileView { js_runner: after.js_runner, ..p })
            &&& after.force_poll(in_transaction, workflow_id, poll_id).0 matches Ok(call)
                ==> call.js_runner == js_runner
            &&& after.poll(in_transaction, workflow_id, poll_id).0 matches Ok(call)
                ==> call.js_runner == js_runner
        }),
{
}

/// A runner is read if and only if one was configured, and it is that one.
pub proof fn law_runner_is_the_configured_one(p: ProfileView)
    ensures
        p.js_runner matches Some(js_runner) ==> p.runner() == Ok::<AccountId, Error>(js_runner),
        p.js_runner is None ==> p.runner() == Err::<AccountId, Error>(Error::NotConfigured),
{
}

/// The owner may add any workflow. It gets the next number, is enabled, and has the given name and
/// command line; nothing else changes.
pub proof fn law_added_workflow_is_the_given_one(
    p: ProfileView,
    name: Seq<char>,
    commandline: Seq<char>,
    other: WorkflowId,
)
    requires
        p.next_workflow_id < u64::MAX,
    ensures
        ({
            let id = p.next_workflow_id;
            let (answer, after) = p.add_workflow(p.owner, name, commandline);
            &&& answer == Ok::<WorkflowId, Error>(id)
            &&& after.next_workflow_id == id + 1
            &&& after.workflows.contains_key(id)
            &&& after.workflows[id].id == id
            &&& after.workflows[id].name == name
            &&& after.workflows[id].commandline == commandline
            &&& after.workflows[id].enabled
            &&& other != id ==> {
                &&& after.workflows.contains_key(other) == p.workflows.contains_key(other)
                &&& after.workflows[other] == p.workflows[other]
            }
            &&& after == (ProfileView {
                next_workflow_id: after.next_workflow_id,
                workflows: after.workflows,
                ..p
            })
        }),
{
}

/// The owner may authorize every workflow that exists for every account that exists, in use or
/// not. Of a workflow that does not exist that is said first, then of an account. Of what is told
/// about the workflow only its account changes, and nothing changes about any other.
pub proof fn law_authorization_changes_the_account_alone(
    p: ProfileView,
    workflow: WorkflowId,
    account: ExternalAccountId,
    other: WorkflowId,
)
    ensures
        ({
            let (answer, after) = p.authorize_workflow(p.owner, workflow, account);
            &&& !p.workflows.contains_key(workflow) ==> answer == Err::<(), Error>(
                Error::WorkflowNotFound,
            ) && after == p
            &&& p.workflows.contains_key(workflow) && !p.external_accounts.contains_key(account)
                ==> answer == Err::<(), Error>(Error::ExternalAccountNotFound) && after == p
            &&& p.workflows.contains_key(workflow) && p.external_accounts.contains_key(account) ==> {
                &&& answer == Ok::<(), Error>(())
                &&& after.authorized_account.contains_key(workflow)
                &&& after.authorized_account[workflow] == account
                &&& after.authorized(workflow) == Some(account)
                &&& other != workflow ==> {
                    &&& after.authorized_account.contains_key(other)
                        == p.authorized_account.contains_key(other)
                    &&& after.authorized_account[other] == p.authorized_account[other]
                    &&& after.get_workflow(p.owner, other) == p.get_workflow(p.owner, other)
                }
                &&& after == (ProfileView { authorized_account: after.authorized_account, ..p })
                &&& p.get_workflow(p.owner, workflow) matches Ok(told)
                &&& after.get_workflow(p.owner, workflow) matches Ok(now)
                &&& now.authorized_account == Some(account)
                &&& now.id == told.id
                &&& now.name == told.name
                &&& now.enabled == told.enabled
                &&& now.commandline == told.commandline
            }
        }),
{
}

/// The account of a workflow is read if and only if it was authorized for one, and it is that one.
pub proof fn law_authorized_account_is_read(p: ProfileView, workflow: WorkflowId)
    ensures
        p.authorized(workflow) is Some <==> p.authorized_account.contains_key(workflow),
        p.authorized(workflow) matches Some(account) ==> account == p.authorized_account[workflow],
{
}

/// Adding a workflow together with an account that exists leaves behind what adding it and then
/// authorizing it leaves behind. With an account that does not exist the request is refused for
/// that, and the workflow is added all the same.
pub proof fn law_added_workflow_is_authorized(
    p: ProfileView,
    name: Seq<char>,
    commandline: Seq<char>,
    account: ExternalAccountId,
)
    requires
        p.next_workflow_id < u64::MAX,
    ensures
        ({
            let id = p.next_workflow_id;
            let added = p.add_workflow(p.owner, name, commandline).1;
            let (answer, after) = p.add_workflow_and_authorize(p.owner, name, commandline, account);
            &&& p.external_accounts.contains_key(account) ==> {
                &&& answer == Ok::<WorkflowId, Error>(id)
                &&& after.authorized_account == p.authorized_account.insert(id, account)
                &&& after == (ProfileView { authorized_account: after.authorized_account, ..added })
            }
            &&& !p.external_accounts.contains_key(account) ==> {
                &&& answer == Err::<WorkflowId, Error>(Error::ExternalAccountNotFound)
                &&& after == added
            }
        }),
{
}

/// The owner may enable and disable every workflow that exists, and no other. The workflow keeps
/// its name and its command line, and nothing else changes.
pub proof fn law_switch_changes_the_switch_alone(
    p: ProfileView,
    id: WorkflowId,
    enabled: bool,
    other: WorkflowId,
)
    ensures
        ({
            let (answer, after) = p.switch_workflow(p.owner, id, enabled);
            &&& !p.workflows.contains_key(id) ==> answer == Err::<(), Error>(
                Error::WorkflowNotFound,
            ) && after == p
            &&& p.workflows.contains_key(id) ==> {
                &&& answer == Ok::<(), Error>(())
                &&& after.workflows.contains_key(id)
                &&& after.workflows[id].enabled == enabled
                &&& after.workflows[id].id == p.workflows[id].id
                &&& after.workflows[id].name == p.workflows[id].name
                &&& after.workflows[id].commandline == p.workflows[id].commandline
                &&& other != id ==> {
                    &&& after.workflows.contains_key(other) == p.workflows.contains_key(other)
                    &&& after.workflows[other] == p.workflows[other]
                }
                &&& after == (ProfileView { workflows: after.workflows, ..p })
            }
        }),
{
}

/// The owner is told about every workflow that exists, and is told its own name, command line,
/// switch and account, whatever these are.
pub proof fn law_workflow_is_told_as_it_is(p: ProfileView, id: WorkflowId)
    ensures
        p.get_workflow(p.owner, id) is Ok <==> p.workflows.contains_key(id),
        p.get_workflow(p.owner, id) matches Err(e) ==> e == Error::WorkflowNotFound,
        p.get_workflow(p.owner, id) matches Ok(info) ==> {
            &&& info.id == p.workflows[id].id
            &&& info.name == p.workflows[id].name
            &&& info.enabled == p.workflows[id].enabled
            &&& info.commandline == p.workflows[id].commandline
            &&& info.authorized_account is Some <==> p.authorized_account.contains_key(id)
            &&& info.authorized_account matches Some(account) ==> account
                == p.authorized_account[id]
        },
{
}

/// The owner is given the list of all workflows, in the order of their numbers, with their own
/// names, command lines, switches and accounts.
pub proof fn law_workflows_are_listed_as_they_are(p: ProfileView, i: int)
    requires
        p.wf(),
    ensures
        p.get_all_workflows(p.owner) matches Ok(list) && list.len() == p.next_workflow_id && (0
            <= i < list.len() ==> {
            let id = i as WorkflowId;
            &&& p.workflows.contains_key(id)
            &&& list[i].id == i
            &&& list[i].name == p.workflows[id].name
            &&& list[i].enabled == p.workflows[id].enabled
            &&& list[i].commandline == p.workflows[id].commandline
            &&& list[i].authorized_account is Some <==> p.authorized_account.contains_key(id)
            &&& list[i].authorized_account matches Some(account) ==> account
                == p.authorized_account[id]
        }),
{
    if 0 <= i < p.next_workflow_id {
        assert(p.workflows.contains_key(i as WorkflowId));
    }
}

/// A workflow counts as enabled if and only if it exists and is switched on.
pub proof fn law_enabled_workflows_are_switched_on(p: ProfileView, id: WorkflowId)
    ensures
        p.enabled_workflows().contains(id) <==> p.workflows.contains_key(id)
            && p.workflows[id].enabled,
{
}

/// An account is added for every key of 32 bytes or more, and for no shorter one. It gets the next
/// number, is in use, and has the given endpoint and the first 32 bytes of the key; its address
/// is that of these bytes. Nothing else changes.
pub proof fn law_generated_account_is_the_given_one(
    p: ProfileView,
    rpc: Seq<char>,
    key: Seq<u8>,
    other: ExternalAccountId,
)
    requires
        p.next_external_account_id < u64::MAX,
    ensures
        ({
            let id = p.next_external_account_id;
            let (answer, after) = p.add_generated_account(p.owner, rpc, key);
            &&& key.len() < 32 ==> answer == Err::<ExternalAccountId, Error>(
                Error::BadEvmSecretKey,
            ) && after == p
            &&& key.len() >= 32 ==> {
                &&& answer == Ok::<ExternalAccountId, Error>(id)
                &&& after.next_external_account_id == id + 1
                &&& after.external_accounts.contains_key(id)
                &&& after.external_accounts[id].id == id
                &&& after.external_accounts[id].enabled
                &&& after.external_accounts[id].account_type == ExternalAccountType::Generated
                &&& after.external_accounts[id].rpc == rpc
                &&& after.external_accounts[id].sk == key.subrange(0, 32)
                &&& after.get_rpc_endpoint(p.owner, id) == Ok::<Seq<char>, Error>(rpc)
                &&& after.get_evm_account_address(p.owner, id) == Ok::<H160, Error>(
                    H160(evm_address(key.subrange(0, 32))),
                )
                &&& other != id ==> {
                    &&& after.external_accounts.contains_key(other)
                        == p.external_accounts.contains_key(other)
                    &&& after.external_accounts[other] == p.external_accounts[other]
                }
                &&& after == (ProfileView {
                    next_external_account_id: after.next_external_account_id,
                    external_accounts: after.external_accounts,
                    ..p
                })
            }
        }),
{
}

/// The owner is told the address of every account in use, and it is the one that belongs to the
/// secret key of that account.
pub proof fn law_address_is_that_of_the_key(p: ProfileView, id: ExternalAccountId)
    ensures
        !p.external_accounts.contains_key(id) ==> p.get_evm_account_address(p.owner, id) == Err::<
            H160,
            Error,
        >(Error::ExternalAccountNotFound),
        p.external_accounts.contains_key(id) && !p.external_accounts[id].enabled
            ==> p.get_evm_account_address(p.owner, id) == Err::<H160, Error>(
            Error::ExternalAccountDisabled,
        ),
        p.external_accounts.contains_key(id) && p.external_accounts[id].enabled
            ==> p.get_evm_account_address(p.owner, id) == Ok::<H160, Error>(
            H160(evm_address(p.external_accounts[id].sk)),
        ),
{
}

/// Two accounts in use with one secret key have one address, in one profile or in two, and
/// whatever else is different about them.
pub proof fn law_one_key_has_one_address(
    p: ProfileView,
    id: ExternalAccountId,
    q: ProfileView,
    other: ExternalAccountId,
)
    requires
        p.external_accounts.contains_key(id) && p.external_accounts[id].enabled,
        q.external_accounts.contains_key(other) && q.external_accounts[other].enabled,
        p.external_accounts[id].sk == q.external_accounts[other].sk,
    ensures
        p.get_evm_account_address(p.owner, id) == q.get_evm_account_address(q.owner, other),
{
}

/// The owner is given the list of the accounts in use, and of no others, each once and in the
/// order of their numbers, with the addresses that belong to their keys and with their endpoints.
pub proof fn law_accounts_are_listed_as_they_are(p: ProfileView)
    requires
        p.wf(),
    ensures
        p.get_all_evm_accounts(p.owner) matches Ok(list) && {
            &&& forall|i: int|
                0 <= i < list.len() ==> {
                    let id = (#[trigger] list[i]).id;
                    &&& p.external_accounts.contains_key(id)
                    &&& p.external_accounts[id].enabled
                    &&& list[i].address == H160(evm_address(p.external_accounts[id].sk))
                    &&& list[i].rpc == p.external_accounts[id].rpc
                }
            &&& forall|i: int, j: int|
                0 <= i < j < list.len() ==> (#[trigger] list[i]).id < (#[trigger] list[j]).id
            &&& forall|id: ExternalAccountId| #[trigger]
                p.external_accounts.contains_key(id) && p.external_accounts[id].enabled
                    ==> exists|i: int| 0 <= i < list.len() && (#[trigger] list[i]).id == id
        },
{
    let ids = p.enabled_accounts();
    crate::laws::lemma_enabled_accounts_below(p, p.next_external_account_id as nat);
    let list = p.get_all_evm_accounts(p.owner)->Ok_0;
    assert forall|i: int| 0 <= i < list.len() implies {
        let id = (#[trigger] list[i]).id;
        &&& id == ids[i]
        &&& p.external_accounts.contains_key(id)
        &&& p.external_accounts[id].enabled
        &&& list[i].address == H160(evm_address(p.external_accounts[id].sk))
        &&& list[i].rpc == p.external_accounts[id].rpc
    } by {
        assert(ids.contains(ids[i]));
        assert(p.account_enabled(ids[i]));
    }
    assert forall|id: ExternalAccountId| #[trigger]
        p.external_accounts.contains_key(id) && p.external_accounts[id].enabled implies exists|i: int|
        0 <= i < list.len() && (#[trigger] list[i]).id == id by {
        assert(p.account_enabled(id));
        assert(ids.contains(id));
        let i = choose|i: int| 0 <= i < ids.len() && ids[i] == id;
        assert(list[i].id == id);
    }
}

/// The owner is told the endpoint of every account in use, and of no other, and it is the one that
/// the account has.
pub proof fn law_endpoint_is_told_as_it_is(p: ProfileView, id: ExternalAccountId)
    ensures
        !p.external_accounts.contains_key(id) ==> p.get_rpc_endpoint(p.owner, id) == Err::<
            Seq<char>,
            Error,
        >(Error::ExternalAccountNotFound),
        p.external_accounts.contains_key(id) && !p.external_accounts[id].enabled
            ==> p.get_rpc_endpoint(p.owner, id) == Err::<Seq<char>, Error>(
            Error::ExternalAccountDisabled,
        ),
        p.external_accounts.contains_key(id) && p.external_accounts[id].enabled
            ==> p.get_rpc_endpoint(p.owner, id) == Ok::<Seq<char>, Error>(
            p.external_accounts[id].rpc,
        ),
{
}

/// The owner may set the endpoint of every account in use, and of no other, to anything. Nothing
/// else about the account changes, and nothing else in the profile.
pub proof fn law_endpoint_changes_alone(
    p: ProfileView,
    id: ExternalAccountId,
    rpc: Seq<char>,
    other: ExternalAccountId,
)
    ensures
        ({
            let (answer, after) = p.set_rpc_endpoint(p.owner, id, rpc);
            &&& !p.external_accounts.contains_key(id) ==> answer == Err::<(), Error>(
                Error::ExternalAccountNotFound,
            ) && after == p
            &&& p.external_accounts.contains_key(id) && !p.external_accounts[id].enabled ==> answer
                == Err::<(), Error>(Error::ExternalAccountDisabled) && after == p
            &&& p.external_accounts.contains_key(id) && p.external_accounts[id].enabled ==> {
                &&& answer == Ok::<(), Error>(())
                &&& after.external_accounts.contains_key(id)
                &&& after.external_accounts[id].rpc == rpc
                &&& after.external_accounts[id].id == p.external_accounts[id].id
                &&& after.external_accounts[id].enabled
                &&& after.external_accounts[id].account_type == p.external_accounts[id].account_type
                &&& after.external_accounts[id].sk == p.external_accounts[id].sk
                &&& other != id ==> {
                    &&& after.external_accounts.contains_key(other)
                        == p.external_accounts.contains_key(other)
                    &&& after.external_accounts[other] == p.external_accounts[other]
                }
                &&& after == (ProfileView { external_accounts: after.external_accounts, ..p })
            }
        }),
{
}

/// The owner may dump every account in use, and no other. The account is then disabled and dumped,
/// and its key is given out; it keeps its key and its endpoint, and nothing else changes.
pub proof fn law_dump_changes_the_account_alone(
    p: ProfileView,
    id: ExternalAccountId,
    other: ExternalAccountId,
)
    ensures
        ({
            let (answer, after) = p.dump_evm_account(p.owner, id);
            &&& !p.external_accounts.contains_key(id) ==> answer == Err::<(), Error>(
                Error::ExternalAccountNotFound,
            ) && after == p
            &&& p.external_accounts.contains_key(id) && !p.external_accounts[id].enabled ==> answer
                == Err::<(), Error>(Error::ExternalAccountDisabled) && after == p
            &&& p.external_accounts.contains_key(id) && p.external_accounts[id].enabled ==> {
                &&& answer == Ok::<(), Error>(())
                &&& after.external_accounts.contains_key(id)
                &&& !after.external_accounts[id].enabled
                &&& after.external_accounts[id].account_type == ExternalAccountType::Dumped
                &&& after.external_accounts[id].id == p.external_accounts[id].id
                &&& after.external_accounts[id].rpc == p.external_accounts[id].rpc
                &&& after.external_accounts[id].sk == p.external_accounts[id].sk
                &&& after.get_dumped_key(p.owner, id) == Ok::<Seq<u8>, Error>(
                    p.external_accounts[id].sk,
                )
                &&& other != id ==> {
                    &&& after.external_accounts.contains_key(other)
                        == p.external_accounts.contains_key(other)
                    &&& after.external_accounts[other] == p.external_accounts[other]
                }
                &&& after == (ProfileView { external_accounts: after.external_accounts, ..p })
            }
        }),
{
}

/// The owner is given the secret key of every account that is dumped, and of no other, and it is
/// the key of that account.
pub proof fn law_dumped_key_is_that_of_the_account(p: ProfileView, id: ExternalAccountId)
    ensures
        !p.external_accounts.contains_key(id) ==> p.get_dumped_key(p.owner, id) == Err::<
            Seq<u8>,
            Error,
        >(Error::ExternalAccountNotFound),
        p.external_accounts.contains_key(id) && p.external_accounts[id].account_type
            != ExternalAccountType::Dumped ==> p.get_dumped_key(p.owner, id) == Err::<
            Seq<u8>,
            Error,
        >(Error::OnlyDumpedAccount),
        p.external_accounts.contains_key(id) && p.external_accounts[id].account_type
            == ExternalAccountType::Dumped ==> p.get_dumped_key(p.owner, id) == Ok::<
            Seq<u8>,
            Error,
        >(p.external_accounts[id].sk),
{
}

/// A session of every workflow that exists may be opened, and of no other; it takes the place of
/// the one before, and nothing else changes.
pub proof fn law_session_is_opened_alone(p: ProfileView, workflow: WorkflowId)
    ensures
        ({
            let (answer, after) = p.set_workflow_session(workflow);
            &&& !p.workflows.contains_key(workflow) ==> answer == Err::<(), Error>(
                Error::WorkflowNotFound,
            ) && after == p
            &&& p.workflows.contains_key(workflow) ==> {
                &&& answer == Ok::<(), Error>(())
                &&& after == (ProfileView { workflow_session: Some(workflow), ..p })
            }
        }),
{
}

/// A poll by force is granted if and only if it is not in a transaction, the poll id is one, the
/// workflow exists and a runner is configured; the first of these that fails is the reason of the
/// refusal. It has the configured runner execute the command line of the workflow. The session is
/// opened if all holds but perhaps the last, and nothing else changes.
pub proof fn law_poll_by_force_is_granted(
    p: ProfileView,
    in_transaction: bool,
    workflow_id: WorkflowId,
    poll_id: Seq<char>,
)
    ensures
        ({
            let (answer, after) = p.force_poll(in_transaction, workflow_id, poll_id);
            let opened = !in_transaction && is_poll_id(poll_id) && p.workflows.contains_key(
                workflow_id,
            );
            &&& answer is Ok <==> opened && p.js_runner is Some
            &&& answer matches Ok(call) ==> {
                &&& p.js_runner == Some(call.js_runner)
                &&& call.commandline == p.workflows[workflow_id].commandline
            }
            &&& in_transaction ==> answer == Err::<RunCallView, Error>(Error::NoPollForTransaction)
            &&& !in_transaction && !is_poll_id(poll_id) ==> answer == Err::<RunCallView, Error>(
                Error::InvalidPollId,
            )
            &&& !in_transaction && is_poll_id(poll_id) && !p.workflows.contains_key(workflow_id)
                ==> answer == Err::<RunCallView, Error>(Error::WorkflowNotFound)
            &&& opened && p.js_runner is None ==> answer == Err::<RunCallView, Error>(
                Error::NotConfigured,
            )
            &&& opened ==> after == (ProfileView { workflow_session: Some(workflow_id), ..p })
            &&& !opened ==> after == p
        }),
{
}

/// A poll is granted if and only if the workflow exists and is enabled, it is not in a transaction,
/// the poll id is one and a runner is configured; of the workflow it is said first. What it then
/// answers and leaves behind is what a poll by force does.
pub proof fn law_poll_is_granted(
    p: ProfileView,
    in_transaction: bool,
    workflow_id: WorkflowId,
    poll_id: Seq<char>,
)
    ensures
        ({
            let (answer, after) = p.poll(in_transaction, workflow_id, poll_id);
            let found = p.workflows.contains_key(workflow_id);
            &&& answer is Ok <==> found && p.workflows[workflow_id].enabled && !in_transaction
                && is_poll_id(poll_id) && p.js_runner is Some
            &&& answer matches Ok(call) ==> {
                &&& p.js_runner == Some(call.js_runner)
                &&& call.commandline == p.workflows[workflow_id].commandline
                &&& after == (ProfileView { workflow_session: Some(workflow_id), ..p })
            }
            &&& !found ==> answer == Err::<RunCallView, Error>(Error::WorkflowNotFound) && after
                == p
            &&& found && !p.workflows[workflow_id].enabled ==> answer == Err::<RunCallView, Error>(
                Error::WorkflowDisabled,
            ) && after == p
            &&& found && p.workflows[workflow_id].enabled ==> (answer, after) == p.force_poll(
                in_transaction,
                workflow_id,
                poll_id,
            )
        }),
{
}

/// The account of the session: `None` where there is no session, where its workflow is not
/// authorized for an account, or where that account is not in use.
pub open spec fn session_account(p: ProfileView) -> Option<ExternalAccountId> {
    match p.workflow_session {
        Some(workflow) => if p.authorized_account.contains_key(workflow) {
            let id = p.authorized_account[workflow];
            if p.external_accounts.contains_key(id) && p.external_accounts[id].enabled {
                Some(id)
            } else {
                None
            }
        } else {
            None
        },
        None => None,
    }
}

/// Why there is no account of the session.
pub open spec fn no_session_account(p: ProfileView) -> Error {
    if p.workflow_session is None {
        Error::BadWorkflowSession
    } else if !p.authorized_account.contains_key(p.workflow_session->0) {
        Error::NoAuthorizedExternalAccount
    } else if !p.external_accounts.contains_key(p.authorized_account[p.workflow_session->0]) {
        Error::ExternalAccountNotFound
    } else {
        Error::ExternalAccountDisabled
    }
}

/// A workflow in session is told the address that belongs to the secret key of the account for
/// which it is authorized, and the owner is told the same one.
pub proof fn law_session_is_told_the_address_of_the_key(p: ProfileView)
    ensures
        session_account(p) matches Some(id) ==> {
            &&& p.get_current_evm_account_address() == Ok::<H160, Error>(
                H160(evm_address(p.external_accounts[id].sk)),
            )
            &&& p.get_current_evm_account_address() == p.get_evm_account_address(p.owner, id)
        },
        session_account(p) is None ==> p.get_current_evm_account_address() == Err::<H160, Error>(
            no_session_account(p),
        ),
{
}

/// What the parameters to be signed are for a request: each of gas, value and data is what the
/// request gives, whatever the other fields are, and zero or nothing where it gives none; nonce,
/// recipient, gas price, type, access list and priority fee are those of the request; the chain
/// and the limit of the fee are left open.
pub open spec fn follows(signed: ParametersView, request: RequestView) -> bool {
    &&& request.gas matches Some(gas) ==> signed.gas == gas
    &&& request.gas is None ==> signed.gas@ == seq![0u64, 0, 0, 0]
    &&& request.value matches Some(value) ==> signed.value == value
    &&& request.value is None ==> signed.value@ == seq![0u64, 0, 0, 0]
    &&& request.data matches Some(data) ==> signed.data == data
    &&& request.data is None ==> signed.data.len() == 0
    &&& signed.nonce == request.nonce
    &&& signed.to == request.to
    &&& signed.gas_price == request.gas_price
    &&& signed.transaction_type == request.transaction_type
    &&& signed.access_list == request.access_list
    &&& signed.max_priority_fee_per_gas == request.max_priority_fee_per_gas
    &&& signed.chain_id is None
    &&& signed.max_fee_per_gas is None
}

/// The parameters to be signed follow the request.
pub proof fn law_parameters_follow_the_request(request: RequestView)
    ensures
        follows(request.parameters(), request),
{
}

/// Two requests that give the same gas have the same gas signed, however they differ in all else,
/// and so for the value and for the data.
pub proof fn law_fields_are_signed_one_by_one(a: RequestView, b: RequestView)
    ensures
        a.gas == b.gas ==> a.parameters().gas == b.parameters().gas,
        a.value == b.value ==> a.parameters().value == b.parameters().value,
        a.data == b.data ==> a.parameters().data == b.parameters().data,
        a.gas is Some && b.gas is Some && a.gas != b.gas ==> a.parameters().gas
            != b.parameters().gas,
        a.value is Some && b.value is Some && a.value != b.value ==> a.parameters().value
            != b.parameters().value,
        a.data is Some && b.data is Some && a.data != b.data ==> a.parameters().data
            != b.parameters().data,
{
}

/// A workflow in session has its transaction signed with the key and at the endpoint of the account
/// for which it is authorized, if the text holds a request, and with the parameters that follow the
/// request. Of a session without an account that is said first, whatever the text.
pub proof fn law_session_has_its_request_signed(p: ProfileView, tx: Seq<u8>)
    ensures
        p.sign_evm_transaction(tx) == p.prepare_signing(parsed_request(tx)),
        p.sign_evm_transaction(tx) is Ok <==> session_account(p) is Some && parsed_request(tx)
            is Some,
        p.sign_evm_transaction(tx) matches Ok(job) ==> {
            let account = p.external_accounts[session_account(p)->0];
            &&& job.sk == account.sk
            &&& job.rpc == account.rpc
            &&& follows(job.parameters, parsed_request(tx)->0)
        },
        p.sign_evm_transaction(tx) matches Err(e) ==> e == if session_account(p) is None {
            no_session_account(p)
        } else {
            Error::BadUnsignedTransaction
        },
{
}

/// The same of a request as it was read.
pub proof fn law_session_has_a_request_signed(p: ProfileView, request: Option<RequestView>)
    ensures
        p.prepare_signing(request) is Ok <==> session_account(p) is Some && request is Some,
        p.prepare_signing(request) matches Ok(job) ==> {
            let account = p.external_accounts[session_account(p)->0];
            &&& job.sk == account.sk
            &&& job.rpc == account.rpc
            &&& follows(job.parameters, request->0)
        },
        p.prepare_signing(request) matches Err(e) ==> e == if session_account(p) is None {
            no_session_account(p)
        } else {
            Error::BadUnsignedTransaction
        },
{
}

/// An address is asked for in vain only for an account in use whose key is no secret key.
pub proof fn law_addresses_need_secret_keys_alone(p: ProfileView, id: ExternalAccountId)
    ensures
        !p.addressable(id) <==> p.external_accounts.contains_key(id)
            && p.external_accounts[id].enabled && !is_secret_key(p.external_accounts[id].sk),
        p.all_addressable() <==> forall|other: ExternalAccountId| #[trigger]
            p.external_accounts.contains_key(other) && p.external_accounts[other].enabled
                ==> is_secret_key(p.external_accounts[other].sk),
        !p.current_addressable() <==> session_account(p) is Some && !is_secret_key(
            p.external_accounts[session_account(p)->0].sk,
        ),
{
    if p.all_addressable() {
        assert forall|other: ExternalAccountId| #[trigger]
            p.external_accounts.contains_key(other)
                && p.external_accounts[other].enabled implies is_secret_key(
            p.external_accounts[other].sk,
        ) by {
            assert(p.addressable(other));
        }
    }
}

} // verus!
