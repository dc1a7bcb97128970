//! Records: a profile laid out as lists, the form in which it is kept between requests.
use vstd::prelude::*;

use crate::state::ProfileView;
use crate::types::{
    AccountId, AccountView, ExternalAccount, ExternalAccountId, ExternalAccountType, Workflow,
    WorkflowId, WorkflowView,
};

verus! {

/// A profile as lists. Workflow `i` and account `i` stand at position `i` of their list, and
/// `authorized_accounts` says at position `i` which account workflow `i` may use.
#[derive(Debug)]
pub struct ProfileRecord {
    pub owner: AccountId,
    pub js_runner: Option<AccountId>,
    pub workflows: Vec<Workflow>,
    pub external_accounts: Vec<ExternalAccount>,
    pub authorized_accounts: Vec<Option<ExternalAccountId>>,
    pub workflow_session: Option<WorkflowId>,
}

/// View of a [`ProfileRecord`].
#[verifier::ext_equal]
pub struct RecordView {
    pub owner: AccountId,
    pub js_runner: Option<AccountId>,
    pub workflows: Seq<WorkflowView>,
    pub external_accounts: Seq<AccountView>,
    pub authorized_accounts: Seq<Option<ExternalAccountId>>,
    pub workflow_session: Option<WorkflowId>,
}

impl View for ProfileRecord {
    type V = RecordView;

    open spec fn view(&self) -> RecordView {
        RecordView {
            owner: self.owner,
            js_runner: self.js_runner,
            workflows: self.workflows@.map_values(|w: Workflow| w@),
            external_accounts: self.external_accounts@.map_values(|a: ExternalAccount| a@),
            authorized_accounts: self.authorized_accounts@,
            workflow_session: self.workflow_session,
        }
    }
}

impl RecordView {
    /// The profile that the lists describe.
    pub open spec fn profile(self) -> ProfileView {
        ProfileView {
            owner: self.owner,
            js_runner: self.js_runner,
            next_workflow_id: self.workflows.len() as WorkflowId,
            workflows: Map::new(
                |id: WorkflowId| id < self.workflows.len(),
                |id: WorkflowId| self.workflows[id as int],
            ),
            next_external_account_id: self.external_accounts.len() as ExternalAccountId,
            external_accounts: Map::new(
                |id: ExternalAccountId| id < self.external_accounts.len(),
                |id: ExternalAccountId| self.external_accounts[id as int],
            ),
            authorized_account: Map::new(
                |id: WorkflowId|
                    id < self.authorized_accounts.len() && self.authorized_accounts[id as int] is Some,
                |id: WorkflowId| self.authorized_accounts[id as int]->0,
            ),
            workflow_session: self.workflow_session,
        }
    }

    /// Whether the lists describe a profile: there is one authorization, or none, for each
    /// workflow, and what holds of every profile holds of what is described.
    pub open spec fn valid(self) -> bool {
        &&& self.workflows.len() <= u64::MAX
        &&& self.external_accounts.len() <= u64::MAX
        &&& self.authorized_accounts.len() == self.workflows.len()
        &&& self.profile().wf()
    }
}

impl ProfileView {
    /// The lists that describe a profile.
    pub open spec fn record(self) -> RecordView {
        RecordView {
            owner: self.owner,
            js_runner: self.js_runner,
            workflows: Seq::new(
                self.next_workflow_id as nat,
                |i: int| self.workflows[i as WorkflowId],
            ),
            external_accounts: Seq::new(
                self.next_external_account_id as nat,
                |i: int| self.external_accounts[i as ExternalAccountId],
            ),
            authorized_accounts: Seq::new(
                self.next_workflow_id as nat,
                |i: int| self.authorized(i as WorkflowId),
            ),
            workflow_session: self.workflow_session,
        }
    }
}

/// The lists of a profile describe that profile.
pub proof fn law_record_keeps_the_profile(profile: ProfileView)
    requires
        profile.wf(),
    ensures
        profile.record().valid(),
        profile.record().profile() == profile,
{
    let back = profile.record().profile();
    assert forall|id: WorkflowId| #[trigger]
        back.authorized_account.contains_key(id) <==> profile.authorized_account.contains_key(
            id,
        ) by {
        if profile.authorized_account.contains_key(id) {
            assert(profile.workflows.contains_key(id));
        }
    }
    assert(back.workflows =~= profile.workflows);
    assert(back.external_accounts =~= profile.external_accounts);
    assert(back.authorized_account =~= profile.authorized_account);
}

/// Lists that describe a profile are the lists of that profile.
pub proof fn law_profile_keeps_the_record(record: RecordView)
    requires
        record.valid(),
    ensures
        record.profile().record() == record,
{
    let back = record.profile().record();
    assert(back.workflows =~= record.workflows);
    assert(back.external_accounts =~= record.external_accounts);
    assert(back.authorized_accounts =~= record.authorized_accounts);
}

/// The view of a record shows what the record holds.
pub proof fn law_record_is_shown_as_it_is(record: ProfileRecord, i: int)
    ensures
        record@.owner == record.owner,
        record@.js_runner == record.js_runner,
        record@.workflow_session == record.workflow_session,
        record@.authorized_accounts == record.authorized_accounts@,
        record@.workflows.len() == record.workflows@.len(),
        0 <= i < record.workflows@.len() ==> record@.workflows[i] == record.workflows@[i]@,
        record@.external_accounts.len() == record.external_accounts@.len(),
        0 <= i < record.external_accounts@.len() ==> record@.external_accounts[i]
            == record.external_accounts@[i]@,
{
}

/// The profile that the lists describe has what stands in the lists, under the number of its place,
/// and nothing else.
pub proof fn law_lists_describe_their_items(record: RecordView, id: u64)
    requires
        record.workflows.len() <= u64::MAX,
        record.external_accounts.len() <= u64::MAX,
    ensures
        ({
            let p = record.profile();
            &&& p.owner == record.owner
            &&& p.js_runner == record.js_runner
            &&& p.workflow_session == record.workflow_session
            &&& p.next_workflow_id == record.workflows.len()
            &&& p.next_external_account_id == record.external_accounts.len()
            &&& p.workflows.contains_key(id) <==> id < record.workflows.len()
            &&& p.workflows.contains_key(id) ==> p.workflows[id] == record.workflows[id as int]
            &&& p.external_accounts.contains_key(id) <==> id < record.external_accounts.len()
            &&& p.external_accounts.contains_key(id) ==> p.external_accounts[id]
                == record.external_accounts[id as int]
            &&& p.authorized_account.contains_key(id) <==> id < record.authorized_accounts.len()
                && record.authorized_accounts[id as int] is Some
            &&& p.authorized_account.contains_key(id) ==> record.authorized_accounts[id as int]
                == Some(p.authorized_account[id])
        }),
{
}

/// Lists describe a profile if and only if each workflow and each account bears the number of its
/// place, an account is in use unless it is dumped and has a key of 32 bytes, there is a place for
/// the authorization of each workflow, and the accounts of the authorizations and the workflow of
/// the session exist.
pub proof fn law_lists_that_describe_a_profile(record: RecordView)
    requires
        record.workflows.len() <= u64::MAX,
        record.external_accounts.len() <= u64::MAX,
    ensures
        record.valid() <==> {
            &&& record.authorized_accounts.len() == record.workflows.len()
            &&& forall|i: int|
                0 <= i < record.workflows.len() ==> (#[trigger] record.workflows[i]).id == i
            &&& forall|i: int|
                0 <= i < record.external_accounts.len() ==> {
                    let account = #[trigger] record.external_accounts[i];
                    &&& account.id == i
                    &&& account.enabled <==> account.account_type != ExternalAccountType::Dumped
                    &&& account.sk.len() == 32
                }
            &&& forall|i: int|
                0 <= i < record.authorized_accounts.len() ==> (
                #[trigger] record.authorized_accounts[i] matches Some(account) ==> account
                    < record.external_accounts.len())
            &&& record.workflow_session matches Some(workflow) ==> workflow
                < record.workflows.len()
        },
{
    let p = record.profile();
    if record.valid() {
        assert forall|i: int| 0 <= i < record.workflows.len() implies (
        #[trigger] record.workflows[i]).id == i by {
            assert(p.workflows.contains_key(i as u64));
        }
        assert forall|i: int| 0 <= i < record.external_accounts.len() implies {
            let account = #[trigger] record.external_accounts[i];
            &&& account.id == i
            &&& account.enabled <==> account.account_type != ExternalAccountType::Dumped
            &&& account.sk.len() == 32
        } by {
            assert(p.external_accounts.contains_key(i as u64));
            assert(p.external_accounts[i as u64].wf(i as u64));
        }
        assert forall|i: int| 0 <= i < record.authorized_accounts.len() implies (
        #[trigger] record.authorized_accounts[i] matches Some(account) ==> account
            < record.external_accounts.len()) by {
            if record.authorized_accounts[i] is Some {
                assert(p.authorized_account.contains_key(i as u64));
            }
        }
    }
}

} // verus!
