//! Profiles: the workflows of one owner, and the external (EVM) accounts that these may use.
//!
//! A [`BrickProfile`] answers requests. Whatever is for the owner alone takes the caller as an
//! argument and refuses everyone else. A poll opens the session of a workflow and answers with the
//! call that runs it; while the session is open, the workflow may ask for the address of the
//! account for which it is authorized, and have transactions signed with its key.
//!
//! What a request answers and what it leaves behind is stated over the model in [`state`]. When each
//! request is granted, what it changes and what it leaves alone is proved in [`requests`], and what
//! holds across requests in [`laws`] and [`record`].

pub mod host;
pub mod keys;
pub mod laws;
pub mod poll;
pub mod profile;
pub mod record;
pub mod requests;
pub mod signing;
pub mod state;
pub mod text;
pub mod transaction;
pub mod types;

pub use poll::{check_poll_id, finish_poll, RunCall};
pub use profile::BrickProfile;
pub use record::ProfileRecord;
pub use signing::{finish_signing, SigningJob};
pub use transaction::{TransactionParameters, TransactionRequest};
pub use types::{
    AccountId, Error, ExternalAccount, ExternalAccountId, ExternalAccountInfo,
    ExternalAccountType, VersionTuple, Workflow, WorkflowId, WorkflowInfo, H160,
};
