//! Signing: what the signer is asked for, and what its reply means.
use vstd::prelude::*;

use crate::transaction::{ParametersView, TransactionParameters};
use crate::types::Error;

verus! {

/// What the signer is to do: sign a transaction with a key, and look up what the parameters leave
/// open at an endpoint.
#[derive(Debug)]
pub struct SigningJob {
    pub rpc: String,
    pub sk: [u8; 32],
    pub parameters: TransactionParameters,
}

/// View of a [`SigningJob`].
pub struct SigningJobView {
    pub rpc: Seq<char>,
    pub sk: Seq<u8>,
    pub parameters: ParametersView,
}

impl View for SigningJob {
    type V = SigningJobView;

    open spec fn view(&self) -> SigningJobView {
        SigningJobView { rpc: self.rpc@, sk: self.sk@, parameters: self.parameters@ }
    }
}

/// What the signer's reply, the raw signed transaction or a description of what went wrong, means
/// for the request.
pub fn finish_signing(reply: Result<Vec<u8>, String>) -> (r: Result<Vec<u8>, Error>)
    ensures
        match reply {
            Ok(raw) => r matches Ok(signed) && signed@ == raw@,
            Err(description) => r matches Err(Error::FailedToSignTransaction(text)) && text@
                == description@,
        },
{
    match reply {
        Ok(raw) => Ok(raw),
        Err(description) => Err(Error::FailedToSignTransaction(description)),
    }
}

/// The view of a job shows what the job holds.
pub proof fn law_signing_job_is_shown_as_it_is(job: SigningJob)
    ensures
        job@.rpc == job.rpc@,
        job@.sk == job.sk@,
        job@.parameters == job.parameters@,
{
}

} // verus!
