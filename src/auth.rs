//! The authorization predicates run before any record is changed.
use crate::state::{keys_equal, ContributorReputation, ErrorCode, ProgramConfig, TaskConfig};
use vstd::prelude::*;

verus! {

/// Allows only the configured oracle authority.
pub fn is_oracle(config: &ProgramConfig, signer: &[u8; 32]) -> (r: Result<(), ErrorCode>)
    ensures
        r == (if config.oracle_authority@ == signer@ {
            Ok::<(), ErrorCode>(())
        } else {
            Err(ErrorCode::InvalidOracle)
        }),
{
    if keys_equal(&config.oracle_authority, signer) {
        Ok(())
    } else {
        Err(ErrorCode::InvalidOracle)
    }
}

/// Allows only the owner of the task.
pub fn is_task_owner(task: &TaskConfig, signer: &[u8; 32]) -> (r: Result<(), ErrorCode>)
    ensures
        r == (if task.owner@ == signer@ {
            Ok::<(), ErrorCode>(())
        } else {
            Err(ErrorCode::AuthorizationDenied)
        }),
{
    if keys_equal(&task.owner, signer) {
        Ok(())
    } else {
        Err(ErrorCode::AuthorizationDenied)
    }
}

/// Allows only a reputation record that belongs to the task at `task_address`.
pub fn owns_reputation(reputation: &ContributorReputation, task_address: &[u8; 32]) -> (r: Result<
    (),
    ErrorCode,
>)
    ensures
        r == (if reputation.task@ == task_address@ {
            Ok::<(), ErrorCode>(())
        } else {
            Err(ErrorCode::AuthorizationDenied)
        }),
{
    if keys_equal(&reputation.task, task_address) {
        Ok(())
    } else {
        Err(ErrorCode::AuthorizationDenied)
    }
}

} // verus!
