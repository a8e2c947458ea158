//! Pre-flight checks of the provisioner, the administrative drop-and-recreate
//! escape hatch. Every check here must pass before any destructive command
//! may be issued; the destructive work itself, and the reconciliation that
//! repopulates the fresh database, are the caller's to run afterwards.
use vstd::prelude::*;

use crate::errors::PrivilegeReason;
use crate::errors::RevError;

verus! {

/// Gates a rebuild on what the connection target discloses: it is refused
/// outside unsafe mode, without a login user, or without a non-empty
/// database name, in that order; otherwise the user and database the
/// destructive commands will run against are handed back.
pub fn check_rebuild_preflight(
    unsafe_mode: bool,
    username: Option<String>,
    database: Option<String>,
) -> (r: Result<(String, String), RevError>)
    ensures
        match r {
            Ok((user, db)) => {
                &&& unsafe_mode
                &&& username matches Some(u) && user@ == u@
                &&& database matches Some(d) && db@ == d@
                &&& db@.len() > 0
            },
            Err(e) => match e {
                RevError::Privilege { reason } => match reason {
                    PrivilegeReason::NotUnsafeMode => !unsafe_mode,
                    PrivilegeReason::MissingUsername => unsafe_mode && username is None,
                    PrivilegeReason::MissingDatabaseName => {
                        &&& unsafe_mode
                        &&& username is Some
                        &&& match database {
                            Some(d) => d@.len() == 0,
                            None => true,
                        }
                    },
                    PrivilegeReason::NoCreatePrivilege => false,
                },
                _ => false,
            },
        },
{
    if !unsafe_mode {
        return Err(RevError::Privilege { reason: PrivilegeReason::NotUnsafeMode });
    }
    let user = match username {
        Some(u) => u,
        None => {
            return Err(RevError::Privilege { reason: PrivilegeReason::MissingUsername });
        },
    };
    let db = match database {
        Some(d) => d,
        None => {
            return Err(RevError::Privilege { reason: PrivilegeReason::MissingDatabaseName });
        },
    };
    if db.as_str().is_empty() {
        return Err(RevError::Privilege { reason: PrivilegeReason::MissingDatabaseName });
    }
    Ok((user, db))
}

/// Decides the create-privilege probe: the lookup of the login user among
/// the users allowed to create databases must match exactly one row.
pub fn check_create_privilege(matching_users: u64) -> (r: Result<(), RevError>)
    ensures
        r is Ok <==> matching_users == 1,
        r matches Err(e) ==> e matches RevError::Privilege {
            reason: PrivilegeReason::NoCreatePrivilege,
        },
{
    if matching_users == 1 {
        Ok(())
    } else {
        Err(RevError::Privilege { reason: PrivilegeReason::NoCreatePrivilege })
    }
}

} // verus!
