//! Rules on accounts: who counts as an administrator, and when a password
//! may be reset.

use crate::text::{opt_text, same_text};
use vstd::prelude::*;

verus! {

/// What a request to reset a password comes to.
#[derive(Clone, Copy, Debug, PartialEq, Eq, Structural)]
pub enum ResetCheck {
    /// No account answers to the address.
    UnknownUser,
    /// The account is not an administrator's.
    NotAdmin,
    /// The new password is shorter than the least length.
    PasswordTooShort,
    /// The password may be reset.
    Allowed,
}

/// The least length of a password, in bytes.
pub const MIN_PASSWORD_LEN: usize = 6;

/// Whether a role is that of an administrator.
pub open spec fn is_admin_role(role: Seq<char>) -> bool {
    role == "admin"@
}

/// What a request to reset a password comes to, given the role of the
/// account (`None` where there is no account) and the length of the new
/// password: the account is looked at first, then its role, then the
/// password.
pub open spec fn reset_check_of(role: Option<Seq<char>>, password_len: int) -> ResetCheck {
    match role {
        None => ResetCheck::UnknownUser,
        Some(r) => if !is_admin_role(r) {
            ResetCheck::NotAdmin
        } else if password_len < 6 {
            ResetCheck::PasswordTooShort
        } else {
            ResetCheck::Allowed
        },
    }
}

/// Whether a role is that of an administrator.
pub fn is_admin(role: &str) -> (yes: bool)
    ensures
        yes == is_admin_role(role@),
{
    same_text(role, "admin")
}

/// What a request to reset a password comes to, given the role of the
/// account (`None` where there is no account) and the length of the new
/// password.
pub fn reset_check(role: &Option<String>, password_len: usize) -> (c: ResetCheck)
    ensures
        c == reset_check_of(opt_text(*role), password_len as int),
{
    match role {
        None => ResetCheck::UnknownUser,
        Some(r) => {
            if !is_admin(r.as_str()) {
                ResetCheck::NotAdmin
            } else if password_len < MIN_PASSWORD_LEN {
                ResetCheck::PasswordTooShort
            } else {
                ResetCheck::Allowed
            }
        },
    }
}

} // verus!
