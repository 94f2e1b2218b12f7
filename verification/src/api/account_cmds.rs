//! Account commands: logging in and out and managing an account.

use vstd::prelude::*;
use crate::api::types::AccountId;

verus! {

/// Change the email address associated with the account.
#[derive(Debug, Clone, PartialEq)]
pub struct ChangeEmail {
    /// The new email address.
    pub email: String,
    /// The account's password.
    pub password: String,
}

/// Reports whether the email change succeeded.
#[derive(Debug, Clone, PartialEq)]
pub struct ChangeEmailReply {
    /// True if the email address was changed.
    pub success: bool,
    /// If the change failed, the reason for failure.
    pub reason: Option<String>,
    /// Whether the new address must still be verified.
    pub verification_needed: bool,
}

/// Change the name associated with the account.
#[derive(Debug, Clone, PartialEq)]
pub struct ChangeName {
    /// The new name.
    pub name: String,
}

/// Confirms the name change.
#[derive(Debug, Clone, PartialEq)]
pub struct ChangeNameReply {
    /// The name associated with the account henceforth.
    pub name: String,
}

/// Change the account's password.
#[derive(Debug, Clone, PartialEq)]
pub struct ChangePassword {
    /// The current password.
    pub old_password: String,
    /// The new password.
    pub new_password: String,
}

/// Confirms the password change.
#[derive(Debug, Clone, Copy, PartialEq, Eq, Structural)]
pub struct ChangePasswordReply;

/// Log into an account.
#[derive(Debug, Clone, PartialEq)]
pub struct Login {
    /// The namespace of the personal identifier.
    pub namespace: String,
    /// The id of the personal identifier.
    pub id: String,
    /// The account's password.
    pub password: String,
}

/// Reports whether the login succeeded.
#[derive(Debug, Clone, PartialEq)]
pub struct LoginReply {
    /// True if the client is now logged in.
    pub success: bool,
    /// If the login failed, the reason for failure.
    pub reason: Option<String>,
    /// If the login succeeded, the id of the account.
    pub account_id: Option<AccountId>,
}

/// Log out of the current account.
#[derive(Debug, Clone, Copy, PartialEq, Eq, Structural)]
pub struct Logout;

/// Confirms the logout.
#[derive(Debug, Clone, Copy, PartialEq, Eq, Structural)]
pub struct LogoutReply;

/// Create a new account.
#[derive(Debug, Clone, PartialEq)]
pub struct RegisterAccount {
    /// The namespace of the personal identifier.
    pub namespace: String,
    /// The id of the personal identifier.
    pub id: String,
    /// The password for the new account.
    pub password: String,
}

/// Reports whether the account was created.
#[derive(Debug, Clone, PartialEq)]
pub struct RegisterAccountReply {
    /// True if the account was created.
    pub success: bool,
    /// If the registration failed, the reason for failure.
    pub reason: Option<String>,
    /// If the registration succeeded, the id of the new account.
    pub account_id: Option<AccountId>,
}

/// Ask for the verification email to be sent again.
#[derive(Debug, Clone, Copy, PartialEq, Eq, Structural)]
pub struct ResendVerificationEmail;

/// Confirms that the verification email was sent.
#[derive(Debug, Clone, Copy, PartialEq, Eq, Structural)]
pub struct ResendVerificationEmailReply;

/// Start a password reset for an account.
#[derive(Debug, Clone, PartialEq)]
pub struct ResetPassword {
    /// The namespace of the personal identifier.
    pub namespace: String,
    /// The id of the personal identifier.
    pub id: String,
}

/// Confirms that the password reset was started.
#[derive(Debug, Clone, Copy, PartialEq, Eq, Structural)]
pub struct ResetPasswordReply;

} // verus!
