//! The body of a request to create a user with an account and a password.

use vstd::prelude::*;

verus! {

/// The body of a request to create a user.
#[derive(Debug)]
pub struct CreateUserDto {
    /// The account name.
    pub account: String,
    /// The password.
    pub password: String,
}

} // verus!
