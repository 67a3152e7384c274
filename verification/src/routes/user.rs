//! Users: the bodies of the user endpoints.

use vstd::prelude::*;

verus! {

/// The body of a request to create a user; the password is RSA-encrypted and base64-encoded.
#[derive(Debug)]
pub struct CreateUserDto {
    /// The account name.
    pub account: String,
    /// The encrypted password.
    pub password: String,
}

/// The filter of the user list.
#[derive(Debug)]
pub struct UserFilterDto {
    /// The account to look for, if any.
    pub account: Option<String>,
}

/// The filter that the user service applies.
#[derive(Debug)]
pub struct FilterUsersParams {
    /// The account to look for, if any.
    pub account: Option<String>,
}

impl UserFilterDto {
    /// The parameters for the service, field by field.
    pub fn into_params(self) -> (res: FilterUsersParams)
        ensures
            res.account == self.account,
    {
        FilterUsersParams { account: self.account }
    }
}

/// The ids of the users to delete.
#[derive(Debug)]
pub struct DeleteUsersRequestDto(pub Vec<u128>);

/// The users that the service deletes.
#[derive(Debug)]
pub struct DeleteUsersParams(pub Vec<u128>);

impl DeleteUsersRequestDto {
    /// The parameters for the service, field by field.
    pub fn into_params(self) -> (res: DeleteUsersParams)
        ensures
            res.0 == self.0,
    {
        DeleteUsersParams(self.0)
    }
}

} // verus!
