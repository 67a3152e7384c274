//! The body of a request to grant a user one permission, and what the
//! authentication service is asked to grant.

use vstd::prelude::*;

verus! {

/// The body of a request to give a user one permission.
#[derive(Debug)]
pub struct AssignUserPermissionDto {
    /// The user's id.
    pub user_id: u128,
    /// The permission's id.
    pub permission_id: u128,
}

/// What the authentication service grants: one permission to one user.
#[derive(Debug)]
pub struct AssignUserPermissionParams {
    /// The permission's id.
    pub permission_id: u128,
    /// The user's id.
    pub user_id: u128,
}

impl AssignUserPermissionDto {
    /// The parameters for the service, field by field.
    pub fn into_params(self) -> (res: AssignUserPermissionParams)
        ensures
            res.permission_id == self.permission_id,
            res.user_id == self.user_id,
    {
        AssignUserPermissionParams { permission_id: self.permission_id, user_id: self.user_id }
    }
}

} // verus!
