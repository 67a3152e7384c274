//! Roles: the bodies of the role endpoints.

use vstd::prelude::*;

verus! {

/// The body of a request to create a role.
#[derive(Debug)]
pub struct CreateRoleRequestDto {
    /// The role's name.
    pub name: String,
    /// The role's description.
    pub description: Option<String>,
    /// The parent role's id, if any.
    pub parent_id: Option<u128>,
}

/// What the role service is asked to create.
#[derive(Debug)]
pub struct CreateRoleParams {
    /// The role's name.
    pub name: String,
    /// The role's description.
    pub description: Option<String>,
    /// The parent role's id, if any.
    pub parent_id: Option<u128>,
}

impl CreateRoleRequestDto {
    /// The parameters for the service, field by field.
    pub fn into_params(self) -> (res: CreateRoleParams)
        ensures
            res.name == self.name,
            res.description == self.description,
            res.parent_id == self.parent_id,
    {
        CreateRoleParams { name: self.name, description: self.description, parent_id: self.parent_id }
    }
}

/// The filter of the role list.
#[derive(Debug)]
pub struct RoleFilterDto {
    /// The name to look for, if any.
    pub name: Option<String>,
}

/// The filter that the role service applies.
#[derive(Debug)]
pub struct FilterRolesParams {
    /// The name to look for, if any.
    pub name: Option<String>,
}

impl RoleFilterDto {
    /// The parameters for the service, field by field.
    pub fn into_params(self) -> (res: FilterRolesParams)
        ensures
            res.name == self.name,
    {
        FilterRolesParams { name: self.name }
    }
}

/// The ids of the roles to delete.
#[derive(Debug)]
pub struct DeleteRolesRequestDto(pub Vec<u128>);

/// The roles that the service deletes.
#[derive(Debug)]
pub struct DeleteRolesParams(pub Vec<u128>);

impl DeleteRolesRequestDto {
    /// The parameters for the service, field by field.
    pub fn into_params(self) -> (res: DeleteRolesParams)
        ensures
            res.0 == self.0,
    {
        DeleteRolesParams(self.0)
    }
}

/// The body of a request to update a role.
#[derive(Debug)]
pub struct UpdateRoleRequestDto {
    /// The role's id.
    pub id: u128,
    /// The new name, if it changes.
    pub name: Option<String>,
    /// The new description, if it changes.
    pub description: Option<String>,
}

/// What the role service is asked to change.
#[derive(Debug)]
pub struct UpdateRoleParams {
    /// The role's id.
    pub id: u128,
    /// The new name, if it changes.
    pub name: Option<String>,
    /// The new description, if it changes.
    pub description: Option<String>,
}

impl UpdateRoleRequestDto {
    /// The parameters for the service, field by field.
    pub fn into_params(self) -> (res: UpdateRoleParams)
        ensures
            res.id == self.id,
            res.name == self.name,
            res.description == self.description,
    {
        UpdateRoleParams { id: self.id, name: self.name, description: self.description }
    }
}

} // verus!
