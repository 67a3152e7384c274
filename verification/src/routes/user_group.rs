//! User groups: the bodies of the user group endpoints.

use vstd::prelude::*;

verus! {

/// The body of a request to create a user group.
#[derive(Debug)]
pub struct CreateGroupRequestDto {
    /// The parent group's id, if any.
    pub parent_id: Option<u128>,
    /// The group's name.
    pub name: String,
    /// The group's description.
    pub description: Option<String>,
}

/// The filter of the user group list.
#[derive(Debug)]
pub struct FilterGroupsDto {
    /// The name to look for, if any.
    pub name: Option<String>,
}

/// The filter that the user group service applies.
#[derive(Debug)]
pub struct UserGroupsFilterParams {
    /// The name to look for, if any.
    pub name: Option<String>,
}

impl FilterGroupsDto {
    /// The parameters for the service, field by field.
    pub fn into_params(self) -> (res: UserGroupsFilterParams)
        ensures
            res.name == self.name,
    {
        UserGroupsFilterParams { name: self.name }
    }
}

/// The ids of the user groups to delete.
#[derive(Debug)]
pub struct DeleteGroupsRequestDto(pub Vec<u128>);

/// The user groups that the service deletes.
#[derive(Debug)]
pub struct DeleteGroupsParams(pub Vec<u128>);

impl DeleteGroupsRequestDto {
    /// The parameters for the service, field by field.
    pub fn into_params(self) -> (res: DeleteGroupsParams)
        ensures
            res.0 == self.0,
    {
        DeleteGroupsParams(self.0)
    }
}

/// The body of a request to update a user group.
#[derive(Debug)]
pub struct UpdateGroupRequestDto {
    /// The group's id.
    pub id: u128,
    /// The new parent, if it changes.
    pub parent_id: Option<u128>,
    /// The new name, if it changes.
    pub name: Option<String>,
    /// The new description, if it changes.
    pub description: Option<String>,
}

/// What the user group service is asked to change.
#[derive(Debug)]
pub struct UpdateGroupParams {
    /// The group's id.
    pub id: u128,
    /// The new parent, if it changes.
    pub parent_id: Option<u128>,
    /// The new name, if it changes.
    pub name: Option<String>,
    /// The new description, if it changes.
    pub description: Option<String>,
}

impl UpdateGroupRequestDto {
    /// The parameters for the service, field by field.
    pub fn into_params(self) -> (res: UpdateGroupParams)
        ensures
            res.id == self.id,
            res.parent_id == self.parent_id,
            res.name == self.name,
            res.description == self.description,
    {
        UpdateGroupParams { id: self.id, parent_id: self.parent_id, name: self.name, description: self.description }
    }
}

} // verus!
