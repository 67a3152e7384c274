//! The bodies of requests to filter and to update user groups, and what the
//! group service is asked to do.

use vstd::prelude::*;

verus! {

/// The filter of the group list.
#[derive(Debug)]
pub struct FilterGroupsDto {
    /// The name to look for, if any.
    pub name: Option<String>,
}

/// The filter that the group service applies.
#[derive(Debug)]
pub struct FilterGroupsParams {
    /// The name to look for, if any.
    pub name: Option<String>,
}

impl FilterGroupsDto {
    /// The parameters for the service, field by field.
    pub fn into_params(self) -> (res: FilterGroupsParams)
        ensures
            res.name == self.name,
    {
        FilterGroupsParams { name: self.name }
    }
}

/// The body of a request to update a group.
#[derive(Debug)]
pub struct UpdateGroupRequestDto {
    /// The group's id.
    pub id: u128,
    /// The new parent, if it changes.
    pub parent_id: Option<u128>,
    /// The new name, if it changes.
    pub name: Option<String>,
    /// The new description, if it changes.
    pub description: Option<String>,
}

/// What the group service is asked to change.
#[derive(Debug)]
pub struct UpdateGroupParams {
    /// The group's id.
    pub id: u128,
    /// The new parent, if it changes.
    pub parent_id: Option<u128>,
    /// The new name, if it changes.
    pub name: Option<String>,
    /// The new description, if it changes.
    pub description: Option<String>,
}

impl UpdateGroupRequestDto {
    /// The parameters for the service, field by field.
    pub fn into_params(self) -> (res: UpdateGroupParams)
        ensures
            res.id == self.id,
            res.parent_id == self.parent_id,
            res.name == self.name,
            res.description == self.description,
    {
        UpdateGroupParams { id: self.id, parent_id: self.parent_id, name: self.name, description: self.description }
    }
}

} // verus!
