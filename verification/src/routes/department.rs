//! Departments: the bodies of the department endpoints.

use vstd::prelude::*;

verus! {

/// The body of a request to create a department.
#[derive(Debug)]
pub struct CreateDepartmentRequestDto {
    /// The parent department's id, if any.
    pub parent_id: Option<u128>,
    /// The department's name.
    pub name: String,
    /// The department's description.
    pub description: Option<String>,
}

/// What the department service is asked to create.
#[derive(Debug)]
pub struct CreateDepartmentParams {
    /// The parent department's id, if any.
    pub parent_id: Option<u128>,
    /// The department's name.
    pub name: String,
    /// The department's description.
    pub description: Option<String>,
}

impl CreateDepartmentRequestDto {
    /// The parameters for the service, field by field.
    pub fn into_params(self) -> (res: CreateDepartmentParams)
        ensures
            res.parent_id == self.parent_id,
            res.name == self.name,
            res.description == self.description,
    {
        CreateDepartmentParams { parent_id: self.parent_id, name: self.name, description: self.description }
    }
}

/// The filter of the department list.
#[derive(Debug)]
pub struct FilterDepartmentsDto {
    /// The name to look for, if any.
    pub name: Option<String>,
}

/// The filter that the department service applies.
#[derive(Debug)]
pub struct FilterDepartmentsParams {
    /// The name to look for, if any.
    pub name: Option<String>,
}

impl FilterDepartmentsDto {
    /// The parameters for the service, field by field.
    pub fn into_params(self) -> (res: FilterDepartmentsParams)
        ensures
            res.name == self.name,
    {
        FilterDepartmentsParams { name: self.name }
    }
}

/// The ids of the departments to delete.
#[derive(Debug)]
pub struct DeleteDepartmentsRequestDto(pub Vec<u128>);

/// The departments that the service deletes.
#[derive(Debug)]
pub struct DeleteDepartmentsParams(pub Vec<u128>);

impl DeleteDepartmentsRequestDto {
    /// The parameters for the service, field by field.
    pub fn into_params(self) -> (res: DeleteDepartmentsParams)
        ensures
            res.0 == self.0,
    {
        DeleteDepartmentsParams(self.0)
    }
}

/// The body of a request to update a department.
#[derive(Debug)]
pub struct UpdateDepartmentRequestDto {
    /// The department's id.
    pub id: u128,
    /// The new parent, if it changes.
    pub parent_id: Option<u128>,
    /// The new name, if it changes.
    pub name: Option<String>,
    /// The new description, if it changes.
    pub description: Option<String>,
}

/// What the department service is asked to change.
#[derive(Debug)]
pub struct UpdateDepartmentParams {
    /// The department's id.
    pub id: u128,
    /// The new parent, if it changes.
    pub parent_id: Option<u128>,
    /// The new name, if it changes.
    pub name: Option<String>,
    /// The new description, if it changes.
    pub description: Option<String>,
}

impl UpdateDepartmentRequestDto {
    /// The parameters for the service, field by field.
    pub fn into_params(self) -> (res: UpdateDepartmentParams)
        ensures
            res.id == self.id,
            res.parent_id == self.parent_id,
            res.name == self.name,
            res.description == self.description,
    {
        UpdateDepartmentParams { id: self.id, parent_id: self.parent_id, name: self.name, description: self.description }
    }
}

} // verus!
