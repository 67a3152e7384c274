//! Permissions: the bodies of the permission endpoints.

use vstd::prelude::*;

verus! {

/// The body of a request to create a permission.
#[derive(Debug)]
pub struct CreatePermissionDto {
    /// The permission's kind.
    pub kind: String,
    /// The permission's code.
    pub code: String,
    /// The permission's description.
    pub description: Option<String>,
    /// The parent permission's id, if any.
    pub parent_id: Option<u128>,
}

/// What the permission service is asked to create.
#[derive(Debug)]
pub struct CreatePermissionParams {
    /// The permission's kind.
    pub kind: String,
    /// The permission's code.
    pub code: String,
    /// The permission's description.
    pub description: Option<String>,
    /// The parent permission's id, if any.
    pub parent_id: Option<u128>,
}

impl CreatePermissionDto {
    /// The parameters for the service, field by field.
    pub fn into_params(self) -> (res: CreatePermissionParams)
        ensures
            res.kind == self.kind,
            res.code == self.code,
            res.description == self.description,
            res.parent_id == self.parent_id,
    {
        CreatePermissionParams { kind: self.kind, code: self.code, description: self.description, parent_id: self.parent_id }
    }
}

/// The ids of the permissions to delete.
#[derive(Debug)]
pub struct DeletePermissionsRequestDto(pub Vec<u128>);

/// The permissions that the service deletes.
#[derive(Debug)]
pub struct DeletePermissionsParams(pub Vec<u128>);

impl DeletePermissionsRequestDto {
    /// The parameters for the service, field by field.
    pub fn into_params(self) -> (res: DeletePermissionsParams)
        ensures
            res.0 == self.0,
    {
        DeletePermissionsParams(self.0)
    }
}

/// The filter of the permission list.
#[derive(Debug)]
pub struct FilterPermissionsDto {
    /// The kind to look for, if any.
    pub kind: Option<String>,
}

/// The filter that the permission service applies.
#[derive(Debug)]
pub struct FilterPermissionsParams {
    /// The kind to look for, if any.
    pub kind: Option<String>,
}

impl FilterPermissionsDto {
    /// The parameters for the service, field by field.
    pub fn into_params(self) -> (res: FilterPermissionsParams)
        ensures
            res.kind == self.kind,
    {
        FilterPermissionsParams { kind: self.kind }
    }
}

} // verus!
