//! The enumerations shared by the service: gender, permission kinds and the
//! operation permissions that guard the endpoints.  Each has a snake_case
//! name, which is how it is stored and displayed.

use vstd::prelude::*;

verus! {

/// Whether a string holds the text of a literal.
fn text_is(s: &String, literal: &str) -> (res: bool)
    ensures
        res == (s@ == literal@),
{
    *s == literal.to_owned()
}

/// A person's gender as recorded on a user.
#[derive(Debug, Clone, Copy, PartialEq, Eq, Structural)]
pub enum Gender {
    /// Not recorded; the default.
    Unknown,
    Male,
    Female,
}

impl Gender {
    /// The snake_case name of the variant, as the service stores and displays it.
    pub open spec fn spec_text(self) -> Seq<char> {
        match self {
            Gender::Unknown => "unknown"@,
            Gender::Male => "male"@,
            Gender::Female => "female"@,
        }
    }

    /// The snake_case name of the variant.
    pub fn to_text(&self) -> (res: String)
        ensures
            res@ == self.spec_text(),
    {
        match self {
            Gender::Unknown => "unknown".to_owned(),
            Gender::Male => "male".to_owned(),
            Gender::Female => "female".to_owned(),
        }
    }

    fn find_by_text(text: &str) -> (res: Option<Self>)
        ensures
            match res {
                Some(v) => v.spec_text() == text@,
                None => forall|v: Gender| #[trigger] v.spec_text() != text@,
            },
    {
        let owned = text.to_owned();
        if text_is(&owned, "unknown") {
            return Some(Gender::Unknown);
        }
        if text_is(&owned, "male") {
            return Some(Gender::Male);
        }
        if text_is(&owned, "female") {
            return Some(Gender::Female);
        }
        assert forall|v: Gender| #[trigger] v.spec_text() != text@ by {
            match v {
                Gender::Unknown => {},
                Gender::Male => {},
                Gender::Female => {},
            }
        }
        None
    }

    /// The variant whose snake_case name is the text, if any; the inverse of
    /// `to_text`.
    pub fn parse(text: &str) -> (res: Option<Self>)
        ensures
            match res {
                Some(v) => v.spec_text() == text@,
                None => forall|v: Gender| #[trigger] v.spec_text() != text@,
            },
            forall|v: Gender| #[trigger] v.spec_text() == text@ ==> res == Some(v),
    {
        let res = Self::find_by_text(text);
        assert forall|v: Gender| #[trigger] v.spec_text() == text@ implies res == Some(v) by {
            if let Some(w) = res {
                lemma_gender_text_injective(v, w);
            }
        }
        res
    }
}

/// Distinct variants of `Gender` have distinct names.
spec fn gender_from_text_key(t: Seq<char>) -> Option<Gender> {
    if t.len() == 7 {
        Some(Gender::Unknown)
    } else if t.len() == 4 {
        Some(Gender::Male)
    } else if t.len() == 6 {
        Some(Gender::Female)
    } else {
        None
    }
}

/// Distinct variants of `Gender` have distinct names.
pub proof fn lemma_gender_text_injective(a: Gender, b: Gender)
    requires
        a.spec_text() == b.spec_text(),
    ensures
        a == b,
{
    lemma_gender_text_key(a);
    lemma_gender_text_key(b);
}

proof fn lemma_gender_text_key(v: Gender)
    ensures
        gender_from_text_key(v.spec_text()) == Some(v),
{
    match v {
        Gender::Unknown => {
            reveal_strlit("unknown");
        },
        Gender::Male => {
            reveal_strlit("male");
        },
        Gender::Female => {
            reveal_strlit("female");
        },
    }
}

impl Default for Gender {
    fn default() -> (res: Gender)
        ensures
            res == Gender::Unknown,
    {
        Gender::Unknown
    }
}

/// What a permission governs.
#[derive(Debug, Clone, Copy, PartialEq, Eq, Structural)]
pub enum PermissionKind {
    /// Visibility of a menu entry.
    Menu,
    /// Permission to call an operation.
    Operation,
    /// Access to data.
    Data,
}

impl PermissionKind {
    /// The snake_case name of the variant, as the service stores and displays it.
    pub open spec fn spec_text(self) -> Seq<char> {
        match self {
            PermissionKind::Menu => "menu"@,
            PermissionKind::Operation => "operation"@,
            PermissionKind::Data => "data"@,
        }
    }

    /// The snake_case name of the variant.
    pub fn to_text(&self) -> (res: String)
        ensures
            res@ == self.spec_text(),
    {
        match self {
            PermissionKind::Menu => "menu".to_owned(),
            PermissionKind::Operation => "operation".to_owned(),
            PermissionKind::Data => "data".to_owned(),
        }
    }

    fn find_by_text(text: &str) -> (res: Option<Self>)
        ensures
            match res {
                Some(v) => v.spec_text() == text@,
                None => forall|v: PermissionKind| #[trigger] v.spec_text() != text@,
            },
    {
        let owned = text.to_owned();
        if text_is(&owned, "menu") {
            return Some(PermissionKind::Menu);
        }
        if text_is(&owned, "operation") {
            return Some(PermissionKind::Operation);
        }
        if text_is(&owned, "data") {
            return Some(PermissionKind::Data);
        }
        assert forall|v: PermissionKind| #[trigger] v.spec_text() != text@ by {
            match v {
                PermissionKind::Menu => {},
                PermissionKind::Operation => {},
                PermissionKind::Data => {},
            }
        }
        None
    }

    /// The variant whose snake_case name is the text, if any; the inverse of
    /// `to_text`.
    pub fn parse(text: &str) -> (res: Option<Self>)
        ensures
            match res {
                Some(v) => v.spec_text() == text@,
                None => forall|v: PermissionKind| #[trigger] v.spec_text() != text@,
            },
            forall|v: PermissionKind| #[trigger] v.spec_text() == text@ ==> res == Some(v),
    {
        let res = Self::find_by_text(text);
        assert forall|v: PermissionKind| #[trigger] v.spec_text() == text@ implies res == Some(v) by {
            if let Some(w) = res {
                lemma_permission_kind_text_injective(v, w);
            }
        }
        res
    }
}

/// Distinct variants of `PermissionKind` have distinct names.
spec fn permission_kind_from_text_key(t: Seq<char>) -> Option<PermissionKind> {
    if t.len() == 4 && t[0] == 'm' {
        Some(PermissionKind::Menu)
    } else if t.len() == 9 && t[0] == 'o' {
        Some(PermissionKind::Operation)
    } else if t.len() == 4 && t[0] == 'd' {
        Some(PermissionKind::Data)
    } else {
        None
    }
}

/// Distinct variants of `PermissionKind` have distinct names.
pub proof fn lemma_permission_kind_text_injective(a: PermissionKind, b: PermissionKind)
    requires
        a.spec_text() == b.spec_text(),
    ensures
        a == b,
{
    lemma_permission_kind_text_key(a);
    lemma_permission_kind_text_key(b);
}

proof fn lemma_permission_kind_text_key(v: PermissionKind)
    ensures
        permission_kind_from_text_key(v.spec_text()) == Some(v),
{
    match v {
        PermissionKind::Menu => {
            reveal_strlit("menu");
        },
        PermissionKind::Operation => {
            reveal_strlit("operation");
        },
        PermissionKind::Data => {
            reveal_strlit("data");
        },
    }
}
/// The operations that a session needs a permission for.
#[derive(Debug, Clone, Copy, PartialEq, Eq, Structural)]
pub enum OperationPermission {
    QueryUsers,
    CreateUser,
    UpdateUser,
    DeleteUser,
    QueryRoles,
    CreateRole,
    UpdateRole,
    DeleteRole,
    QueryPermissions,
    CreatePermission,
    UpdatePermission,
    DeletePermission,
    QueryGroups,
    CreateGroup,
    UpdateGroup,
    DeleteGroup,
    QueryDepartments,
    CreateDepartment,
    UpdateDepartment,
    DeleteDepartment,
    AssignUserPermissions,
    QueryUserPermissions,
    QueryGroupPermissions,
    QueryDepartmentPermissions,
    QueryRolePermissions,
    QueryRoleGroupPermissions,
    QueryPermissionGroupPermissions,
}

impl OperationPermission {
    /// The snake_case name of the variant, as the service stores and displays it.
    pub open spec fn spec_text(self) -> Seq<char> {
        match self {
            OperationPermission::QueryUsers => "query_users"@,
            OperationPermission::CreateUser => "create_user"@,
            OperationPermission::UpdateUser => "update_user"@,
            OperationPermission::DeleteUser => "delete_user"@,
            OperationPermission::QueryRoles => "query_roles"@,
            OperationPermission::CreateRole => "create_role"@,
            OperationPermission::UpdateRole => "update_role"@,
            OperationPermission::DeleteRole => "delete_role"@,
            OperationPermission::QueryPermissions => "query_permissions"@,
            OperationPermission::CreatePermission => "create_permission"@,
            OperationPermission::UpdatePermission => "update_permission"@,
            OperationPermission::DeletePermission => "delete_permission"@,
            OperationPermission::QueryGroups => "query_groups"@,
            OperationPermission::CreateGroup => "create_group"@,
            OperationPermission::UpdateGroup => "update_group"@,
            OperationPermission::DeleteGroup => "delete_group"@,
            OperationPermission::QueryDepartments => "query_departments"@,
            OperationPermission::CreateDepartment => "create_department"@,
            OperationPermission::UpdateDepartment => "update_department"@,
            OperationPermission::DeleteDepartment => "delete_department"@,
            OperationPermission::AssignUserPermissions => "assign_user_permissions"@,
            OperationPermission::QueryUserPermissions => "query_user_permissions"@,
            OperationPermission::QueryGroupPermissions => "query_group_permissions"@,
            OperationPermission::QueryDepartmentPermissions => "query_department_permissions"@,
            OperationPermission::QueryRolePermissions => "query_role_permissions"@,
            OperationPermission::QueryRoleGroupPermissions => "query_role_group_permissions"@,
            OperationPermission::QueryPermissionGroupPermissions => "query_permission_group_permissions"@,
        }
    }

    /// The snake_case name of the variant.
    pub fn to_text(&self) -> (res: String)
        ensures
            res@ == self.spec_text(),
    {
        match self {
            OperationPermission::QueryUsers => "query_users".to_owned(),
            OperationPermission::CreateUser => "create_user".to_owned(),
            OperationPermission::UpdateUser => "update_user".to_owned(),
            OperationPermission::DeleteUser => "delete_user".to_owned(),
            OperationPermission::QueryRoles => "query_roles".to_owned(),
            OperationPermission::CreateRole => "create_role".to_owned(),
            OperationPermission::UpdateRole => "update_role".to_owned(),
            OperationPermission::DeleteRole => "delete_role".to_owned(),
            OperationPermission::QueryPermissions => "query_permissions".to_owned(),
            OperationPermission::CreatePermission => "create_permission".to_owned(),
            OperationPermission::UpdatePermission => "update_permission".to_owned(),
            OperationPermission::DeletePermission => "delete_permission".to_owned(),
            OperationPermission::QueryGroups => "query_groups".to_owned(),
            OperationPermission::CreateGroup => "create_group".to_owned(),
            OperationPermission::UpdateGroup => "update_group".to_owned(),
            OperationPermission::DeleteGroup => "delete_group".to_owned(),
            OperationPermission::QueryDepartments => "query_departments".to_owned(),
            OperationPermission::CreateDepartment => "create_department".to_owned(),
            OperationPermission::UpdateDepartment => "update_department".to_owned(),
            OperationPermission::DeleteDepartment => "delete_department".to_owned(),
            OperationPermission::AssignUserPermissions => "assign_user_permissions".to_owned(),
            OperationPermission::QueryUserPermissions => "query_user_permissions".to_owned(),
            OperationPermission::QueryGroupPermissions => "query_group_permissions".to_owned(),
            OperationPermission::QueryDepartmentPermissions => "query_department_permissions".to_owned(),
            OperationPermission::QueryRolePermissions => "query_role_permissions".to_owned(),
            OperationPermission::QueryRoleGroupPermissions => "query_role_group_permissions".to_owned(),
            OperationPermission::QueryPermissionGroupPermissions => "query_permission_group_permissions".to_owned(),
        }
    }

    fn find_by_text(text: &str) -> (res: Option<Self>)
        ensures
            match res {
                Some(v) => v.spec_text() == text@,
                None => forall|v: OperationPermission| #[trigger] v.spec_text() != text@,
            },
    {
        let owned = text.to_owned();
        if text_is(&owned, "query_users") {
            return Some(OperationPermission::QueryUsers);
        }
        if text_is(&owned, "create_user") {
            return Some(OperationPermission::CreateUser);
        }
        if text_is(&owned, "update_user") {
            return Some(OperationPermission::UpdateUser);
        }
        if text_is(&owned, "delete_user") {
            return Some(OperationPermission::DeleteUser);
        }
        if text_is(&owned, "query_roles") {
            return Some(OperationPermission::QueryRoles);
        }
        if text_is(&owned, "create_role") {
            return Some(OperationPermission::CreateRole);
        }
        if text_is(&owned, "update_role") {
            return Some(OperationPermission::UpdateRole);
        }
        if text_is(&owned, "delete_role") {
            return Some(OperationPermission::DeleteRole);
        }
        if text_is(&owned, "query_permissions") {
            return Some(OperationPermission::QueryPermissions);
        }
        if text_is(&owned, "create_permission") {
            return Some(OperationPermission::CreatePermission);
        }
        if text_is(&owned, "update_permission") {
            return Some(OperationPermission::UpdatePermission);
        }
        if text_is(&owned, "delete_permission") {
            return Some(OperationPermission::DeletePermission);
        }
        if text_is(&owned, "query_groups") {
            return Some(OperationPermission::QueryGroups);
        }
        if text_is(&owned, "create_group") {
            return Some(OperationPermission::CreateGroup);
        }
        if text_is(&owned, "update_group") {
            return Some(OperationPermission::UpdateGroup);
        }
        if text_is(&owned, "delete_group") {
            return Some(OperationPermission::DeleteGroup);
        }
        if text_is(&owned, "query_departments") {
            return Some(OperationPermission::QueryDepartments);
        }
        if text_is(&owned, "create_department") {
            return Some(OperationPermission::CreateDepartment);
        }
        if text_is(&owned, "update_department") {
            return Some(OperationPermission::UpdateDepartment);
        }
        if text_is(&owned, "delete_department") {
            return Some(OperationPermission::DeleteDepartment);
        }
        if text_is(&owned, "assign_user_permissions") {
            return Some(OperationPermission::AssignUserPermissions);
        }
        if text_is(&owned, "query_user_permissions") {
            return Some(OperationPermission::QueryUserPermissions);
        }
        if text_is(&owned, "query_group_permissions") {
            return Some(OperationPermission::QueryGroupPermissions);
        }
        if text_is(&owned, "query_department_permissions") {
            return Some(OperationPermission::QueryDepartmentPermissions);
        }
        if text_is(&owned, "query_role_permissions") {
            return Some(OperationPermission::QueryRolePermissions);
        }
        if text_is(&owned, "query_role_group_permissions") {
            return Some(OperationPermission::QueryRoleGroupPermissions);
        }
        if text_is(&owned, "query_permission_group_permissions") {
            return Some(OperationPermission::QueryPermissionGroupPermissions);
        }
        assert forall|v: OperationPermission| #[trigger] v.spec_text() != text@ by {
            match v {
                OperationPermission::QueryUsers => {},
                OperationPermission::CreateUser => {},
                OperationPermission::UpdateUser => {},
                OperationPermission::DeleteUser => {},
                OperationPermission::QueryRoles => {},
                OperationPermission::CreateRole => {},
                OperationPermission::UpdateRole => {},
                OperationPermission::DeleteRole => {},
                OperationPermission::QueryPermissions => {},
                OperationPermission::CreatePermission => {},
                OperationPermission::UpdatePermission => {},
                OperationPermission::DeletePermission => {},
                OperationPermission::QueryGroups => {},
                OperationPermission::CreateGroup => {},
                OperationPermission::UpdateGroup => {},
                OperationPermission::DeleteGroup => {},
                OperationPermission::QueryDepartments => {},
                OperationPermission::CreateDepartment => {},
                OperationPermission::UpdateDepartment => {},
                OperationPermission::DeleteDepartment => {},
                OperationPermission::AssignUserPermissions => {},
                OperationPermission::QueryUserPermissions => {},
                OperationPermission::QueryGroupPermissions => {},
                OperationPermission::QueryDepartmentPermissions => {},
                OperationPermission::QueryRolePermissions => {},
                OperationPermission::QueryRoleGroupPermissions => {},
                OperationPermission::QueryPermissionGroupPermissions => {},
            }
        }
        None
    }

    /// The variant whose snake_case name is the text, if any; the inverse of
    /// `to_text`.
    pub fn parse(text: &str) -> (res: Option<Self>)
        ensures
            match res {
                Some(v) => v.spec_text() == text@,
                None => forall|v: OperationPermission| #[trigger] v.spec_text() != text@,
            },
            forall|v: OperationPermission| #[trigger] v.spec_text() == text@ ==> res == Some(v),
    {
        let res = Self::find_by_text(text);
        assert forall|v: OperationPermission| #[trigger] v.spec_text() == text@ implies res == Some(v) by {
            if let Some(w) = res {
                lemma_operation_permission_text_injective(v, w);
            }
        }
        res
    }
}

/// Distinct variants of `OperationPermission` have distinct names.
spec fn operation_permission_from_text_key(t: Seq<char>) -> Option<OperationPermission> {
    if t.len() == 11 && t[0] == 'q' && t[9] == 'r' {
        Some(OperationPermission::QueryUsers)
    } else if t.len() == 11 && t[0] == 'c' && t[9] == 'e' {
        Some(OperationPermission::CreateUser)
    } else if t.len() == 11 && t[0] == 'u' && t[9] == 'e' {
        Some(OperationPermission::UpdateUser)
    } else if t.len() == 11 && t[0] == 'd' && t[9] == 'e' {
        Some(OperationPermission::DeleteUser)
    } else if t.len() == 11 && t[0] == 'q' && t[9] == 'e' {
        Some(OperationPermission::QueryRoles)
    } else if t.len() == 11 && t[0] == 'c' && t[9] == 'l' {
        Some(OperationPermission::CreateRole)
    } else if t.len() == 11 && t[0] == 'u' && t[9] == 'l' {
        Some(OperationPermission::UpdateRole)
    } else if t.len() == 11 && t[0] == 'd' && t[9] == 'l' {
        Some(OperationPermission::DeleteRole)
    } else if t.len() == 17 && t[0] == 'q' && t[9] == 'm' {
        Some(OperationPermission::QueryPermissions)
    } else if t.len() == 17 && t[0] == 'c' && t[9] == 'r' {
        Some(OperationPermission::CreatePermission)
    } else if t.len() == 17 && t[0] == 'u' && t[9] == 'r' {
        Some(OperationPermission::UpdatePermission)
    } else if t.len() == 17 && t[0] == 'd' && t[9] == 'r' {
        Some(OperationPermission::DeletePermission)
    } else if t.len() == 12 && t[0] == 'q' && t[9] == 'u' {
        Some(OperationPermission::QueryGroups)
    } else if t.len() == 12 && t[0] == 'c' && t[9] == 'o' {
        Some(OperationPermission::CreateGroup)
    } else if t.len() == 12 && t[0] == 'u' && t[9] == 'o' {
        Some(OperationPermission::UpdateGroup)
    } else if t.len() == 12 && t[0] == 'd' && t[9] == 'o' {
        Some(OperationPermission::DeleteGroup)
    } else if t.len() == 17 && t[0] == 'q' && t[9] == 'a' {
        Some(OperationPermission::QueryDepartments)
    } else if t.len() == 17 && t[0] == 'c' && t[9] == 'p' {
        Some(OperationPermission::CreateDepartment)
    } else if t.len() == 17 && t[0] == 'u' && t[9] == 'p' {
        Some(OperationPermission::UpdateDepartment)
    } else if t.len() == 17 && t[0] == 'd' && t[9] == 'p' {
        Some(OperationPermission::DeleteDepartment)
    } else if t.len() == 23 && t[0] == 'a' && t[9] == 'e' {
        Some(OperationPermission::AssignUserPermissions)
    } else if t.len() == 22 && t[0] == 'q' && t[9] == 'r' {
        Some(OperationPermission::QueryUserPermissions)
    } else if t.len() == 23 && t[0] == 'q' && t[9] == 'u' {
        Some(OperationPermission::QueryGroupPermissions)
    } else if t.len() == 28 && t[0] == 'q' && t[9] == 'a' {
        Some(OperationPermission::QueryDepartmentPermissions)
    } else if t.len() == 22 && t[0] == 'q' && t[9] == 'e' {
        Some(OperationPermission::QueryRolePermissions)
    } else if t.len() == 28 && t[0] == 'q' && t[9] == 'e' {
        Some(OperationPermission::QueryRoleGroupPermissions)
    } else if t.len() == 34 && t[0] == 'q' && t[9] == 'm' {
        Some(OperationPermission::QueryPermissionGroupPermissions)
    } else {
        None
    }
}

/// Distinct variants of `OperationPermission` have distinct names.
pub proof fn lemma_operation_permission_text_injective(a: OperationPermission, b: OperationPermission)
    requires
        a.spec_text() == b.spec_text(),
    ensures
        a == b,
{
    lemma_operation_permission_text_key(a);
    lemma_operation_permission_text_key(b);
}

proof fn lemma_operation_permission_text_key(v: OperationPermission)
    ensures
        operation_permission_from_text_key(v.spec_text()) == Some(v),
{
    match v {
        OperationPermission::QueryUsers => {
            reveal_strlit("query_users");
        },
        OperationPermission::CreateUser => {
            reveal_strlit("create_user");
        },
        OperationPermission::UpdateUser => {
            reveal_strlit("update_user");
        },
        OperationPermission::DeleteUser => {
            reveal_strlit("delete_user");
        },
        OperationPermission::QueryRoles => {
            reveal_strlit("query_roles");
        },
        OperationPermission::CreateRole => {
            reveal_strlit("create_role");
        },
        OperationPermission::UpdateRole => {
            reveal_strlit("update_role");
        },
        OperationPermission::DeleteRole => {
            reveal_strlit("delete_role");
        },
        OperationPermission::QueryPermissions => {
            reveal_strlit("query_permissions");
        },
        OperationPermission::CreatePermission => {
            reveal_strlit("create_permission");
        },
        OperationPermission::UpdatePermission => {
            reveal_strlit("update_permission");
        },
        OperationPermission::DeletePermission => {
            reveal_strlit("delete_permission");
        },
        OperationPermission::QueryGroups => {
            reveal_strlit("query_groups");
        },
        OperationPermission::CreateGroup => {
            reveal_strlit("create_group");
        },
        OperationPermission::UpdateGroup => {
            reveal_strlit("update_group");
        },
        OperationPermission::DeleteGroup => {
            reveal_strlit("delete_group");
        },
        OperationPermission::QueryDepartments => {
            reveal_strlit("query_departments");
        },
        OperationPermission::CreateDepartment => {
            reveal_strlit("create_department");
        },
        OperationPermission::UpdateDepartment => {
            reveal_strlit("update_department");
        },
        OperationPermission::DeleteDepartment => {
            reveal_strlit("delete_department");
        },
        OperationPermission::AssignUserPermissions => {
            reveal_strlit("assign_user_permissions");
        },
        OperationPermission::QueryUserPermissions => {
            reveal_strlit("query_user_permissions");
        },
        OperationPermission::QueryGroupPermissions => {
            reveal_strlit("query_group_permissions");
        },
        OperationPermission::QueryDepartmentPermissions => {
            reveal_strlit("query_department_permissions");
        },
        OperationPermission::QueryRolePermissions => {
            reveal_strlit("query_role_permissions");
        },
        OperationPermission::QueryRoleGroupPermissions => {
            reveal_strlit("query_role_group_permissions");
        },
        OperationPermission::QueryPermissionGroupPermissions => {
            reveal_strlit("query_permission_group_permissions");
        },
    }
}
} // verus!
