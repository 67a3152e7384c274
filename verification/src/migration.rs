//! The SQL text and the names that the schema migrations use: the trigger
//! that keeps `updated_at` current, index, primary key and foreign key names,
//! and the data that the initial seeding migration inserts.

use vstd::prelude::*;
use vstd::string::StringExecFns;

use crate::enums::OperationPermission;
use crate::utils::{hash_password, password_matches};

verus! {

/// The texts of a list of strings.
pub open spec fn texts(items: Seq<String>) -> Seq<Seq<char>> {
    items.map_values(|s: String| s@)
}

/// The items joined by the separator.
pub open spec fn join(items: Seq<Seq<char>>, sep: Seq<char>) -> Seq<char>
    decreases items.len(),
{
    if items.len() == 0 {
        Seq::empty()
    } else if items.len() == 1 {
        items[0]
    } else {
        join(items.drop_last(), sep) + sep + items.last()
    }
}

/// Joins strings with a separator.
pub fn join_strings(items: &Vec<String>, sep: &str) -> (res: String)
    ensures
        res@ == join(texts(items@), sep@),
{
    let mut res = String::new();
    let mut i: usize = 0;
    while i < items.len()
        invariant
            i <= items@.len(),
            res@ == join(texts(items@).take(i as int), sep@),
        decreases items@.len() - i,
    {
        assert(texts(items@).take(i + 1).drop_last() =~= texts(items@).take(i as int));
        if i > 0 {
            res.append(sep);
        }
        res.append(items[i].as_str());
        i = i + 1;
    }
    assert(texts(items@).take(i as int) =~= texts(items@));
    res
}

/// The SQL that installs a trigger function and a trigger that set
/// `updated_at` to the current time before each update of a row.
pub open spec fn spec_create_auto_updated_at_trigger(t: Seq<char>) -> Seq<char> {
    "\n        CREATE OR REPLACE FUNCTION "@
        + t
        + "_auto_updated_at()\n        RETURNS TRIGGER AS $$\n        BEGIN\n            NEW.updated_at = CURRENT_TIMESTAMP;\n            RETURN NEW;\n        END;\n        $$ LANGUAGE plpgsql;\n\n        CREATE TRIGGER "@
        + t
        + "_auto_updated_at\n        BEFORE UPDATE ON "@
        + t
        + "\n        FOR EACH ROW\n        EXECUTE FUNCTION "@
        + t
        + "_auto_updated_at();\n        "@
}

/// The SQL that removes what `spec_create_auto_updated_at_trigger` installs.
pub open spec fn spec_drop_auto_updated_at_trigger(t: Seq<char>) -> Seq<char> {
    "\n        DROP TRIGGER IF EXISTS "@
        + t
        + "_auto_updated_at ON "@
        + t
        + ";\n        DROP FUNCTION IF EXISTS "@
        + t
        + "_auto_updated_at();\n        "@
}

/// The SQL that installs the `updated_at` trigger of a table.
pub fn create_auto_updated_at_trigger(table_name: &str) -> (res: String)
    ensures
        res@ == spec_create_auto_updated_at_trigger(table_name@),
{
    let mut res = String::new();
    res.append("\n        CREATE OR REPLACE FUNCTION ");
    res.append(table_name);
    res.append("_auto_updated_at()\n        RETURNS TRIGGER AS $$\n        BEGIN\n            NEW.updated_at = CURRENT_TIMESTAMP;\n            RETURN NEW;\n        END;\n        $$ LANGUAGE plpgsql;\n\n        CREATE TRIGGER ");
    res.append(table_name);
    res.append("_auto_updated_at\n        BEFORE UPDATE ON ");
    res.append(table_name);
    res.append("\n        FOR EACH ROW\n        EXECUTE FUNCTION ");
    res.append(table_name);
    res.append("_auto_updated_at();\n        ");
    res
}

/// The SQL that removes the `updated_at` trigger of a table.
pub fn drop_auto_updated_at_trigger(table_name: &str) -> (res: String)
    ensures
        res@ == spec_drop_auto_updated_at_trigger(table_name@),
{
    let mut res = String::new();
    res.append("\n        DROP TRIGGER IF EXISTS ");
    res.append(table_name);
    res.append("_auto_updated_at ON ");
    res.append(table_name);
    res.append(";\n        DROP FUNCTION IF EXISTS ");
    res.append(table_name);
    res.append("_auto_updated_at();\n        ");
    res
}

/// The columns that every table gets in addition to its own.
#[derive(Debug, Clone, Copy, PartialEq, Eq, Structural)]
pub enum Shared {
    /// The default primary key column.
    Id,
    /// The soft-deletion flag, false by default.
    IsDeleted,
    /// The creation time, the current time by default.
    CreatedAt,
    /// The time of the last update, kept current by the trigger.
    UpdatedAt,
}

impl Shared {
    /// The column name.
    pub open spec fn spec_text(self) -> Seq<char> {
        match self {
            Shared::Id => "id"@,
            Shared::IsDeleted => "is_deleted"@,
            Shared::CreatedAt => "created_at"@,
            Shared::UpdatedAt => "updated_at"@,
        }
    }

    /// The column name.
    pub fn to_text(&self) -> (res: String)
        ensures
            res@ == self.spec_text(),
    {
        match self {
            Shared::Id => "id".to_owned(),
            Shared::IsDeleted => "is_deleted".to_owned(),
            Shared::CreatedAt => "created_at".to_owned(),
            Shared::UpdatedAt => "updated_at".to_owned(),
        }
    }
}

/// The names and statements that a migration uses for one table: its name
/// and the columns of its primary key.
#[derive(Debug)]
pub struct TableManager {
    table_name: String,
    primary_key: Vec<String>,
}

impl TableManager {
    /// The table's name.
    pub closed spec fn spec_table_name(&self) -> Seq<char> {
        self.table_name@
    }

    /// The columns of the primary key.
    pub closed spec fn spec_primary_key(&self) -> Seq<Seq<char>> {
        texts(self.primary_key@)
    }

    /// The name of the trigger function.
    pub open spec fn spec_function_name(&self) -> Seq<char> {
        "update_"@ + self.spec_table_name() + "_updated_at()"@
    }

    /// The name of the trigger.
    pub open spec fn spec_trigger_name(&self) -> Seq<char> {
        "auto_update_"@ + self.spec_table_name() + "_updated_at"@
    }

    /// The name of the index over the columns.
    pub open spec fn spec_index_name(&self, columns: Seq<Seq<char>>) -> Seq<char> {
        "idx_"@ + self.spec_table_name() + "_"@ + join(columns, "_"@)
    }

    /// A table whose primary key is the `id` column.
    pub fn new(table_name: &str) -> (res: TableManager)
        ensures
            res.spec_table_name() == table_name@,
            res.spec_primary_key() == seq![Shared::Id.spec_text()],
    {
        let mut primary_key = Vec::new();
        primary_key.push(Shared::Id.to_text());
        let res = TableManager { table_name: table_name.to_owned(), primary_key };
        assert(res.spec_primary_key() =~= seq![Shared::Id.spec_text()]);
        res
    }

    /// The same table with another primary key.
    pub fn primary_key(self, primary_key: Vec<String>) -> (res: TableManager)
        ensures
            res.spec_table_name() == self.spec_table_name(),
            res.spec_primary_key() == texts(primary_key@),
    {
        TableManager { table_name: self.table_name, primary_key }
    }

    /// The table's name.
    pub fn table_name(&self) -> (res: &str)
        ensures
            res@ == self.spec_table_name(),
    {
        self.table_name.as_str()
    }

    /// The columns of the primary key.
    pub fn primary_key_columns(&self) -> (res: &Vec<String>)
        ensures
            texts(res@) == self.spec_primary_key(),
    {
        &self.primary_key
    }

    /// The name of the primary key constraint, when there is a primary key.
    pub fn primary_key_name(&self) -> (res: Option<String>)
        ensures
            match res {
                Some(name) => self.spec_primary_key().len() > 0 && name@ == "pk_"@
                    + self.spec_table_name(),
                None => self.spec_primary_key().len() == 0,
            },
    {
        if self.primary_key.len() == 0 {
            None
        } else {
            let mut name = String::new();
            name.append("pk_");
            name.append(self.table_name.as_str());
            Some(name)
        }
    }

    /// The name of the foreign key constraint on a column.
    pub fn foreign_key_name(&self, column: &str) -> (res: String)
        ensures
            res@ == "fk_"@ + self.spec_table_name() + "_"@ + column@,
    {
        let mut res = String::new();
        res.append("fk_");
        res.append(self.table_name.as_str());
        res.append("_");
        res.append(column);
        res
    }

    /// The name of the trigger function.
    pub fn update_updated_at_function(&self) -> (res: String)
        ensures
            res@ == self.spec_function_name(),
    {
        let mut res = String::new();
        res.append("update_");
        res.append(self.table_name.as_str());
        res.append("_updated_at()");
        res
    }

    /// The name of the trigger.
    pub fn auto_update_updated_at_trigger(&self) -> (res: String)
        ensures
            res@ == self.spec_trigger_name(),
    {
        let mut res = String::new();
        res.append("auto_update_");
        res.append(self.table_name.as_str());
        res.append("_updated_at");
        res
    }

    /// The name of the index over the columns.
    pub fn columns_index(&self, columns: &Vec<String>) -> (res: String)
        ensures
            res@ == self.spec_index_name(texts(columns@)),
    {
        let mut res = String::new();
        res.append("idx_");
        res.append(self.table_name.as_str());
        res.append("_");
        let joined = join_strings(columns, "_");
        res.append(joined.as_str());
        res
    }


    /// The SQL that installs the `updated_at` trigger function and trigger of the table.
    pub open spec fn spec_create_auto_updated_at_trigger_sql(&self) -> Seq<char> {
        "\n        CREATE OR REPLACE FUNCTION "@
            + self.spec_function_name()
            + "\n        RETURNS TRIGGER AS $$\n        BEGIN\n            NEW.updated_at = CURRENT_TIMESTAMP;\n            RETURN NEW;\n        END;\n        $$ LANGUAGE plpgsql;\n\n        CREATE TRIGGER "@
            + self.spec_trigger_name()
            + "\n        BEFORE UPDATE ON \""@
            + self.spec_table_name()
            + "\"\n        FOR EACH ROW\n        EXECUTE FUNCTION "@
            + self.spec_function_name()
            + ";\n        "@
    }

    /// The SQL that installs the `updated_at` trigger function and trigger of the table.
    pub fn create_auto_updated_at_trigger_sql(&self) -> (res: String)
        ensures
            res@ == self.spec_create_auto_updated_at_trigger_sql(),
    {
        let function_name = self.update_updated_at_function();
        let trigger_name = self.auto_update_updated_at_trigger();
        let mut res = String::new();
        res.append("\n        CREATE OR REPLACE FUNCTION ");
        res.append(function_name.as_str());
        res.append("\n        RETURNS TRIGGER AS $$\n        BEGIN\n            NEW.updated_at = CURRENT_TIMESTAMP;\n            RETURN NEW;\n        END;\n        $$ LANGUAGE plpgsql;\n\n        CREATE TRIGGER ");
        res.append(trigger_name.as_str());
        res.append("\n        BEFORE UPDATE ON \"");
        res.append(self.table_name.as_str());
        res.append("\"\n        FOR EACH ROW\n        EXECUTE FUNCTION ");
        res.append(function_name.as_str());
        res.append(";\n        ");
        res
    }


    /// The SQL that removes the `updated_at` trigger and its function.
    pub open spec fn spec_drop_auto_updated_at_trigger_sql(&self) -> Seq<char> {
        "\n        DROP TRIGGER IF EXISTS "@
            + self.spec_trigger_name()
            + " ON \""@
            + self.spec_table_name()
            + "\";\n        DROP FUNCTION IF EXISTS "@
            + self.spec_function_name()
            + ";\n        "@
    }

    /// The SQL that removes the `updated_at` trigger and its function.
    pub fn drop_auto_updated_at_trigger_sql(&self) -> (res: String)
        ensures
            res@ == self.spec_drop_auto_updated_at_trigger_sql(),
    {
        let function_name = self.update_updated_at_function();
        let trigger_name = self.auto_update_updated_at_trigger();
        let mut res = String::new();
        res.append("\n        DROP TRIGGER IF EXISTS ");
        res.append(trigger_name.as_str());
        res.append(" ON \"");
        res.append(self.table_name.as_str());
        res.append("\";\n        DROP FUNCTION IF EXISTS ");
        res.append(function_name.as_str());
        res.append(";\n        ");
        res
    }


    /// The SQL that creates the index over the columns unless it exists.
    pub open spec fn spec_create_index_sql(&self, columns: Seq<Seq<char>>) -> Seq<char> {
        "\n        CREATE INDEX IF NOT EXISTS "@
            + self.spec_index_name(columns)
            + " ON \""@
            + self.spec_table_name()
            + "\" ("@
            + join(columns, ","@)
            + ");\n        "@
    }

    /// The SQL that creates the index over the columns unless it exists.
    pub fn create_index_sql(&self, columns: &Vec<String>) -> (res: String)
        ensures
            res@ == self.spec_create_index_sql(texts(columns@)),
    {
        let index_name = self.columns_index(columns);
        let column_names = join_strings(columns, ",");
        let mut res = String::new();
        res.append("\n        CREATE INDEX IF NOT EXISTS ");
        res.append(index_name.as_str());
        res.append(" ON \"");
        res.append(self.table_name.as_str());
        res.append("\" (");
        res.append(column_names.as_str());
        res.append(");\n        ");
        res
    }


    /// The SQL that drops the index over the columns if it exists.
    pub open spec fn spec_drop_index_sql(&self, columns: Seq<Seq<char>>) -> Seq<char> {
        "\n        DROP INDEX IF EXISTS "@
            + self.spec_index_name(columns)
            + ";\n        "@
    }

    /// The SQL that drops the index over the columns if it exists.
    pub fn drop_index_sql(&self, columns: &Vec<String>) -> (res: String)
        ensures
            res@ == self.spec_drop_index_sql(texts(columns@)),
    {
        let index_name = self.columns_index(columns);
        let mut res = String::new();
        res.append("\n        DROP INDEX IF EXISTS ");
        res.append(index_name.as_str());
        res.append(";\n        ");
        res
    }

}

/// A step of creating or dropping a managed table.  The steps of a plan run
/// in order; the first that fails ends the migration with its error.
#[derive(Debug)]
pub enum SchemaStep {
    /// Create the table if it does not exist, with the primary key
    /// constraint of that name over those columns when there is one.
    CreateTable {
        /// The name of the primary key constraint.
        primary_key_name: Option<String>,
        /// The columns of the primary key.
        primary_key_columns: Vec<String>,
    },
    /// Add the `is_deleted` column (default false) and the `created_at` and
    /// `updated_at` columns (default the current time), where missing.
    AddSharedColumns,
    /// Run an SQL text.
    ExecuteSql(String),
    /// Drop the table.
    DropTable,
}

/// Copies strings.
fn copy_strings(items: &Vec<String>) -> (res: Vec<String>)
    ensures
        texts(res@) == texts(items@),
{
    let mut res: Vec<String> = Vec::new();
    let mut i: usize = 0;
    while i < items.len()
        invariant
            i <= items@.len(),
            texts(res@) == texts(items@).take(i as int),
        decreases items@.len() - i,
    {
        let ghost before = texts(res@);
        res.push(items[i].clone());
        assert(texts(res@) =~= before.push(items@[i as int]@));
        assert(texts(items@).take(i + 1) =~= texts(items@).take(i as int).push(items@[i as int]@));
        i = i + 1;
    }
    assert(texts(items@).take(items@.len() as int) =~= texts(items@));
    res
}

impl TableManager {
    /// How the table is created: the table with its primary key, then the
    /// shared columns, then the trigger that keeps `updated_at` current.
    pub fn create_table_plan(&self) -> (res: Vec<SchemaStep>)
        ensures
            res@.len() == 3,
            res@[0] matches SchemaStep::CreateTable { primary_key_name, primary_key_columns }
                && texts(primary_key_columns@) == self.spec_primary_key() && (match primary_key_name {
                Some(name) => self.spec_primary_key().len() > 0 && name@ == "pk_"@
                    + self.spec_table_name(),
                None => self.spec_primary_key().len() == 0,
            }),
            res@[1] is AddSharedColumns,
            res@[2] matches SchemaStep::ExecuteSql(sql) && sql@
                == self.spec_create_auto_updated_at_trigger_sql(),
    {
        let mut res: Vec<SchemaStep> = Vec::new();
        res.push(
            SchemaStep::CreateTable {
                primary_key_name: self.primary_key_name(),
                primary_key_columns: copy_strings(&self.primary_key),
            },
        );
        res.push(SchemaStep::AddSharedColumns);
        res.push(SchemaStep::ExecuteSql(self.create_auto_updated_at_trigger_sql()));
        res
    }

    /// How the table is dropped: its trigger and trigger function first, then
    /// the table.
    pub fn drop_table_plan(&self) -> (res: Vec<SchemaStep>)
        ensures
            res@.len() == 2,
            res@[0] matches SchemaStep::ExecuteSql(sql) && sql@
                == self.spec_drop_auto_updated_at_trigger_sql(),
            res@[1] is DropTable,
    {
        let mut res: Vec<SchemaStep> = Vec::new();
        res.push(SchemaStep::ExecuteSql(self.drop_auto_updated_at_trigger_sql()));
        res.push(SchemaStep::DropTable);
        res
    }
}
/// The operation permissions that the initial seeding creates, in order.
pub open spec fn spec_preset_operation_permissions() -> Seq<OperationPermission> {
    seq![
        OperationPermission::QueryUsers,
        OperationPermission::CreateUser,
        OperationPermission::UpdateUser,
        OperationPermission::DeleteUser,
        OperationPermission::QueryRoles,
        OperationPermission::CreateRole,
        OperationPermission::UpdateRole,
        OperationPermission::DeleteRole,
        OperationPermission::QueryGroups,
        OperationPermission::CreateGroup,
        OperationPermission::UpdateGroup,
        OperationPermission::DeleteGroup,
        OperationPermission::QueryDepartments,
        OperationPermission::CreateDepartment,
        OperationPermission::UpdateDepartment,
        OperationPermission::DeleteDepartment,
        OperationPermission::AssignUserPermissions,
        OperationPermission::QueryUserPermissions,
        OperationPermission::QueryGroupPermissions,
        OperationPermission::QueryDepartmentPermissions,
        OperationPermission::QueryRolePermissions,
        OperationPermission::QueryRoleGroupPermissions,
        OperationPermission::QueryPermissionGroupPermissions,
    ]
}

/// The operation permissions that the initial seeding creates, in order.
pub fn preset_operation_permissions() -> (res: Vec<OperationPermission>)
    ensures
        res@ == spec_preset_operation_permissions(),
{
    let res = vec![
        OperationPermission::QueryUsers,
        OperationPermission::CreateUser,
        OperationPermission::UpdateUser,
        OperationPermission::DeleteUser,
        OperationPermission::QueryRoles,
        OperationPermission::CreateRole,
        OperationPermission::UpdateRole,
        OperationPermission::DeleteRole,
        OperationPermission::QueryGroups,
        OperationPermission::CreateGroup,
        OperationPermission::UpdateGroup,
        OperationPermission::DeleteGroup,
        OperationPermission::QueryDepartments,
        OperationPermission::CreateDepartment,
        OperationPermission::UpdateDepartment,
        OperationPermission::DeleteDepartment,
        OperationPermission::AssignUserPermissions,
        OperationPermission::QueryUserPermissions,
        OperationPermission::QueryGroupPermissions,
        OperationPermission::QueryDepartmentPermissions,
        OperationPermission::QueryRolePermissions,
        OperationPermission::QueryRoleGroupPermissions,
        OperationPermission::QueryPermissionGroupPermissions,
    ];
    assert(res@ =~= spec_preset_operation_permissions());
    res
}

/// The nil UUID, with which the seeding creates the administrator role, the
/// administrator user and the system permission group.
pub open spec fn nil_id() -> u128 {
    0
}

/// The password that the seeded administrator starts with.
pub open spec fn spec_admin_initial_password() -> Seq<char> {
    "Admin@132"@
}

/// A permission row that the initial seeding inserts.
#[derive(Debug)]
pub struct PresetPermission {
    /// The permission's code, the snake_case name of the operation.
    pub code: String,
    /// The permission's kind.
    pub kind: String,
    /// The permission's description.
    pub description: Option<String>,
    /// Whether the permission is built in.
    pub built_in: bool,
    /// The permission group the permission is placed in.
    pub permission_group_id: u128,
}

/// What the initial seeding inserts: the administrator role, the
/// administrator user in that role, the `system` permission group granted to
/// the role, and the preset permissions in that group.
#[derive(Debug)]
pub struct SeedData {
    /// The administrator role's id.
    pub admin_role_id: u128,
    /// The administrator role's name.
    pub admin_role_name: String,
    /// The administrator role's description.
    pub admin_role_description: Option<String>,
    /// Whether the administrator role is built in.
    pub admin_role_built_in: bool,
    /// The administrator user's id.
    pub admin_user_id: u128,
    /// The administrator's account name.
    pub admin_account: String,
    /// The Argon2 hash of the administrator's initial password.
    pub admin_password_digest: String,
    /// The administrator's gender as stored.
    pub admin_gender: String,
    /// The user-role link: (role id, user id).
    pub role_user_link: (u128, u128),
    /// The id of the permission group granted to the administrator role.
    pub permission_group_id: u128,
    /// The name of the permission group granted to the administrator role.
    pub permission_group_name: String,
    /// The group-role link: (permission group id, role id).
    pub group_role_link: (u128, u128),
    /// The preset permissions, in order.
    pub permissions: Vec<PresetPermission>,
}

/// The data of the initial seeding.  The administrator's password hash has a
/// random salt; it accepts the initial password.
pub fn seed_data() -> (res: SeedData)
    ensures
        res.admin_role_id == nil_id(),
        res.admin_user_id == nil_id(),
        res.permission_group_id == nil_id(),
        res.role_user_link == (res.admin_role_id, res.admin_user_id),
        res.group_role_link == (res.permission_group_id, res.admin_role_id),
        res.admin_role_name@ == "admin"@,
        res.admin_role_description matches Some(d) && d@ == "admin"@,
        res.admin_role_built_in,
        res.admin_account@ == "admin"@,
        password_matches(spec_admin_initial_password(), res.admin_password_digest@),
        res.admin_gender@ == crate::enums::Gender::Unknown.spec_text(),
        res.permission_group_name@ == "system"@,
        res.permissions@.len() == spec_preset_operation_permissions().len(),
        forall|i: int|
            0 <= i < res.permissions@.len() ==> {
                let p = #[trigger] res.permissions@[i];
                &&& p.code@ == spec_preset_operation_permissions()[i].spec_text()
                &&& p.kind@ == crate::enums::PermissionKind::Operation.spec_text()
                &&& p.description is None
                &&& p.built_in
                &&& p.permission_group_id == res.permission_group_id
            },
{
    let password = "Admin@132";
    proof {
        reveal_strlit("Admin@132");
        vstd::utf8::is_ascii_chars_encode_utf8(password@);
    }
    let admin_password_digest = hash_password(password);
    let admin_role_id: u128 = 0;
    let admin_user_id: u128 = 0;
    let system_group_id: u128 = 0;
    let presets = preset_operation_permissions();
    let mut permissions: Vec<PresetPermission> = Vec::new();
    let mut i: usize = 0;
    while i < presets.len()
        invariant
            i <= presets@.len(),
            presets@ == spec_preset_operation_permissions(),
            permissions@.len() == i,
            system_group_id == nil_id(),
            forall|j: int|
                0 <= j < i ==> {
                    let p = #[trigger] permissions@[j];
                    &&& p.code@ == spec_preset_operation_permissions()[j].spec_text()
                    &&& p.kind@ == crate::enums::PermissionKind::Operation.spec_text()
                    &&& p.description is None
                    &&& p.built_in
                    &&& p.permission_group_id == nil_id()
                },
        decreases presets@.len() - i,
    {
        permissions.push(
            PresetPermission {
                code: presets[i].to_text(),
                kind: crate::enums::PermissionKind::Operation.to_text(),
                description: None,
                built_in: true,
                permission_group_id: system_group_id,
            },
        );
        i = i + 1;
    }
    SeedData {
        admin_role_id,
        admin_role_name: "admin".to_owned(),
        admin_role_description: Some("admin".to_owned()),
        admin_role_built_in: true,
        admin_user_id,
        admin_account: "admin".to_owned(),
        admin_password_digest,
        admin_gender: crate::enums::Gender::Unknown.to_text(),
        role_user_link: (admin_role_id, admin_user_id),
        permission_group_id: system_group_id,
        permission_group_name: "system".to_owned(),
        group_role_link: (system_group_id, admin_role_id),
        permissions,
    }
}

} // verus!

verus! {

/// Whether `piece` occurs in `text` at position `i`.
pub open spec fn occurs_at(text: Seq<char>, piece: Seq<char>, i: int) -> bool {
    0 <= i && i + piece.len() <= text.len() && text.subrange(i, i + piece.len()) == piece
}

/// The dollar-quoted body of a trigger function that sets the row's
/// `updated_at` column to the current time and changes nothing else.
pub open spec fn refresh_updated_at_body() -> Seq<char> {
    "$$\n        BEGIN\n            NEW.updated_at = CURRENT_TIMESTAMP;\n            RETURN NEW;\n        END;\n        $$"@
}

/// The trigger function that a table's migration installs sets `updated_at`
/// to the current time and assigns no other column: its dollar-quoted body
/// is exactly that one assignment followed by `RETURN NEW`, the same body as
/// the trigger function of the stand-alone trigger template.
pub proof fn law_trigger_refreshes_updated_at(table: TableManager, t: Seq<char>)
    ensures
        exists|i: int| #[trigger]
            occurs_at(table.spec_create_auto_updated_at_trigger_sql(), refresh_updated_at_body(), i),
        exists|i: int| #[trigger]
            occurs_at(
                table.spec_create_auto_updated_at_trigger_sql(),
                "CREATE OR REPLACE FUNCTION "@ + table.spec_function_name() + "\n        RETURNS TRIGGER AS "@
                    + refresh_updated_at_body(),
                i,
            ),
        exists|i: int| #[trigger]
            occurs_at(
                table.spec_create_auto_updated_at_trigger_sql(),
                "BEFORE UPDATE ON \""@ + table.spec_table_name()
                    + "\"\n        FOR EACH ROW\n        EXECUTE FUNCTION "@ + table.spec_function_name() + ";"@,
                i,
            ),
        exists|i: int| #[trigger]
            occurs_at(spec_create_auto_updated_at_trigger(t), refresh_updated_at_body(), i),
{
    reveal_strlit("$$\n        BEGIN\n            NEW.updated_at = CURRENT_TIMESTAMP;\n            RETURN NEW;\n        END;\n        $$");
    reveal_strlit("\n        CREATE OR REPLACE FUNCTION ");
    reveal_strlit("\n        RETURNS TRIGGER AS $$\n        BEGIN\n            NEW.updated_at = CURRENT_TIMESTAMP;\n            RETURN NEW;\n        END;\n        $$ LANGUAGE plpgsql;\n\n        CREATE TRIGGER ");
    reveal_strlit("_auto_updated_at()\n        RETURNS TRIGGER AS $$\n        BEGIN\n            NEW.updated_at = CURRENT_TIMESTAMP;\n            RETURN NEW;\n        END;\n        $$ LANGUAGE plpgsql;\n\n        CREATE TRIGGER ");
    let body = refresh_updated_at_body();
    let b1 = "\n        RETURNS TRIGGER AS $$\n        BEGIN\n            NEW.updated_at = CURRENT_TIMESTAMP;\n            RETURN NEW;\n        END;\n        $$ LANGUAGE plpgsql;\n\n        CREATE TRIGGER "@;
    assert(b1.subrange(28, 28 + body.len() as int) =~= body);
    let head = "\n        CREATE OR REPLACE FUNCTION "@ + table.spec_function_name();
    let sql = table.spec_create_auto_updated_at_trigger_sql();
    let rest = sql.skip(head.len() as int);
    assert(sql =~= head + rest);
    assert(rest.take(b1.len() as int) =~= b1);
    let i: int = head.len() as int + 28;
    assert(sql.subrange(i, i + body.len() as int) =~= b1.subrange(28, 28 + body.len() as int));
    assert(occurs_at(sql, body, i));
    let decl = "CREATE OR REPLACE FUNCTION "@ + table.spec_function_name() + "\n        RETURNS TRIGGER AS "@ + body;
    reveal_strlit("CREATE OR REPLACE FUNCTION ");
    reveal_strlit("\n        RETURNS TRIGGER AS ");
    let c = "CREATE OR REPLACE FUNCTION "@;
    let r = "\n        RETURNS TRIGGER AS "@;
    assert("\n        CREATE OR REPLACE FUNCTION "@ =~= "\n        "@ + c) by {
        reveal_strlit("\n        ");
    }
    assert(b1 =~= r + b1.skip(28));
    assert(b1.skip(28).take(body.len() as int) =~= body);
    assert(sql =~= "\n        "@ + c + table.spec_function_name() + r + b1.skip(28) + rest.skip(b1.len() as int));
    assert(sql.subrange(9, 9 + decl.len() as int) =~= decl);
    assert(occurs_at(sql, decl, 9));
    let fire = "BEFORE UPDATE ON \""@ + table.spec_table_name() + "\"\n        FOR EACH ROW\n        EXECUTE FUNCTION "@
        + table.spec_function_name() + ";"@;
    reveal_strlit("BEFORE UPDATE ON \"");
    reveal_strlit("\n        BEFORE UPDATE ON \"");
    reveal_strlit(";");
    reveal_strlit(";\n        ");
    reveal_strlit("\n        ");
    let l1 = "\n        BEFORE UPDATE ON \""@;
    let l2 = "\"\n        FOR EACH ROW\n        EXECUTE FUNCTION "@;
    let l3 = ";\n        "@;
    let pre = "\n        CREATE OR REPLACE FUNCTION "@ + table.spec_function_name() + b1
        + table.spec_trigger_name();
    assert(sql =~= pre + l1 + table.spec_table_name() + l2 + table.spec_function_name() + l3);
    assert(l1 =~= "\n        "@ + "BEFORE UPDATE ON \""@);
    assert(l3 =~= ";"@ + "\n        "@);
    assert(sql =~= pre + "\n        "@ + fire + "\n        "@);
    let k: int = pre.len() as int + 9;
    assert(sql.subrange(k, k + fire.len() as int) =~= fire);
    assert(occurs_at(sql, fire, k));
    let b2 = "_auto_updated_at()\n        RETURNS TRIGGER AS $$\n        BEGIN\n            NEW.updated_at = CURRENT_TIMESTAMP;\n            RETURN NEW;\n        END;\n        $$ LANGUAGE plpgsql;\n\n        CREATE TRIGGER "@;
    assert(b2.subrange(46, 46 + body.len() as int) =~= body);
    let head2 = "\n        CREATE OR REPLACE FUNCTION "@ + t;
    let sql2 = spec_create_auto_updated_at_trigger(t);
    let rest2 = sql2.skip(head2.len() as int);
    assert(sql2 =~= head2 + rest2);
    assert(rest2.take(b2.len() as int) =~= b2);
    let j: int = head2.len() as int + 46;
    assert(sql2.subrange(j, j + body.len() as int) =~= b2.subrange(46, 46 + body.len() as int));
    assert(occurs_at(sql2, body, j));
}

} // verus!

verus! {

/// The position of an operation in the declaration of `OperationPermission`.
pub open spec fn declaration_rank(p: OperationPermission) -> int {
    match p {
        OperationPermission::QueryUsers => 0,
        OperationPermission::CreateUser => 1,
        OperationPermission::UpdateUser => 2,
        OperationPermission::DeleteUser => 3,
        OperationPermission::QueryRoles => 4,
        OperationPermission::CreateRole => 5,
        OperationPermission::UpdateRole => 6,
        OperationPermission::DeleteRole => 7,
        OperationPermission::QueryPermissions => 8,
        OperationPermission::CreatePermission => 9,
        OperationPermission::UpdatePermission => 10,
        OperationPermission::DeletePermission => 11,
        OperationPermission::QueryGroups => 12,
        OperationPermission::CreateGroup => 13,
        OperationPermission::UpdateGroup => 14,
        OperationPermission::DeleteGroup => 15,
        OperationPermission::QueryDepartments => 16,
        OperationPermission::CreateDepartment => 17,
        OperationPermission::UpdateDepartment => 18,
        OperationPermission::DeleteDepartment => 19,
        OperationPermission::AssignUserPermissions => 20,
        OperationPermission::QueryUserPermissions => 21,
        OperationPermission::QueryGroupPermissions => 22,
        OperationPermission::QueryDepartmentPermissions => 23,
        OperationPermission::QueryRolePermissions => 24,
        OperationPermission::QueryRoleGroupPermissions => 25,
        OperationPermission::QueryPermissionGroupPermissions => 26,
    }
}

/// Whether the operation manages permissions themselves: querying,
/// creating, updating or deleting a permission.
pub open spec fn manages_permissions(p: OperationPermission) -> bool {
    p == OperationPermission::QueryPermissions || p == OperationPermission::CreatePermission
        || p == OperationPermission::UpdatePermission || p == OperationPermission::DeletePermission
}

/// The initial seeding grants every operation except those that manage
/// permissions themselves, each once, in the order of their declaration; in
/// particular every user operation (query, create, update and delete).
pub proof fn law_presets_are_all_but_permission_management()
    ensures
        forall|p: OperationPermission|
            spec_preset_operation_permissions().contains(p) <==> !manages_permissions(p),
        forall|i: int, j: int|
            0 <= i < j < spec_preset_operation_permissions().len() ==> declaration_rank(
                #[trigger] spec_preset_operation_permissions()[i],
            ) < declaration_rank(#[trigger] spec_preset_operation_permissions()[j]),
{
    let s = spec_preset_operation_permissions();
    assert(s.len() == 23);
    assert forall|p: OperationPermission| manages_permissions(p) <==> 8 <= #[trigger] declaration_rank(p)
        <= 11 by {
        match p {
            _ => {},
        }
    }
    assert forall|i: int| 0 <= i < 23 implies #[trigger] declaration_rank(s[i]) == (if i < 8 {
        i
    } else {
        i + 4
    }) by {
        if i == 0 {
            assert(s[0] == s[i]);
        } else if i == 1 {
            assert(s[1] == s[i]);
        } else if i == 2 {
            assert(s[2] == s[i]);
        } else if i == 3 {
            assert(s[3] == s[i]);
        } else if i == 4 {
            assert(s[4] == s[i]);
        } else if i == 5 {
            assert(s[5] == s[i]);
        } else if i == 6 {
            assert(s[6] == s[i]);
        } else if i == 7 {
            assert(s[7] == s[i]);
        } else if i == 8 {
            assert(s[8] == s[i]);
        } else if i == 9 {
            assert(s[9] == s[i]);
        } else if i == 10 {
            assert(s[10] == s[i]);
        } else if i == 11 {
            assert(s[11] == s[i]);
        } else if i == 12 {
            assert(s[12] == s[i]);
        } else if i == 13 {
            assert(s[13] == s[i]);
        } else if i == 14 {
            assert(s[14] == s[i]);
        } else if i == 15 {
            assert(s[15] == s[i]);
        } else if i == 16 {
            assert(s[16] == s[i]);
        } else if i == 17 {
            assert(s[17] == s[i]);
        } else if i == 18 {
            assert(s[18] == s[i]);
        } else if i == 19 {
            assert(s[19] == s[i]);
        } else if i == 20 {
            assert(s[20] == s[i]);
        } else if i == 21 {
            assert(s[21] == s[i]);
        } else {
            assert(s[22] == s[i]);
        }
    }
    assert forall|p: OperationPermission| !manages_permissions(p) implies s.contains(p) by {
        match p {
            OperationPermission::QueryUsers => {
                assert(s[0] == p);
            },
            OperationPermission::CreateUser => {
                assert(s[1] == p);
            },
            OperationPermission::UpdateUser => {
                assert(s[2] == p);
            },
            OperationPermission::DeleteUser => {
                assert(s[3] == p);
            },
            OperationPermission::QueryRoles => {
                assert(s[4] == p);
            },
            OperationPermission::CreateRole => {
                assert(s[5] == p);
            },
            OperationPermission::UpdateRole => {
                assert(s[6] == p);
            },
            OperationPermission::DeleteRole => {
                assert(s[7] == p);
            },
            OperationPermission::QueryPermissions => {},
            OperationPermission::CreatePermission => {},
            OperationPermission::UpdatePermission => {},
            OperationPermission::DeletePermission => {},
            OperationPermission::QueryGroups => {
                assert(s[8] == p);
            },
            OperationPermission::CreateGroup => {
                assert(s[9] == p);
            },
            OperationPermission::UpdateGroup => {
                assert(s[10] == p);
            },
            OperationPermission::DeleteGroup => {
                assert(s[11] == p);
            },
            OperationPermission::QueryDepartments => {
                assert(s[12] == p);
            },
            OperationPermission::CreateDepartment => {
                assert(s[13] == p);
            },
            OperationPermission::UpdateDepartment => {
                assert(s[14] == p);
            },
            OperationPermission::DeleteDepartment => {
                assert(s[15] == p);
            },
            OperationPermission::AssignUserPermissions => {
                assert(s[16] == p);
            },
            OperationPermission::QueryUserPermissions => {
                assert(s[17] == p);
            },
            OperationPermission::QueryGroupPermissions => {
                assert(s[18] == p);
            },
            OperationPermission::QueryDepartmentPermissions => {
                assert(s[19] == p);
            },
            OperationPermission::QueryRolePermissions => {
                assert(s[20] == p);
            },
            OperationPermission::QueryRoleGroupPermissions => {
                assert(s[21] == p);
            },
            OperationPermission::QueryPermissionGroupPermissions => {
                assert(s[22] == p);
            },
        }
    }
    assert forall|p: OperationPermission| s.contains(p) implies !manages_permissions(p) by {
        let i = choose|i: int| 0 <= i < s.len() && s[i] == p;
        assert(declaration_rank(s[i]) == (if i < 8 {
            i
        } else {
            i + 4
        }));
    }
    assert forall|i: int, j: int| 0 <= i < j < s.len() implies declaration_rank(#[trigger] s[i])
        < declaration_rank(#[trigger] s[j]) by {
        assert(declaration_rank(s[i]) == (if i < 8 {
            i
        } else {
            i + 4
        }));
        assert(declaration_rank(s[j]) == (if j < 8 {
            j
        } else {
            j + 4
        }));
    }
}

} // verus!
