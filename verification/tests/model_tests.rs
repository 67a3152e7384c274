use account_server::enums::{Gender, OperationPermission, PermissionKind};
use account_server::error::{ServerError, ServerException, ServerExceptionCode};
use account_server::migration::{
    create_auto_updated_at_trigger, drop_auto_updated_at_trigger, join_strings,
    preset_operation_permissions, seed_data, Shared, TableManager,
};
use account_server::utils::verify_password;

#[test]
fn enum_names_are_snake_case() {
    assert_eq!(Gender::default().to_text(), "unknown");
    assert_eq!(Gender::Female.to_text(), "female");
    assert_eq!(PermissionKind::Operation.to_text(), "operation");
    assert_eq!(OperationPermission::QueryUsers.to_text(), "query_users");
    assert_eq!(
        OperationPermission::QueryPermissionGroupPermissions.to_text(),
        "query_permission_group_permissions"
    );
}

#[test]
fn enum_parse_inverts_names() {
    assert_eq!(Gender::parse("male"), Some(Gender::Male));
    assert_eq!(Gender::parse("Male"), None);
    assert_eq!(PermissionKind::parse("menu"), Some(PermissionKind::Menu));
    assert_eq!(PermissionKind::parse(""), None);
    assert_eq!(OperationPermission::parse("assign_user_permissions"), Some(OperationPermission::AssignUserPermissions));
    assert_eq!(OperationPermission::parse("queryUsers"), None);
    for op in preset_operation_permissions() {
        assert_eq!(OperationPermission::parse(&op.to_text()), Some(op));
    }
}

fn trigger_sql(table_name: &str) -> String {
    format!(
        r#"
        CREATE OR REPLACE FUNCTION {table_name}_auto_updated_at()
        RETURNS TRIGGER AS $$
        BEGIN
            NEW.updated_at = CURRENT_TIMESTAMP;
            RETURN NEW;
        END;
        $$ LANGUAGE plpgsql;

        CREATE TRIGGER {table_name}_auto_updated_at
        BEFORE UPDATE ON {table_name}
        FOR EACH ROW
        EXECUTE FUNCTION {table_name}_auto_updated_at();
        "#,
    )
}

#[test]
fn trigger_sql_matches_template() {
    assert_eq!(create_auto_updated_at_trigger("users"), trigger_sql("users"));
    assert_eq!(
        drop_auto_updated_at_trigger("users"),
        "\n        DROP TRIGGER IF EXISTS users_auto_updated_at ON users;\n        DROP FUNCTION IF EXISTS users_auto_updated_at();\n        "
    );
}

#[test]
fn table_manager_names() {
    let table = TableManager::new("uploads");
    assert_eq!(table.table_name(), "uploads");
    assert_eq!(table.primary_key_columns(), &vec!["id".to_string()]);
    assert_eq!(table.primary_key_name(), Some("pk_uploads".to_string()));
    assert_eq!(table.foreign_key_name("created_by"), "fk_uploads_created_by");
    assert_eq!(table.update_updated_at_function(), "update_uploads_updated_at()");
    assert_eq!(table.auto_update_updated_at_trigger(), "auto_update_uploads_updated_at");
    let columns = vec!["hash".to_string(), "name".to_string()];
    assert_eq!(table.columns_index(&columns), "idx_uploads_hash_name");
    assert_eq!(
        table.create_index_sql(&columns),
        "\n        CREATE INDEX IF NOT EXISTS idx_uploads_hash_name ON \"uploads\" (hash,name);\n        "
    );
    assert_eq!(table.drop_index_sql(&columns), "\n        DROP INDEX IF EXISTS idx_uploads_hash_name;\n        ");
    assert!(table.create_auto_updated_at_trigger_sql().contains("CREATE TRIGGER auto_update_uploads_updated_at\n        BEFORE UPDATE ON \"uploads\""));
    assert_eq!(
        table.drop_auto_updated_at_trigger_sql(),
        "\n        DROP TRIGGER IF EXISTS auto_update_uploads_updated_at ON \"uploads\";\n        DROP FUNCTION IF EXISTS update_uploads_updated_at();\n        "
    );
    let keyless = table.primary_key(vec![]);
    assert_eq!(keyless.primary_key_name(), None);
    assert_eq!(Shared::UpdatedAt.to_text(), "updated_at");
    assert_eq!(join_strings(&vec![], ","), "");
}

#[test]
fn seed_data_creates_admin_and_presets() {
    let seed = seed_data();
    assert_eq!(seed.admin_role_name, "admin");
    assert_eq!(seed.admin_role_description.as_deref(), Some("admin"));
    assert!(seed.admin_role_built_in);
    assert_eq!(seed.admin_account, "admin");
    assert!(verify_password("Admin@132", &seed.admin_password_digest));
    assert_eq!(seed.admin_gender, "unknown");
    assert_eq!(seed.permission_group_name, "system");
    assert_eq!(seed.permissions.len(), 23);
    assert_eq!(seed.permissions[0].code, "query_users");
    assert_eq!(seed.permissions[22].code, "query_permission_group_permissions");
    assert!(seed.permissions.iter().all(|p| p.kind == "operation" && p.built_in && p.description.is_none()));
    assert!(!seed.permissions.iter().any(|p| p.code == "create_permission"));
    assert_eq!((seed.admin_role_id, seed.admin_user_id, seed.permission_group_id), (0, 0, 0));
    assert_eq!(seed.role_user_link, (0, 0));
    assert_eq!(seed.group_role_link, (0, 0));
    assert!(seed.permissions.iter().all(|p| p.permission_group_id == seed.permission_group_id));
}

#[test]
fn server_errors_report_status_code_and_text() {
    let forbidden = ServerError::from_code(ServerExceptionCode::Forbidden);
    assert_eq!(forbidden.status(), 403);
    assert_eq!(forbidden.code(), "forbidden");
    assert_eq!(forbidden.to_text(), "Exception: forbidden");
    let unauthorized = ServerError::from_code(ServerExceptionCode::Unauthorized);
    assert_eq!(unauthorized.status(), 401);
    assert_eq!(unauthorized.code(), "unauthorized");
    let other = ServerError::from_message("boom");
    assert_eq!(other.status(), 500);
    assert_eq!(other.code(), "500 Internal Server Error");
    assert_eq!(other.to_text(), "Anyhow error: boom");
    let (status, body) = ServerError::Db("gone".to_string()).into_response_parts();
    assert_eq!(status, 500);
    assert_eq!(body.code(), "500 Internal Server Error");
    assert_eq!(body.message(), "Database error: gone");
    let exception = ServerException::new(ServerExceptionCode::InternalServerError).message("detail");
    assert_eq!(exception.message_text().map(|m| m.as_str()), Some("detail"));
    assert_eq!(exception.to_text(), "internal_server_error");
    let (status, body) = ServerError::from_exception(exception).into_response_parts();
    assert_eq!(status, 500);
    assert_eq!(body.code(), "internal_server_error");
    assert_eq!(body.message(), "Exception: internal_server_error");
    assert_eq!(ServerError::from_code(ServerExceptionCode::NotFound).status(), 404);
}

#[test]
fn permission_grant_moves_ids() {
    let params = account_server::auth::AssignUserPermissionDto { user_id: 7, permission_id: 9 }.into_params();
    assert_eq!(params.user_id, 7);
    assert_eq!(params.permission_id, 9);
}

#[test]
fn table_plans_order_their_steps() {
    use_plans();
}

fn use_plans() {
    let table = TableManager::new("tags");
    let plan = table.create_table_plan();
    assert_eq!(plan.len(), 3);
    match &plan[0] {
        account_server::migration::SchemaStep::CreateTable { primary_key_name, primary_key_columns } => {
            assert_eq!(primary_key_name.as_deref(), Some("pk_tags"));
            assert_eq!(primary_key_columns, &vec!["id".to_string()]);
        }
        _ => panic!("expected the table first"),
    }
    assert!(matches!(plan[1], account_server::migration::SchemaStep::AddSharedColumns));
    match &plan[2] {
        account_server::migration::SchemaStep::ExecuteSql(sql) => {
            assert_eq!(sql, &table.create_auto_updated_at_trigger_sql())
        }
        _ => panic!("expected the trigger last"),
    }
    let keyless = TableManager::new("links").primary_key(vec![]);
    assert!(matches!(
        &keyless.create_table_plan()[0],
        account_server::migration::SchemaStep::CreateTable { primary_key_name: None, .. }
    ));
    let drop = table.drop_table_plan();
    assert!(matches!(&drop[0], account_server::migration::SchemaStep::ExecuteSql(s) if *s == table.drop_auto_updated_at_trigger_sql()));
    assert!(matches!(drop[1], account_server::migration::SchemaStep::DropTable));
}
