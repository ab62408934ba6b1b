use mcp_center::db::{
    mcp_count_query, mcp_create_query, mcp_list_all_query, mcp_list_with_limit_query,
    mcp_update_query, resolve_system_setting, settings_get_by_name_query,
    settings_list_all_query, settings_upsert_query, system_setting_query, McpDBHandler, SqlParam,
    SystemSettingsDBHandler, DEFAULT_SELF_ADDRESS, MCP_CREATE_SQL, MCP_CREATE_WITH_EXTRA_SQL,
    MCP_LIST_BY_NAME_SQL, MCP_LIST_PAGE_SQL, MCP_UPDATE_SQL, MCP_UPDATE_WITH_EXTRA_SQL,
    SETTINGS_GET_BY_NAME_SQL, SETTINGS_LIST_ALL_SQL, SETTINGS_UPSERT_SQL,
};
use mcp_center::model::{DbError, McpServers, SettingKey, SystemSettings};
use std::sync::Arc;
use uuid::Uuid;

fn server(extra: Option<serde_json::Value>) -> McpServers {
    McpServers {
        id: Uuid::from_u128(7),
        name: "fs".to_string(),
        tag: "v1".to_string(),
        endpoint: "http://fs:8000".to_string(),
        transport_type: "sse".to_string(),
        description: "files".to_string(),
        create_from: "register".to_string(),
        extra,
        disabled: true,
        created_at: 0,
        updated_at: 0,
        deleted_at: None,
    }
}

fn text(p: &SqlParam) -> &str {
    match p {
        SqlParam::Text(s) => s.as_str(),
        _ => panic!("not text"),
    }
}

fn big_int(p: &SqlParam) -> i64 {
    match p {
        SqlParam::BigInt(i) => *i,
        _ => panic!("not an integer"),
    }
}

#[test]
fn handlers_keep_their_client() {
    let client = Arc::new(5u32);
    let h = McpDBHandler::new(client.clone());
    assert!(Arc::ptr_eq(h.client(), &client));
    let s = SystemSettingsDBHandler::new(client.clone());
    assert!(Arc::ptr_eq(s.client(), &client));
}

#[test]
fn list_all_and_count_have_no_parameters() {
    let q = mcp_list_all_query();
    assert_eq!(q.sql, "SELECT * FROM tb_mcp_servers ORDER BY id");
    assert!(q.params.is_empty());
    let c = mcp_count_query();
    assert_eq!(c.sql, "SELECT COUNT(*) FROM tb_mcp_servers");
    assert!(c.params.is_empty());
}

#[test]
fn page_by_name_binds_a_contains_pattern() {
    let q = mcp_list_with_limit_query(Some("git".to_string()), 10, 20);
    assert_eq!(q.sql, MCP_LIST_BY_NAME_SQL);
    assert_eq!(q.params.len(), 3);
    assert_eq!(text(&q.params[0]), "%git%");
    assert_eq!(big_int(&q.params[1]), 10);
    assert_eq!(big_int(&q.params[2]), 20);
}

#[test]
fn page_without_name() {
    let q = mcp_list_with_limit_query(None, 5, 0);
    assert_eq!(q.sql, MCP_LIST_PAGE_SQL);
    assert_eq!(q.params.len(), 2);
    assert_eq!(big_int(&q.params[0]), 5);
    assert_eq!(big_int(&q.params[1]), 0);
}

#[test]
fn create_binds_extra_only_when_present() {
    let q = mcp_create_query(server(None));
    assert_eq!(q.sql, MCP_CREATE_SQL);
    assert_eq!(q.params.len(), 7);
    assert!(matches!(q.params[0], SqlParam::Uuid(u) if u == Uuid::from_u128(7)));
    assert_eq!(text(&q.params[1]), "fs");
    assert_eq!(text(&q.params[6]), "register");

    let q = mcp_create_query(server(Some(serde_json::Value::Bool(true))));
    assert_eq!(q.sql, MCP_CREATE_WITH_EXTRA_SQL);
    assert_eq!(q.params.len(), 8);
    assert!(matches!(q.params[7], SqlParam::Json(_)));
}

#[test]
fn update_binds_in_statement_order() {
    let q = mcp_update_query(server(None));
    assert_eq!(q.sql, MCP_UPDATE_SQL);
    assert_eq!(q.params.len(), 8);
    assert_eq!(text(&q.params[0]), "fs");
    assert_eq!(text(&q.params[1]), "v1");
    assert_eq!(text(&q.params[2]), "http://fs:8000");
    assert_eq!(text(&q.params[3]), "sse");
    assert_eq!(text(&q.params[4]), "register");
    assert_eq!(text(&q.params[5]), "files");
    assert!(matches!(q.params[6], SqlParam::Bool(true)));
    assert!(matches!(q.params[7], SqlParam::Uuid(u) if u == Uuid::from_u128(7)));

    let q = mcp_update_query(server(Some(serde_json::Value::Bool(false))));
    assert_eq!(q.sql, MCP_UPDATE_WITH_EXTRA_SQL);
    assert_eq!(q.params.len(), 9);
    assert!(matches!(q.params[0], SqlParam::Json(serde_json::Value::Bool(false))));
    assert_eq!(text(&q.params[1]), "fs");
    assert!(matches!(q.params[8], SqlParam::Uuid(_)));
}

#[test]
fn settings_queries() {
    let q = settings_list_all_query();
    assert_eq!(q.sql, SETTINGS_LIST_ALL_SQL);
    assert!(q.params.is_empty());
    let q = settings_get_by_name_query("theme");
    assert_eq!(q.sql, SETTINGS_GET_BY_NAME_SQL);
    assert_eq!(text(&q.params[0]), "theme");
    let q = settings_upsert_query("theme", "dark");
    assert_eq!(q.sql, SETTINGS_UPSERT_SQL);
    assert_eq!(text(&q.params[0]), "theme");
    assert_eq!(text(&q.params[1]), "dark");
    let q = system_setting_query(SettingKey::SelfAddress);
    assert_eq!(q.sql, SETTINGS_GET_BY_NAME_SQL);
    assert_eq!(text(&q.params[0]), "self_address");
}

#[test]
fn resolved_setting_drops_trailing_slashes() {
    let s = SystemSettings {
        setting_name: "self_address".to_string(),
        setting_value: "https://center.example.com//".to_string(),
    };
    assert_eq!(resolve_system_setting(Ok(s)), "https://center.example.com");
}

#[test]
fn resolved_setting_defaults_when_unreadable() {
    assert_eq!(resolve_system_setting(Err(DbError::RowNotFound)), "http://127.0.0.1");
    assert_eq!(resolve_system_setting(Err(DbError::Other)), DEFAULT_SELF_ADDRESS);
}
