//! The records the service keeps in its database and the events it emits.
use vstd::prelude::*;
use uuid::Uuid;
use serde_json::Value;

verus! {

/// A registered MCP server (a row of `tb_mcp_servers`). Timestamps are
/// microseconds since the Unix epoch.
pub struct McpServers {
    pub id: Uuid,
    pub name: String,
    pub tag: String,
    pub endpoint: String,
    pub transport_type: String,
    pub description: String,
    pub create_from: String,
    pub extra: Option<Value>,
    pub disabled: bool,
    pub created_at: i64,
    pub updated_at: i64,
    pub deleted_at: Option<i64>,
}

/// A system setting (a row of `tb_system_settings`).
pub struct SystemSettings {
    pub setting_name: String,
    pub setting_value: String,
}

/// The names of the system settings the service reads itself.
pub enum SettingKey {
    /// The address under which this service is reachable from outside.
    SelfAddress,
}

pub open spec fn setting_key_name(key: SettingKey) -> Seq<char> {
    match key {
        SettingKey::SelfAddress => "self_address"@,
    }
}

impl SettingKey {
    /// The name under which the setting is stored.
    pub fn to_string(&self) -> (r: String)
        ensures
            r@ == setting_key_name(*self),
    {
        match self {
            SettingKey::SelfAddress => "self_address".to_owned(),
        }
    }
}

/// How an MCP server came to be known to the service.
pub enum CreateFrom {
    /// Through the registry API.
    Register,
}

pub open spec fn create_from_name(origin: CreateFrom) -> Seq<char> {
    match origin {
        CreateFrom::Register => "register"@,
    }
}

impl CreateFrom {
    /// The name stored in the `create_from` column.
    pub fn to_string(&self) -> (r: String)
        ensures
            r@ == create_from_name(*self),
    {
        match self {
            CreateFrom::Register => "register".to_owned(),
        }
    }
}

/// Events the registry announces to the rest of the service.
pub enum Event {
    /// An MCP server was registered or changed.
    CreateOrUpdate { mcp_name: String, tag: String, endpoint: String },
}

/// How a database request failed, as far as the handlers tell failures apart.
#[derive(Clone, Copy, PartialEq, Eq, Structural)]
pub enum DbError {
    /// The query returned no row where one was expected.
    RowNotFound,
    /// Any other failure.
    Other,
}

} // verus!
