//! The database handlers: the statements they send and what they make of
//! the rows that come back. Running a statement is left to the caller.
use vstd::prelude::*;
use std::sync::Arc;
use uuid::Uuid;
use serde_json::Value;
use crate::model::{McpServers, SystemSettings, SettingKey, DbError, setting_key_name};
use crate::text::{join_str, trim_end_char, trim_end_char_spec, lemma_trim_end_char_shape};

verus! {

/// Handler for the MCP server table, over a shared database client.
pub struct McpDBHandler<C> {
    client: Arc<C>,
}

impl<C> McpDBHandler<C> {
    pub closed spec fn spec_client(&self) -> Arc<C> {
        self.client
    }

    pub fn new(client: Arc<C>) -> (r: Self)
        ensures
            r.spec_client() == client,
    {
        McpDBHandler { client }
    }

    /// The database client the handler runs its statements on.
    pub fn client(&self) -> (r: &Arc<C>)
        ensures
            *r == self.spec_client(),
    {
        &self.client
    }
}

/// Handler for the system settings table, over a shared database client.
pub struct SystemSettingsDBHandler<C> {
    client: Arc<C>,
}

impl<C> SystemSettingsDBHandler<C> {
    pub closed spec fn spec_client(&self) -> Arc<C> {
        self.client
    }

    pub fn new(client: Arc<C>) -> (r: Self)
        ensures
            r.spec_client() == client,
    {
        SystemSettingsDBHandler { client }
    }

    /// The database client the handler runs its statements on.
    pub fn client(&self) -> (r: &Arc<C>)
        ensures
            *r == self.spec_client(),
    {
        &self.client
    }
}

/// A value bound to a statement parameter.
pub enum SqlParam {
    Uuid(Uuid),
    Text(String),
    BigInt(i64),
    Bool(bool),
    Json(Value),
}

pub enum SqlParamView {
    Uuid(Uuid),
    Text(Seq<char>),
    BigInt(i64),
    Bool(bool),
    Json(Value),
}

impl View for SqlParam {
    type V = SqlParamView;

    open spec fn view(&self) -> SqlParamView {
        match self {
            SqlParam::Uuid(u) => SqlParamView::Uuid(*u),
            SqlParam::Text(s) => SqlParamView::Text(s@),
            SqlParam::BigInt(i) => SqlParamView::BigInt(*i),
            SqlParam::Bool(b) => SqlParamView::Bool(*b),
            SqlParam::Json(v) => SqlParamView::Json(*v),
        }
    }
}

/// A statement and the values of its parameters `$1`, `$2`, ... in order.
pub struct SqlQuery {
    pub sql: String,
    pub params: Vec<SqlParam>,
}

impl SqlQuery {
    pub open spec fn params_view(self) -> Seq<SqlParamView> {
        self.params@.map_values(|p: SqlParam| p@)
    }

    /// This statement, with these parameter values.
    pub open spec fn is(self, sql: Seq<char>, params: Seq<SqlParamView>) -> bool {
        self.sql@ == sql && self.params_view() == params
    }
}

pub const MCP_LIST_ALL_SQL: &'static str = "SELECT * FROM tb_mcp_servers ORDER BY id";

pub const MCP_LIST_BY_NAME_SQL: &'static str =
    "SELECT * FROM tb_mcp_servers WHERE name ILIKE $1 ORDER BY id LIMIT $2 OFFSET $3";

pub const MCP_LIST_PAGE_SQL: &'static str = "SELECT * FROM tb_mcp_servers ORDER BY id LIMIT $1 OFFSET $2";

pub const MCP_COUNT_SQL: &'static str = "SELECT COUNT(*) FROM tb_mcp_servers";

pub const MCP_CREATE_WITH_EXTRA_SQL: &'static str =
    "INSERT INTO tb_mcp_servers (id, name, tag, endpoint, transport_type, description, create_from, extra) VALUES ($1, $2, $3, $4, $5, $6, $7, $8) RETURNING *";

pub const MCP_CREATE_SQL: &'static str =
    "INSERT INTO tb_mcp_servers (id, name, tag, endpoint, transport_type, description, create_from) VALUES ($1, $2, $3, $4, $5, $6, $7) RETURNING *";

pub const MCP_UPDATE_SQL: &'static str =
    "UPDATE tb_mcp_servers SET name = $1, tag = $2, endpoint = $3, transport_type = $4, create_from = $5, description = $6, updated_at = CURRENT_TIMESTAMP, disabled = $7 WHERE id = $8 RETURNING *";

pub const MCP_UPDATE_WITH_EXTRA_SQL: &'static str =
    "UPDATE tb_mcp_servers SET extra = $1, name = $2, tag = $3, endpoint = $4, transport_type = $5, create_from = $6, description = $7, updated_at = CURRENT_TIMESTAMP, disabled = $8 WHERE id = $9 RETURNING *";

pub const SETTINGS_LIST_ALL_SQL: &'static str = "SELECT * FROM tb_system_settings ORDER BY setting_name";

pub const SETTINGS_GET_BY_NAME_SQL: &'static str = "SELECT * FROM tb_system_settings WHERE setting_name = $1";

pub const SETTINGS_UPSERT_SQL: &'static str =
    "INSERT INTO tb_system_settings (setting_name, setting_value) VALUES ($1, $2) ON CONFLICT (setting_name) DO UPDATE SET setting_value = EXCLUDED.setting_value RETURNING *";

/// The address used when the self-address setting cannot be read.
pub const DEFAULT_SELF_ADDRESS: &'static str = "http://127.0.0.1";

/// `%name%`: the pattern that matches names containing `name`.
pub open spec fn contains_pattern(name: Seq<char>) -> Seq<char> {
    seq!['%'] + name + seq!['%']
}

fn query(sql: &str, params: Vec<SqlParam>) -> (r: SqlQuery)
    ensures
        r.sql@ == sql@,
        r.params == params,
{
    SqlQuery { sql: sql.to_owned(), params }
}

/// All MCP servers, ordered by id.
pub fn mcp_list_all_query() -> (r: SqlQuery)
    ensures
        r.is(MCP_LIST_ALL_SQL@, seq![]),
{
    let r = query(MCP_LIST_ALL_SQL, Vec::new());
    assert(r.params_view() =~= seq![]);
    r
}

/// One page of MCP servers ordered by id; with a name, only servers whose
/// name contains it, compared without regard to case.
pub fn mcp_list_with_limit_query(name: Option<String>, limit: i64, offset: i64) -> (r: SqlQuery)
    ensures
        match name {
            Some(n) => r.is(
                MCP_LIST_BY_NAME_SQL@,
                seq![
                    SqlParamView::Text(contains_pattern(n@)),
                    SqlParamView::BigInt(limit),
                    SqlParamView::BigInt(offset),
                ],
            ),
            None => r.is(
                MCP_LIST_PAGE_SQL@,
                seq![SqlParamView::BigInt(limit), SqlParamView::BigInt(offset)],
            ),
        },
        name matches Some(n) ==> (r.params_view().len() == 3 && r.params_view()[0]
            == SqlParamView::Text(seq!['%'] + n@ + seq!['%']) && r.params_view()[1]
            == SqlParamView::BigInt(limit) && r.params_view()[2] == SqlParamView::BigInt(offset)),
        name is None ==> (r.params_view().len() == 2 && r.params_view()[0] == SqlParamView::BigInt(
            limit,
        ) && r.params_view()[1] == SqlParamView::BigInt(offset)),
{
    match name {
        Some(n) => {
            let head = join_str("%", n.as_str());
            let pattern = join_str(head.as_str(), "%");
            proof {
                reveal_strlit("%");
                assert(pattern@ =~= contains_pattern(n@));
            }
            let mut params = Vec::new();
            params.push(SqlParam::Text(pattern));
            params.push(SqlParam::BigInt(limit));
            params.push(SqlParam::BigInt(offset));
            let r = query(MCP_LIST_BY_NAME_SQL, params);
            assert(r.params_view() =~= seq![
                SqlParamView::Text(contains_pattern(n@)),
                SqlParamView::BigInt(limit),
                SqlParamView::BigInt(offset),
            ]);
            r
        },
        None => {
            let mut params = Vec::new();
            params.push(SqlParam::BigInt(limit));
            params.push(SqlParam::BigInt(offset));
            let r = query(MCP_LIST_PAGE_SQL, params);
            assert(r.params_view() =~= seq![
                SqlParamView::BigInt(limit),
                SqlParamView::BigInt(offset),
            ]);
            r
        },
    }
}

/// The number of MCP servers.
pub fn mcp_count_query() -> (r: SqlQuery)
    ensures
        r.is(MCP_COUNT_SQL@, seq![]),
{
    let r = query(MCP_COUNT_SQL, Vec::new());
    assert(r.params_view() =~= seq![]);
    r
}

/// The parameters shared by both forms of the insert, in column order.
pub open spec fn create_params(server: McpServers) -> Seq<SqlParamView> {
    seq![
        SqlParamView::Uuid(server.id),
        SqlParamView::Text(server.name@),
        SqlParamView::Text(server.tag@),
        SqlParamView::Text(server.endpoint@),
        SqlParamView::Text(server.transport_type@),
        SqlParamView::Text(server.description@),
        SqlParamView::Text(server.create_from@),
    ]
}

/// The columns the insert fills, in the order of its parameters `$1`, `$2`,
/// ... : `id, name, tag, endpoint, transport_type, description, create_from`,
/// then `extra` where the server has one.
pub proof fn lemma_create_params_follow_columns(server: McpServers)
    ensures
        create_params(server).len() == 7,
        create_params(server)[0] == SqlParamView::Uuid(server.id),
        create_params(server)[1] == SqlParamView::Text(server.name@),
        create_params(server)[2] == SqlParamView::Text(server.tag@),
        create_params(server)[3] == SqlParamView::Text(server.endpoint@),
        create_params(server)[4] == SqlParamView::Text(server.transport_type@),
        create_params(server)[5] == SqlParamView::Text(server.description@),
        create_params(server)[6] == SqlParamView::Text(server.create_from@),
{
}

/// Insert `server`, returning the stored row; `extra` is written only when
/// the server has one. Parameter `$i` fills the `i`-th column listed in the
/// statement: `id, name, tag, endpoint, transport_type, description,
/// create_from`, then `extra`.
pub fn mcp_create_query(server: McpServers) -> (r: SqlQuery)
    ensures
        match server.extra {
            Some(extra) => r.is(
                MCP_CREATE_WITH_EXTRA_SQL@,
                create_params(server).push(SqlParamView::Json(extra)),
            ),
            None => r.is(MCP_CREATE_SQL@, create_params(server)),
        },
        server.extra is Some ==> r.sql@ == MCP_CREATE_WITH_EXTRA_SQL@,
        server.extra is None ==> r.sql@ == MCP_CREATE_SQL@,
        r.params_view().len() == if server.extra is Some {
            8int
        } else {
            7int
        },
        r.params_view()[0] == SqlParamView::Uuid(server.id),
        r.params_view()[1] == SqlParamView::Text(server.name@),
        r.params_view()[2] == SqlParamView::Text(server.tag@),
        r.params_view()[3] == SqlParamView::Text(server.endpoint@),
        r.params_view()[4] == SqlParamView::Text(server.transport_type@),
        r.params_view()[5] == SqlParamView::Text(server.description@),
        r.params_view()[6] == SqlParamView::Text(server.create_from@),
        server.extra matches Some(e) ==> r.params_view()[7] == SqlParamView::Json(e),
{
    let ghost old_server = server;
    let McpServers { id, name, tag, endpoint, transport_type, description, create_from, extra, .. } =
        server;
    let mut params = Vec::new();
    params.push(SqlParam::Uuid(id));
    params.push(SqlParam::Text(name));
    params.push(SqlParam::Text(tag));
    params.push(SqlParam::Text(endpoint));
    params.push(SqlParam::Text(transport_type));
    params.push(SqlParam::Text(description));
    params.push(SqlParam::Text(create_from));
    match extra {
        Some(e) => {
            params.push(SqlParam::Json(e));
            let r = query(MCP_CREATE_WITH_EXTRA_SQL, params);
            assert(r.params_view() =~= create_params(old_server).push(SqlParamView::Json(e)));
            r
        },
        None => {
            let r = query(MCP_CREATE_SQL, params);
            assert(r.params_view() =~= create_params(old_server));
            r
        },
    }
}

/// The parameters the update binds after `extra`, in order.
pub open spec fn update_params(server: McpServers) -> Seq<SqlParamView> {
    seq![
        SqlParamView::Text(server.name@),
        SqlParamView::Text(server.tag@),
        SqlParamView::Text(server.endpoint@),
        SqlParamView::Text(server.transport_type@),
        SqlParamView::Text(server.create_from@),
        SqlParamView::Text(server.description@),
        SqlParamView::Bool(server.disabled),
        SqlParamView::Uuid(server.id),
    ]
}

/// The values the update sets, in the order of its parameters: `name, tag,
/// endpoint, transport_type, create_from, description, disabled`, then the
/// `id` of the row to update.
pub proof fn lemma_update_params_follow_columns(server: McpServers)
    ensures
        update_params(server).len() == 8,
        update_params(server)[0] == SqlParamView::Text(server.name@),
        update_params(server)[1] == SqlParamView::Text(server.tag@),
        update_params(server)[2] == SqlParamView::Text(server.endpoint@),
        update_params(server)[3] == SqlParamView::Text(server.transport_type@),
        update_params(server)[4] == SqlParamView::Text(server.create_from@),
        update_params(server)[5] == SqlParamView::Text(server.description@),
        update_params(server)[6] == SqlParamView::Bool(server.disabled),
        update_params(server)[7] == SqlParamView::Uuid(server.id),
{
}

/// Overwrite the stored server with `server.id`, returning the stored row;
/// `extra` is written only when the server has one. With `extra`, `$1` is
/// `extra` and the other values follow one place later.
pub fn mcp_update_query(server: McpServers) -> (r: SqlQuery)
    ensures
        match server.extra {
            Some(extra) => r.is(
                MCP_UPDATE_WITH_EXTRA_SQL@,
                seq![SqlParamView::Json(extra)] + update_params(server),
            ),
            None => r.is(MCP_UPDATE_SQL@, update_params(server)),
        },
        server.extra is Some ==> r.sql@ == MCP_UPDATE_WITH_EXTRA_SQL@,
        server.extra is None ==> r.sql@ == MCP_UPDATE_SQL@,
        server.extra matches Some(e) ==> r.params_view()[0] == SqlParamView::Json(e),
        ({
            let o: int = if server.extra is Some {
                1
            } else {
                0
            };
            &&& r.params_view().len() == o + 8
            &&& r.params_view()[o] == SqlParamView::Text(server.name@)
            &&& r.params_view()[o + 1] == SqlParamView::Text(server.tag@)
            &&& r.params_view()[o + 2] == SqlParamView::Text(server.endpoint@)
            &&& r.params_view()[o + 3] == SqlParamView::Text(server.transport_type@)
            &&& r.params_view()[o + 4] == SqlParamView::Text(server.create_from@)
            &&& r.params_view()[o + 5] == SqlParamView::Text(server.description@)
            &&& r.params_view()[o + 6] == SqlParamView::Bool(server.disabled)
            &&& r.params_view()[o + 7] == SqlParamView::Uuid(server.id)
        }),
{
    let ghost old_server = server;
    let McpServers {
        id,
        name,
        tag,
        endpoint,
        transport_type,
        description,
        create_from,
        extra,
        disabled,
        ..
    } = server;
    let mut params = Vec::new();
    let with_extra = match extra {
        Some(e) => {
            params.push(SqlParam::Json(e));
            true
        },
        None => false,
    };
    params.push(SqlParam::Text(name));
    params.push(SqlParam::Text(tag));
    params.push(SqlParam::Text(endpoint));
    params.push(SqlParam::Text(transport_type));
    params.push(SqlParam::Text(create_from));
    params.push(SqlParam::Text(description));
    params.push(SqlParam::Bool(disabled));
    params.push(SqlParam::Uuid(id));
    if with_extra {
        let r = query(MCP_UPDATE_WITH_EXTRA_SQL, params);
        assert(r.params_view() =~= seq![SqlParamView::Json(old_server.extra.unwrap())]
            + update_params(old_server));
        r
    } else {
        let r = query(MCP_UPDATE_SQL, params);
        assert(r.params_view() =~= update_params(old_server));
        r
    }
}

/// All settings, ordered by name.
pub fn settings_list_all_query() -> (r: SqlQuery)
    ensures
        r.is(SETTINGS_LIST_ALL_SQL@, seq![]),
{
    let r = query(SETTINGS_LIST_ALL_SQL, Vec::new());
    assert(r.params_view() =~= seq![]);
    r
}

/// The setting called `name`, if there is one.
pub fn settings_get_by_name_query(name: &str) -> (r: SqlQuery)
    ensures
        r.is(SETTINGS_GET_BY_NAME_SQL@, seq![SqlParamView::Text(name@)]),
{
    let mut params = Vec::new();
    params.push(SqlParam::Text(name.to_owned()));
    let r = query(SETTINGS_GET_BY_NAME_SQL, params);
    assert(r.params_view() =~= seq![SqlParamView::Text(name@)]);
    r
}

/// Store `value` under `name`, replacing any value stored there, returning
/// the stored row.
pub fn settings_upsert_query(name: &str, value: &str) -> (r: SqlQuery)
    ensures
        r.is(SETTINGS_UPSERT_SQL@, seq![SqlParamView::Text(name@), SqlParamView::Text(value@)]),
{
    let mut params = Vec::new();
    params.push(SqlParam::Text(name.to_owned()));
    params.push(SqlParam::Text(value.to_owned()));
    let r = query(SETTINGS_UPSERT_SQL, params);
    assert(r.params_view() =~= seq![SqlParamView::Text(name@), SqlParamView::Text(value@)]);
    r
}

/// The setting stored under `key`.
pub fn system_setting_query(key: SettingKey) -> (r: SqlQuery)
    ensures
        r.is(SETTINGS_GET_BY_NAME_SQL@, seq![SqlParamView::Text(setting_key_name(key))]),
{
    let mut params = Vec::new();
    params.push(SqlParam::Text(key.to_string()));
    let r = query(SETTINGS_GET_BY_NAME_SQL, params);
    assert(r.params_view() =~= seq![SqlParamView::Text(setting_key_name(key))]);
    r
}

/// What a system setting read yields: the stored value without trailing
/// slashes, or the default address when the row could not be read.
pub open spec fn resolved_setting(fetched: Result<SystemSettings, DbError>) -> Seq<char> {
    match fetched {
        Ok(s) => trim_end_char_spec(s.setting_value@, '/'),
        Err(_) => DEFAULT_SELF_ADDRESS@,
    }
}

/// The value of a system setting as the service uses it, from the outcome
/// of `system_setting_query`.
pub fn resolve_system_setting(fetched: Result<SystemSettings, DbError>) -> (r: String)
    ensures
        r@ == resolved_setting(fetched),
        fetched is Err ==> r@ == DEFAULT_SELF_ADDRESS@,
        fetched matches Ok(s) ==> ({
            let v = s.setting_value@;
            &&& r@.len() <= v.len()
            &&& r@ == v.subrange(0, r@.len() as int)
            &&& forall|i: int| r@.len() <= i < v.len() ==> #[trigger] v[i] == '/'
            &&& r@.len() > 0 ==> r@.last() != '/'
        }),
{
    match fetched {
        Ok(settings) => trim_end_char(settings.setting_value.as_str(), '/'),
        Err(_) => DEFAULT_SELF_ADDRESS.to_owned(),
    }
}

/// The address the service uses for itself never ends with `/`, and is
/// the stored value cut at its trailing slashes: it keeps every character of
/// the stored value but the trailing `/`s, so a value without a trailing `/`
/// is used unchanged.
pub proof fn lemma_resolved_setting_has_no_trailing_slash(fetched: Result<SystemSettings, DbError>)
    ensures
        resolved_setting(fetched).len() > 0 ==> resolved_setting(fetched).last() != '/',
        fetched matches Ok(s) ==> resolved_setting(fetched) == s.setting_value@.subrange(
            0,
            resolved_setting(fetched).len() as int,
        ),
        fetched matches Ok(s) ==> forall|i: int|
            resolved_setting(fetched).len() <= i < s.setting_value@.len()
                ==> #[trigger] s.setting_value@[i] == '/',
        fetched matches Ok(s) ==> (s.setting_value@.len() == 0 || s.setting_value@.last() != '/')
            ==> resolved_setting(fetched) == s.setting_value@,
{
    match fetched {
        Ok(s) => {
            let v = s.setting_value@;
            lemma_trim_end_char_shape(v, '/');
            if v.len() == 0 || v.last() != '/' {
                assert(v.subrange(0, v.len() as int) =~= v);
            }
        },
        Err(_) => {
            reveal_strlit("http://127.0.0.1");
        },
    }
}

} // verus!
