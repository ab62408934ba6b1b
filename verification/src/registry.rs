//! The MCP server registry API: listing, registering and updating servers.
use vstd::prelude::*;
use uuid::Uuid;
use serde_json::Value;
use crate::model::{McpServers, DbError, Event, CreateFrom, create_from_name};
use crate::outside::new_v4_uuid;
use crate::response::{ApiError, Payload, Response, fails_internal, succeeds_with};
use crate::text::join_str;

verus! {

/// The servers found and the total number of servers.
pub struct ListAllResponse {
    pub servers: Vec<McpServers>,
    pub count: i64,
}

/// The address under which the service proxies the server `name`/`tag`.
pub open spec fn proxy_endpoint(self_address: Seq<char>, name: Seq<char>, tag: Seq<char>) -> Seq<
    char,
> {
    self_address + "/proxy/connect/"@ + name + "/"@ + tag
}

/// `after` is `before` with its endpoint replaced by the proxy address.
pub open spec fn endpoint_rewritten(before: McpServers, after: McpServers, self_address: Seq<char>) -> bool {
    &&& after.id == before.id
    &&& after.name == before.name
    &&& after.tag == before.tag
    &&& after.transport_type == before.transport_type
    &&& after.description == before.description
    &&& after.create_from == before.create_from
    &&& after.extra == before.extra
    &&& after.disabled == before.disabled
    &&& after.created_at == before.created_at
    &&& after.updated_at == before.updated_at
    &&& after.deleted_at == before.deleted_at
    &&& after.endpoint@ == proxy_endpoint(self_address, before.name@, before.tag@)
}

/// The servers, in the same order, each reachable through the proxy under
/// `self_address` in place of its own endpoint.
pub fn rewrite_endpoints(servers: Vec<McpServers>, self_address: &str) -> (r: Vec<McpServers>)
    ensures
        r.len() == servers.len(),
        forall|i: int|
            0 <= i < servers.len() ==> endpoint_rewritten(
                #[trigger] servers@[i],
                r@[i],
                self_address@,
            ),
        forall|i: int|
            0 <= i < servers.len() ==> (#[trigger] r@[i]).endpoint@ == self_address@
                + "/proxy/connect/"@ + servers@[i].name@ + "/"@ + servers@[i].tag@ && r@[i].id
                == servers@[i].id && r@[i].name == servers@[i].name && r@[i].tag
                == servers@[i].tag && r@[i].extra == servers@[i].extra,
{
    let ghost orig = servers@;
    let mut out: Vec<McpServers> = Vec::new();
    for server in it: servers.into_iter()
        invariant
            it.seq() == orig,
            out.len() == it.index(),
            forall|i: int|
                0 <= i < it.index() ==> endpoint_rewritten(#[trigger] orig[i], out@[i], self_address@),
    {
        let mut s = server;
        let a = join_str(self_address, "/proxy/connect/");
        let b = join_str(a.as_str(), s.name.as_str());
        let c = join_str(b.as_str(), "/");
        let d = join_str(c.as_str(), s.tag.as_str());
        s.endpoint = d;
        out.push(s);
    }
    out
}

pub const PAGING_MISMATCH: &'static str =
    "Both page_size and page_num must be provided together or omitted together";

pub const MCP_HANDLER_MISSING: &'static str = "Can't get MCP handler not found";

pub const SETTINGS_HANDLER_MISSING: &'static str = "Can't get system settings handler not found";

pub const LIST_FAILED: &'static str = "Failed to list mcp servers";

pub const COUNT_FAILED: &'static str = "Failed to count mcp servers";

pub const CREATE_FAILED: &'static str = "Failed to create mcp server";

pub const UPDATE_FAILED: &'static str = "Can't update MCP Server";

/// Query parameters of the listing: paging (both or neither), a name
/// filter that applies to paged listings, and whether to keep the servers'
/// own endpoints.
pub struct ListAllRequest {
    pub use_raw_endpoint: Option<bool>,
    pub page_size: Option<i64>,
    pub page_num: Option<i64>,
    pub query: Option<String>,
}

/// How the servers are fetched.
pub enum ListPlan {
    /// `limit` servers from position `offset` on, filtered by `query`.
    Paged { query: Option<String>, limit: i64, offset: i64 },
    /// Every server.
    All,
}

pub open spec fn or_zero(x: Option<i64>) -> i64 {
    match x {
        Some(v) => v,
        None => 0,
    }
}

/// The position of the first server of page `num` (counted from 1) of
/// pages of `size` servers.
pub open spec fn page_offset(size: int, num: int) -> int {
    (num - 1) * size
}

/// The request asks for a page.
pub open spec fn is_paged(request: ListAllRequest) -> bool {
    or_zero(request.page_size) > 0 && or_zero(request.page_num) > 0
}

/// The offset of the requested page fits in an `i64`.
pub open spec fn paging_fits(request: ListAllRequest) -> bool {
    is_paged(request) ==> page_offset(
        or_zero(request.page_size) as int,
        or_zero(request.page_num) as int,
    ) <= i64::MAX
}

/// How a valid listing request fetches its servers.
pub open spec fn list_plan_spec(request: ListAllRequest) -> ListPlan {
    if is_paged(request) {
        ListPlan::Paged {
            query: request.query,
            limit: or_zero(request.page_size),
            offset: page_offset(
                or_zero(request.page_size) as int,
                or_zero(request.page_num) as int,
            ) as i64,
        }
    } else {
        ListPlan::All
    }
}

/// Whether the offset of the requested page fits in an `i64` (where it does
/// not, the listing cannot be planned).
pub fn list_all_paging_fits(request: &ListAllRequest) -> (r: bool)
    ensures
        r == paging_fits(*request),
{
    let size = match request.page_size {
        Some(v) => v,
        None => 0,
    };
    let num = match request.page_num {
        Some(v) => v,
        None => 0,
    };
    if size > 0 && num > 0 {
        let n: i128 = (num - 1) as i128;
        let s: i128 = size as i128;
        assert(n * s <= (i64::MAX as int) * (i64::MAX as int)) by (nonlinear_arith)
            requires
                0 <= n <= i64::MAX,
                0 < s <= i64::MAX,
        ;
        n * s <= i64::MAX as i128
    } else {
        true
    }
}

/// The listing gets as far as computing the page offset: the paging
/// parameters agree and both handlers exist.
pub open spec fn plan_reaches_offset(
    request: ListAllRequest,
    has_mcp_handler: bool,
    has_settings_handler: bool,
) -> bool {
    request.page_size.is_some() == request.page_num.is_some() && has_mcp_handler
        && has_settings_handler
}

/// Whether the first step of the listing can be taken on these inputs:
/// where it gets as far as the page offset, the offset fits in an `i64`.
pub fn list_all_plan_defined(
    request: &ListAllRequest,
    has_mcp_handler: bool,
    has_settings_handler: bool,
) -> (r: bool)
    ensures
        r == (plan_reaches_offset(*request, has_mcp_handler, has_settings_handler) ==> paging_fits(
            *request,
        )),
{
    if request.page_size.is_some() == request.page_num.is_some() && has_mcp_handler
        && has_settings_handler {
        list_all_paging_fits(request)
    } else {
        true
    }
}

/// First step of the listing: checks the request and the handlers the
/// listing needs, and says how to fetch the servers.
pub fn list_all_plan(request: &ListAllRequest, has_mcp_handler: bool, has_settings_handler: bool) -> (r: Result<ListPlan, ApiError>)
    requires
        plan_reaches_offset(*request, has_mcp_handler, has_settings_handler) ==> paging_fits(
            *request,
        ),
    ensures
        request.page_size.is_some() != request.page_num.is_some() ==> fails_internal(
            r,
            PAGING_MISMATCH@,
        ),
        request.page_size.is_some() == request.page_num.is_some() && !has_mcp_handler
            ==> fails_internal(r, MCP_HANDLER_MISSING@),
        request.page_size.is_some() == request.page_num.is_some() && has_mcp_handler
            && !has_settings_handler ==> fails_internal(r, SETTINGS_HANDLER_MISSING@),
        request.page_size.is_some() == request.page_num.is_some() && has_mcp_handler
            && has_settings_handler ==> r == Ok::<ListPlan, ApiError>(list_plan_spec(*request)),
        has_mcp_handler && has_settings_handler ==> (request.page_size matches Some(size) ==> (
        request.page_num matches Some(num) ==> (size > 0 && num > 0 ==> (r matches Ok(
            ListPlan::Paged { query, limit, offset },
        ) && query == request.query && limit == size && offset == (num - 1) * size)))),
        has_mcp_handler && has_settings_handler ==> (request.page_size matches Some(size) ==> (
        request.page_num matches Some(num) ==> (!(size > 0 && num > 0) ==> r == Ok::<
            ListPlan,
            ApiError,
        >(ListPlan::All)))),
        has_mcp_handler && has_settings_handler && request.page_size is None
            && request.page_num is None ==> r == Ok::<ListPlan, ApiError>(ListPlan::All),
{
    if request.page_size.is_some() != request.page_num.is_some() {
        return Err(ApiError::internal(PAGING_MISMATCH));
    }
    let page_size = match request.page_size {
        Some(v) => v,
        None => 0,
    };
    let page_num = match request.page_num {
        Some(v) => v,
        None => 0,
    };
    if !has_mcp_handler {
        return Err(ApiError::internal(MCP_HANDLER_MISSING));
    }
    if !has_settings_handler {
        return Err(ApiError::internal(SETTINGS_HANDLER_MISSING));
    }
    if page_size > 0 && page_num > 0 {
        let query = match &request.query {
            Some(q) => Some(q.clone()),
            None => None,
        };
        Ok(ListPlan::Paged { query, limit: page_size, offset: (page_num - 1) * page_size })
    } else {
        Ok(ListPlan::All)
    }
}

/// Second step of the listing: the servers fetched, with their endpoints
/// replaced by proxy addresses unless raw endpoints were asked for.
pub fn list_all_listed(
    listed: Result<Vec<McpServers>, DbError>,
    use_raw_endpoint: Option<bool>,
    self_address: &str,
) -> (r: Result<Vec<McpServers>, ApiError>)
    ensures
        listed is Err ==> fails_internal(r, LIST_FAILED@),
        listed matches Ok(v) ==> (r matches Ok(w) && if use_raw_endpoint == Some(true) {
            w == v
        } else {
            &&& w.len() == v.len()
            &&& forall|i: int|
                0 <= i < v.len() ==> endpoint_rewritten(#[trigger] v@[i], w@[i], self_address@)
        }),
        listed matches Ok(v) ==> (use_raw_endpoint != Some(true) ==> (r matches Ok(w) && forall|
            i: int,
        |
            0 <= i < v.len() ==> (#[trigger] w@[i]).endpoint@ == self_address@
                + "/proxy/connect/"@ + v@[i].name@ + "/"@ + v@[i].tag@)),
{
    match listed {
        Err(_) => Err(ApiError::internal(LIST_FAILED)),
        Ok(servers) => {
            let raw = match use_raw_endpoint {
                Some(b) => b,
                None => false,
            };
            if raw {
                Ok(servers)
            } else {
                Ok(rewrite_endpoints(servers, self_address))
            }
        },
    }
}

/// Last step of the listing: the answer, from the servers and the count.
pub fn list_all_counted(servers: Vec<McpServers>, counted: Result<i64, DbError>) -> (r: Result<
    Response,
    ApiError,
>)
    ensures
        counted is Err ==> fails_internal(r, COUNT_FAILED@),
        counted matches Ok(c) ==> succeeds_with(
            r,
            Payload::ServerList((ListAllResponse { servers, count: c })),
        ),
{
    match counted {
        Err(_) => Err(ApiError::internal(COUNT_FAILED)),
        Ok(count) => Ok(Response::success(Payload::ServerList(ListAllResponse { servers, count }))),
    }
}

/// A request for page `num` of `size` servers fetches `size` servers from
/// position `(num - 1) * size` on, filtered by the request's name filter
/// unchanged; a request without a positive page fetches every server.
pub proof fn lemma_paged_plan(request: ListAllRequest, size: i64, num: i64)
    requires
        request.page_size == Some(size),
        request.page_num == Some(num),
    ensures
        size > 0 && num > 0 ==> (list_plan_spec(request) matches ListPlan::Paged {
            query,
            limit,
            offset,
        } && query == request.query && limit == size && offset == ((num - 1) * size) as i64),
        !(size > 0 && num > 0) ==> list_plan_spec(request) == ListPlan::All,
{
}

/// Consecutive pages of the same size follow each other without gap or
/// overlap: page `num + 1` starts where page `num` ends.
pub proof fn lemma_pages_adjacent(request: ListAllRequest, next: ListAllRequest)
    requires
        is_paged(request),
        next.page_size == request.page_size,
        or_zero(next.page_num) == or_zero(request.page_num) + 1,
        next.page_num is Some,
        paging_fits(next),
    ensures
        paging_fits(request),
        list_plan_spec(request) matches ListPlan::Paged { limit, offset, .. }
            && list_plan_spec(next) matches ListPlan::Paged { offset: next_offset, .. }
            && next_offset == offset + limit,
{
    let s = or_zero(request.page_size) as int;
    let n = or_zero(request.page_num) as int;
    assert(page_offset(s, n + 1) == page_offset(s, n) + s) by (nonlinear_arith);
    assert(page_offset(s, n) >= 0) by (nonlinear_arith)
        requires
            s > 0,
            n > 0,
    ;
}

/// Body of a registration request.
pub struct McpRegisterRequest {
    pub name: String,
    pub tag: String,
    pub endpoint: String,
    pub transport_type: String,
    pub description: String,
    pub create_from: Option<String>,
    pub extra: Option<Value>,
}

/// `record` is what a registration stores for `request` under `id`: the
/// request's fields, `register` as origin where the request names none,
/// enabled, with zero timestamps.
pub open spec fn registered_record(request: McpRegisterRequest, id: Uuid, record: McpServers) -> bool {
    &&& record.id == id
    &&& record.name == request.name
    &&& record.tag == request.tag
    &&& record.endpoint == request.endpoint
    &&& record.transport_type == request.transport_type
    &&& record.description == request.description
    &&& record.create_from@ == match request.create_from {
        Some(c) => c@,
        None => create_from_name(CreateFrom::Register),
    }
    &&& record.extra == request.extra
    &&& !record.disabled
    &&& record.created_at == 0
    &&& record.updated_at == 0
    &&& record.deleted_at is None
}

/// The event that announces the registration of `request`.
pub open spec fn registration_event(request: McpRegisterRequest) -> Event {
    Event::CreateOrUpdate { mcp_name: request.name, tag: request.tag, endpoint: request.endpoint }
}

/// The record a registration stores for `request` under `id`.
pub fn register_record(request: McpRegisterRequest, id: Uuid) -> (r: McpServers)
    ensures
        registered_record(request, id, r),
        r.id == id,
        r.name == request.name,
        r.tag == request.tag,
        r.endpoint == request.endpoint,
        r.transport_type == request.transport_type,
        r.description == request.description,
        request.create_from matches Some(c) ==> r.create_from@ == c@,
        request.create_from is None ==> r.create_from@ == "register"@,
        r.extra == request.extra,
        !r.disabled,
        r.created_at == 0,
        r.updated_at == 0,
        r.deleted_at is None,
{
    let create_from = match request.create_from {
        Some(c) => c,
        None => CreateFrom::Register.to_string(),
    };
    McpServers {
        id,
        name: request.name,
        tag: request.tag,
        endpoint: request.endpoint,
        transport_type: request.transport_type,
        description: request.description,
        create_from,
        extra: request.extra,
        disabled: false,
        created_at: 0,
        updated_at: 0,
        deleted_at: None,
    }
}

/// What a registration stores, and the event to announce once it is stored.
pub struct RegisterPlan {
    pub record: McpServers,
    pub event: Event,
}

/// First step of a registration: the record to store, under a fresh random
/// id, and the event that will announce it.
pub fn register_begin(request: McpRegisterRequest, has_mcp_handler: bool) -> (r: Result<
    RegisterPlan,
    ApiError,
>)
    ensures
        !has_mcp_handler ==> fails_internal(r, MCP_HANDLER_MISSING@),
        has_mcp_handler ==> (r matches Ok(plan) && registered_record(
            request,
            plan.record.id,
            plan.record,
        ) && plan.event == registration_event(request)),
        has_mcp_handler ==> (r matches Ok(plan) && plan.record.name == request.name
            && plan.record.tag == request.tag && plan.record.endpoint == request.endpoint
            && plan.record.transport_type == request.transport_type && plan.record.description
            == request.description && plan.record.extra == request.extra && !plan.record.disabled
            && plan.event == (Event::CreateOrUpdate {
            mcp_name: request.name,
            tag: request.tag,
            endpoint: request.endpoint,
        })),
{
    if !has_mcp_handler {
        return Err(ApiError::internal(MCP_HANDLER_MISSING));
    }
    let event = Event::CreateOrUpdate {
        mcp_name: request.name.clone(),
        tag: request.tag.clone(),
        endpoint: request.endpoint.clone(),
    };
    let id = new_v4_uuid();
    let record = register_record(request, id);
    Ok(RegisterPlan { record, event })
}

/// What follows the store of a registration: the event to announce, if
/// any, and the answer.
pub struct RegisterOutcome {
    pub notify: Option<Event>,
    pub reply: Result<Response, ApiError>,
}

/// Last step of a registration: once stored, announce `event` and answer
/// with the stored record; otherwise announce nothing and answer with an
/// error.
pub fn register_finish(event: Event, created: Result<McpServers, DbError>) -> (r: RegisterOutcome)
    ensures
        created is Err ==> r.notify is None && fails_internal(r.reply, CREATE_FAILED@),
        created matches Ok(s) ==> r.notify == Some(event) && succeeds_with(
            r.reply,
            Payload::Server(s),
        ),
{
    match created {
        Err(_) => RegisterOutcome { notify: None, reply: Err(ApiError::internal(CREATE_FAILED)) },
        Ok(server) => RegisterOutcome {
            notify: Some(event),
            reply: Ok(Response::success(Payload::Server(server))),
        },
    }
}

/// A registration stores the request's fields unchanged, `register` as
/// origin where the request names none, and an enabled server.
pub proof fn lemma_registration_keeps_request(request: McpRegisterRequest, id: Uuid, record: McpServers)
    requires
        registered_record(request, id, record),
    ensures
        record.id == id,
        record.name == request.name,
        record.tag == request.tag,
        record.endpoint == request.endpoint,
        record.transport_type == request.transport_type,
        record.description == request.description,
        request.create_from matches Some(c) ==> record.create_from@ == c@,
        request.create_from is None ==> record.create_from@ == "register"@,
        record.extra == request.extra,
        !record.disabled,
{
}

/// The event a registration announces names the server it stores.
pub proof fn lemma_event_names_stored_server(request: McpRegisterRequest, id: Uuid, record: McpServers)
    requires
        registered_record(request, id, record),
    ensures
        registration_event(request) == (Event::CreateOrUpdate {
            mcp_name: record.name,
            tag: record.tag,
            endpoint: record.endpoint,
        }),
{
}

/// Body of an update request: the whole new state of the server `id`.
pub struct UpdateMcpRequest {
    pub id: Uuid,
    pub name: String,
    pub tag: String,
    pub endpoint: String,
    pub transport_type: String,
    pub description: String,
    pub create_from: String,
    pub extra: Option<Value>,
    pub disabled: bool,
}

/// The record an update writes for `request`.
pub open spec fn updated_record(request: UpdateMcpRequest) -> McpServers {
    McpServers {
        id: request.id,
        name: request.name,
        tag: request.tag,
        endpoint: request.endpoint,
        transport_type: request.transport_type,
        description: request.description,
        create_from: request.create_from,
        extra: request.extra,
        disabled: request.disabled,
        created_at: 0,
        updated_at: 0,
        deleted_at: None,
    }
}

/// First step of an update: the record to write.
pub fn update_begin(request: UpdateMcpRequest, has_mcp_handler: bool) -> (r: Result<
    McpServers,
    ApiError,
>)
    ensures
        !has_mcp_handler ==> fails_internal(r, MCP_HANDLER_MISSING@),
        has_mcp_handler ==> r == Ok::<McpServers, ApiError>(updated_record(request)),
        has_mcp_handler ==> (r matches Ok(rec) && rec.id == request.id && rec.name == request.name
            && rec.tag == request.tag && rec.endpoint == request.endpoint && rec.transport_type
            == request.transport_type && rec.description == request.description && rec.create_from
            == request.create_from && rec.extra == request.extra && rec.disabled
            == request.disabled && rec.created_at == 0 && rec.updated_at == 0
            && rec.deleted_at is None),
{
    if !has_mcp_handler {
        return Err(ApiError::internal(MCP_HANDLER_MISSING));
    }
    Ok(
        McpServers {
            id: request.id,
            name: request.name,
            tag: request.tag,
            endpoint: request.endpoint,
            transport_type: request.transport_type,
            description: request.description,
            create_from: request.create_from,
            extra: request.extra,
            disabled: request.disabled,
            created_at: 0,
            updated_at: 0,
            deleted_at: None,
        },
    )
}

/// An update writes the request's whole new state: every field of the
/// record is the request's, `extra` and `disabled` included.
pub proof fn lemma_update_writes_request(request: UpdateMcpRequest)
    ensures
        updated_record(request).id == request.id,
        updated_record(request).name == request.name,
        updated_record(request).tag == request.tag,
        updated_record(request).endpoint == request.endpoint,
        updated_record(request).transport_type == request.transport_type,
        updated_record(request).description == request.description,
        updated_record(request).create_from == request.create_from,
        updated_record(request).extra == request.extra,
        updated_record(request).disabled == request.disabled,
{
}

/// Last step of an update: the answer, carrying the stored record.
pub fn update_finish(updated: Result<McpServers, DbError>) -> (r: Result<Response, ApiError>)
    ensures
        updated is Err ==> fails_internal(r, UPDATE_FAILED@),
        updated matches Ok(s) ==> succeeds_with(r, Payload::Server(s)),
{
    match updated {
        Err(_) => Err(ApiError::internal(UPDATE_FAILED)),
        Ok(server) => Ok(Response::success(Payload::Server(server))),
    }
}

} // verus!
