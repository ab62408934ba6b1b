//! The system settings API: reading settings and storing new values.
use vstd::prelude::*;
use crate::model::{SystemSettings, DbError};
use crate::response::TextError;
use crate::status;

verus! {

pub const SETTINGS_HANDLER_UNAVAILABLE: &'static str = "Can't get system settings handler";

pub const QUERY_FAILED: &'static str = "Failed to query system settings";

pub const SETTING_NOT_FOUND: &'static str = "Setting not found";

pub const LIST_FAILED: &'static str = "Failed to list system settings";

pub const SETTINGS_EMPTY: &'static str = "settings must not be empty";

pub const UPDATE_FAILED: &'static str = "Failed to update system settings";

pub const SERIALIZATION_FAILED: &'static str = "Internal server error";

/// Query parameters of a settings read: one setting by name, or all.
pub struct GetSettingsRequest {
    pub setting_name: Option<String>,
}

pub struct ListSettingsResponse {
    pub settings: Vec<SystemSettings>,
}

/// One value to store.
pub struct UpdateSettingItem {
    pub setting_name: String,
    pub setting_value: String,
}

pub struct UpdateSettingsRequest {
    pub settings: Vec<UpdateSettingItem>,
}

pub struct UpdateSettingsResponse {
    pub settings: Vec<SystemSettings>,
}

/// `r` is the text error `status` / `message`.
pub open spec fn fails_text<T>(r: Result<T, TextError>, status: u16, message: Seq<char>) -> bool {
    match r {
        Err(e) => e.is(status, message),
        Ok(_) => false,
    }
}

/// How a settings read fetches its settings.
pub enum SettingsLookup {
    ByName(String),
    All,
}

/// First step of a settings read.
pub fn list_settings_plan(request: GetSettingsRequest, has_settings_handler: bool) -> (r: Result<
    SettingsLookup,
    TextError,
>)
    ensures
        !has_settings_handler ==> fails_text(
            r,
            status::INTERNAL_SERVER_ERROR,
            SETTINGS_HANDLER_UNAVAILABLE@,
        ),
        has_settings_handler ==> r == Ok::<SettingsLookup, TextError>(
            match request.setting_name {
                Some(n) => SettingsLookup::ByName(n),
                None => SettingsLookup::All,
            },
        ),
{
    if !has_settings_handler {
        return Err(TextError::new(status::INTERNAL_SERVER_ERROR, SETTINGS_HANDLER_UNAVAILABLE));
    }
    match request.setting_name {
        Some(n) => Ok(SettingsLookup::ByName(n)),
        None => Ok(SettingsLookup::All),
    }
}

/// Last step of a read by name: the setting found, `404` where there is
/// none.
pub fn list_settings_found(found: Result<Option<SystemSettings>, DbError>) -> (r: Result<
    ListSettingsResponse,
    TextError,
>)
    ensures
        found is Err ==> fails_text(r, status::INTERNAL_SERVER_ERROR, QUERY_FAILED@),
        found == Ok::<Option<SystemSettings>, DbError>(None) ==> fails_text(
            r,
            status::NOT_FOUND,
            SETTING_NOT_FOUND@,
        ),
        found matches Ok(Some(s)) ==> (r matches Ok(resp) && resp.settings@ == seq![s]),
{
    match found {
        Err(_) => Err(TextError::new(status::INTERNAL_SERVER_ERROR, QUERY_FAILED)),
        Ok(None) => Err(TextError::new(status::NOT_FOUND, SETTING_NOT_FOUND)),
        Ok(Some(s)) => {
            let mut settings = Vec::new();
            settings.push(s);
            Ok(ListSettingsResponse { settings })
        },
    }
}

/// Last step of a read of all settings.
pub fn list_settings_listed(listed: Result<Vec<SystemSettings>, DbError>) -> (r: Result<
    ListSettingsResponse,
    TextError,
>)
    ensures
        listed is Err ==> fails_text(r, status::INTERNAL_SERVER_ERROR, LIST_FAILED@),
        listed matches Ok(v) ==> (r matches Ok(resp) && resp.settings == v),
{
    match listed {
        Err(_) => Err(TextError::new(status::INTERNAL_SERVER_ERROR, LIST_FAILED)),
        Ok(settings) => Ok(ListSettingsResponse { settings }),
    }
}

/// The answer when the settings found cannot be turned into JSON.
pub fn settings_serialization_failed() -> (r: TextError)
    ensures
        r.is(status::INTERNAL_SERVER_ERROR, SERIALIZATION_FAILED@),
{
    TextError::new(status::INTERNAL_SERVER_ERROR, SERIALIZATION_FAILED)
}

/// An update of settings in progress: the items of the request, the rows
/// stored so far (one per item, in order), and whether it has ended.
pub struct UpdateSettingsFlow {
    items: Vec<UpdateSettingItem>,
    updated: Vec<SystemSettings>,
    stopped: bool,
}

pub struct UpdateSettingsFlowView {
    pub items: Seq<UpdateSettingItem>,
    pub updated: Seq<SystemSettings>,
    pub stopped: bool,
}

impl View for UpdateSettingsFlow {
    type V = UpdateSettingsFlowView;

    closed spec fn view(&self) -> UpdateSettingsFlowView {
        UpdateSettingsFlowView { items: self.items@, updated: self.updated@, stopped: self.stopped }
    }
}

impl UpdateSettingsFlowView {
    /// An upsert has been asked for and its outcome is awaited.
    pub open spec fn awaiting(self) -> bool {
        !self.stopped && self.updated.len() < self.items.len()
    }
}

/// What the update asks for next.
pub enum UpdateSettingsAction {
    /// Store `setting_value` under `setting_name` and report the outcome.
    Upsert { setting_name: String, setting_value: String },
    /// Answer the request.
    Respond(Result<UpdateSettingsResponse, TextError>),
}

pub enum UpdateSettingsActionView {
    Upsert { setting_name: Seq<char>, setting_value: Seq<char> },
    RespondOk(Seq<SystemSettings>),
    RespondErr { status: u16, message: Seq<char> },
}

impl UpdateSettingsAction {
    pub open spec fn matches(self, v: UpdateSettingsActionView) -> bool {
        match (self, v) {
            (
                UpdateSettingsAction::Upsert { setting_name, setting_value },
                UpdateSettingsActionView::Upsert { setting_name: n, setting_value: val },
            ) => setting_name@ == n && setting_value@ == val,
            (
                UpdateSettingsAction::Respond(Ok(resp)),
                UpdateSettingsActionView::RespondOk(settings),
            ) => resp.settings@ == settings,
            (
                UpdateSettingsAction::Respond(Err(e)),
                UpdateSettingsActionView::RespondErr { status, message },
            ) => e.is(status, message),
            _ => false,
        }
    }
}

/// Ask for the store of item `k`.
pub open spec fn upsert_item(items: Seq<UpdateSettingItem>, k: int) -> UpdateSettingsActionView {
    UpdateSettingsActionView::Upsert {
        setting_name: items[k].setting_name@,
        setting_value: items[k].setting_value@,
    }
}

/// How an update starts: the state, and what it asks for first.
pub open spec fn start_spec(items: Seq<UpdateSettingItem>, has_settings_handler: bool) -> (
    UpdateSettingsFlowView,
    UpdateSettingsActionView,
) {
    if !has_settings_handler {
        (
            UpdateSettingsFlowView { items, updated: seq![], stopped: true },
            UpdateSettingsActionView::RespondErr {
                status: status::INTERNAL_SERVER_ERROR,
                message: SETTINGS_HANDLER_UNAVAILABLE@,
            },
        )
    } else if items.len() == 0 {
        (
            UpdateSettingsFlowView { items, updated: seq![], stopped: true },
            UpdateSettingsActionView::RespondErr {
                status: status::BAD_REQUEST,
                message: SETTINGS_EMPTY@,
            },
        )
    } else {
        (UpdateSettingsFlowView { items, updated: seq![], stopped: false }, upsert_item(items, 0))
    }
}

/// How an update goes on once the store it asked for has answered: a
/// failure ends it with an error; a stored row is kept, and the next item
/// is asked for, or, after the last item, the rows kept are handed over as
/// the answer.
pub open spec fn step_spec(v: UpdateSettingsFlowView, result: Result<SystemSettings, DbError>) -> (
    UpdateSettingsFlowView,
    UpdateSettingsActionView,
) {
    match result {
        Err(_) => (
            UpdateSettingsFlowView { stopped: true, ..v },
            UpdateSettingsActionView::RespondErr {
                status: status::INTERNAL_SERVER_ERROR,
                message: UPDATE_FAILED@,
            },
        ),
        Ok(s) => {
            let u = v.updated.push(s);
            if u.len() < v.items.len() {
                (UpdateSettingsFlowView { updated: u, ..v }, upsert_item(v.items, u.len() as int))
            } else {
                (
                    UpdateSettingsFlowView { updated: seq![], stopped: true, ..v },
                    UpdateSettingsActionView::RespondOk(u),
                )
            }
        },
    }
}

/// The state and last request of an update after the stores it asks for
/// answer, one after the other, with the rows `rows`.
pub open spec fn run_stored(v: UpdateSettingsFlowView, rows: Seq<SystemSettings>) -> (
    UpdateSettingsFlowView,
    UpdateSettingsActionView,
)
    decreases rows.len(),
{
    if rows.len() <= 1 {
        step_spec(v, Ok(rows[0]))
    } else {
        run_stored(step_spec(v, Ok(rows[0])).0, rows.drop_first())
    }
}

proof fn lemma_run_stored(v: UpdateSettingsFlowView, rows: Seq<SystemSettings>)
    requires
        !v.stopped,
        rows.len() >= 1,
        v.updated.len() + rows.len() <= v.items.len(),
    ensures
        v.updated.len() + rows.len() < v.items.len() ==> run_stored(v, rows).1 == upsert_item(
            v.items,
            (v.updated.len() + rows.len()) as int,
        ),
        v.updated.len() + rows.len() == v.items.len() ==> run_stored(v, rows).1
            == UpdateSettingsActionView::RespondOk(v.updated + rows),
    decreases rows.len(),
{
    if rows.len() <= 1 {
        assert(v.updated.push(rows[0]) =~= v.updated + rows);
    } else {
        let v2 = step_spec(v, Ok(rows[0])).0;
        lemma_run_stored(v2, rows.drop_first());
        assert(v2.updated + rows.drop_first() =~= v.updated + rows);
    }
}

/// When every store succeeds, an update asks for the items one at a time in
/// the order of the request (item `k` once `k` rows are stored), and answers
/// with the stored rows in that same order.
pub proof fn lemma_update_stores_in_order(items: Seq<UpdateSettingItem>, rows: Seq<SystemSettings>)
    requires
        0 < rows.len() <= items.len(),
    ensures
        start_spec(items, true).1 == upsert_item(items, 0),
        rows.len() < items.len() ==> run_stored(start_spec(items, true).0, rows).1 == upsert_item(
            items,
            rows.len() as int,
        ),
        rows.len() == items.len() ==> run_stored(start_spec(items, true).0, rows).1
            == UpdateSettingsActionView::RespondOk(rows),
{
    let v = start_spec(items, true).0;
    lemma_run_stored(v, rows);
    assert(v.updated + rows =~= rows);
}

/// A failed store ends the update: it answers with an error and asks for
/// nothing more.
pub proof fn lemma_failed_store_ends_update(v: UpdateSettingsFlowView, e: DbError)
    ensures
        !step_spec(v, Err(e)).0.awaiting(),
        step_spec(v, Err(e)).1 == (UpdateSettingsActionView::RespondErr {
            status: status::INTERNAL_SERVER_ERROR,
            message: UPDATE_FAILED@,
        }),
{
}

impl UpdateSettingsFlow {
    /// Starts the update asked for by `request`.
    pub fn start(request: UpdateSettingsRequest, has_settings_handler: bool) -> (r: (
        UpdateSettingsFlow,
        UpdateSettingsAction,
    ))
        ensures
            r.0@ == start_spec(request.settings@, has_settings_handler).0,
            r.1.matches(start_spec(request.settings@, has_settings_handler).1),
            r.0@.items == request.settings@,
            r.0@.updated.len() == 0,
            !has_settings_handler ==> !r.0@.awaiting() && (r.1 matches UpdateSettingsAction::Respond(
                Err(e),
            ) && e.is(status::INTERNAL_SERVER_ERROR, SETTINGS_HANDLER_UNAVAILABLE@)),
            has_settings_handler && request.settings@.len() == 0 ==> !r.0@.awaiting() && (
            r.1 matches UpdateSettingsAction::Respond(Err(e)) && e.is(
                status::BAD_REQUEST,
                SETTINGS_EMPTY@,
            )),
            has_settings_handler && request.settings@.len() > 0 ==> r.0@.awaiting() && (
            r.1 matches UpdateSettingsAction::Upsert { setting_name, setting_value }
                && setting_name@ == request.settings@[0].setting_name@ && setting_value@
                == request.settings@[0].setting_value@),
    {
        let items = request.settings;
        if !has_settings_handler {
            let flow = UpdateSettingsFlow { items, updated: Vec::new(), stopped: true };
            return (
                flow,
                UpdateSettingsAction::Respond(
                    Err(
                        TextError::new(
                            status::INTERNAL_SERVER_ERROR,
                            SETTINGS_HANDLER_UNAVAILABLE,
                        ),
                    ),
                ),
            );
        }
        if items.len() == 0 {
            let flow = UpdateSettingsFlow { items, updated: Vec::new(), stopped: true };
            return (
                flow,
                UpdateSettingsAction::Respond(
                    Err(TextError::new(status::BAD_REQUEST, SETTINGS_EMPTY)),
                ),
            );
        }
        let action = UpdateSettingsAction::Upsert {
            setting_name: items[0].setting_name.clone(),
            setting_value: items[0].setting_value.clone(),
        };
        let capacity = items.len();
        let flow = UpdateSettingsFlow {
            items,
            updated: Vec::with_capacity(capacity),
            stopped: false,
        };
        (flow, action)
    }

    /// Whether an upsert has been asked for and its outcome is awaited.
    pub fn is_awaiting(&self) -> (r: bool)
        ensures
            r == self@.awaiting(),
    {
        !self.stopped && self.updated.len() < self.items.len()
    }

    /// Goes on with the outcome of the upsert last asked for.
    pub fn on_upserted(&mut self, result: Result<SystemSettings, DbError>) -> (r:
        UpdateSettingsAction)
        requires
            old(self)@.awaiting(),
        ensures
            final(self)@ == step_spec(old(self)@, result).0,
            r.matches(step_spec(old(self)@, result).1),
            final(self)@.items == old(self)@.items,
            result is Err ==> !final(self)@.awaiting() && (r matches UpdateSettingsAction::Respond(
                Err(e),
            ) && e.is(status::INTERNAL_SERVER_ERROR, UPDATE_FAILED@)),
            result matches Ok(s) ==> ({
                let k = (old(self)@.updated.len() + 1) as int;
                if k < old(self)@.items.len() {
                    &&& final(self)@.updated == old(self)@.updated.push(s)
                    &&& final(self)@.awaiting()
                    &&& r matches UpdateSettingsAction::Upsert { setting_name, setting_value }
                    &&& setting_name@ == old(self)@.items[k].setting_name@
                    &&& setting_value@ == old(self)@.items[k].setting_value@
                } else {
                    &&& !final(self)@.awaiting()
                    &&& r matches UpdateSettingsAction::Respond(Ok(resp))
                    &&& resp.settings@ == old(self)@.updated.push(s)
                }
            }),
    {
        match result {
            Err(_) => {
                self.stopped = true;
                assert(self@ == step_spec(old(self)@, result).0);
                UpdateSettingsAction::Respond(
                    Err(TextError::new(status::INTERNAL_SERVER_ERROR, UPDATE_FAILED)),
                )
            },
            Ok(s) => {
                self.updated.push(s);
                let k = self.updated.len();
                if k < self.items.len() {
                    UpdateSettingsAction::Upsert {
                        setting_name: self.items[k].setting_name.clone(),
                        setting_value: self.items[k].setting_value.clone(),
                    }
                } else {
                    self.stopped = true;
                    let mut settings = Vec::new();
                    std::mem::swap(&mut settings, &mut self.updated);
                    let action = UpdateSettingsAction::Respond(
                        Ok(UpdateSettingsResponse { settings }),
                    );
                    action
                }
            },
        }
    }
}

} // verus!
