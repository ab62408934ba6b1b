use mcp_center::model::{DbError, SystemSettings};
use mcp_center::settings::{
    list_settings_found, list_settings_listed, list_settings_plan, settings_serialization_failed,
    GetSettingsRequest, SettingsLookup, UpdateSettingItem, UpdateSettingsAction,
    UpdateSettingsFlow, UpdateSettingsRequest,
};

fn row(name: &str, value: &str) -> SystemSettings {
    SystemSettings { setting_name: name.to_string(), setting_value: value.to_string() }
}

fn item(name: &str, value: &str) -> UpdateSettingItem {
    UpdateSettingItem { setting_name: name.to_string(), setting_value: value.to_string() }
}

#[test]
fn read_plan() {
    let r = list_settings_plan(GetSettingsRequest { setting_name: Some("theme".to_string()) }, true);
    assert!(matches!(r, Ok(SettingsLookup::ByName(ref n)) if n == "theme"));
    let r = list_settings_plan(GetSettingsRequest { setting_name: None }, true);
    assert!(matches!(r, Ok(SettingsLookup::All)));
    match list_settings_plan(GetSettingsRequest { setting_name: None }, false) {
        Err(e) => {
            assert_eq!(e.status, 500);
            assert_eq!(e.message, "Can't get system settings handler");
        }
        Ok(_) => panic!("expected an error"),
    }
}

#[test]
fn read_by_name_outcomes() {
    match list_settings_found(Ok(Some(row("theme", "dark")))) {
        Ok(resp) => {
            assert_eq!(resp.settings.len(), 1);
            assert_eq!(resp.settings[0].setting_value, "dark");
        }
        Err(_) => panic!("expected a setting"),
    }
    match list_settings_found(Ok(None)) {
        Err(e) => assert_eq!((e.status, e.message.as_str()), (404, "Setting not found")),
        Ok(_) => panic!("expected not found"),
    }
    match list_settings_found(Err(DbError::Other)) {
        Err(e) => assert_eq!((e.status, e.message.as_str()), (500, "Failed to query system settings")),
        Ok(_) => panic!("expected an error"),
    }
}

#[test]
fn read_all_outcomes() {
    match list_settings_listed(Ok(vec![row("a", "1"), row("b", "2")])) {
        Ok(resp) => assert_eq!(resp.settings.len(), 2),
        Err(_) => panic!("expected settings"),
    }
    match list_settings_listed(Err(DbError::Other)) {
        Err(e) => assert_eq!((e.status, e.message.as_str()), (500, "Failed to list system settings")),
        Ok(_) => panic!("expected an error"),
    }
    let e = settings_serialization_failed();
    assert_eq!((e.status, e.message.as_str()), (500, "Internal server error"));
}

fn upsert_of(action: &UpdateSettingsAction) -> (String, String) {
    match action {
        UpdateSettingsAction::Upsert { setting_name, setting_value } => {
            (setting_name.clone(), setting_value.clone())
        }
        _ => panic!("expected an upsert"),
    }
}

#[test]
fn update_stores_each_item_in_order() {
    let request = UpdateSettingsRequest { settings: vec![item("a", "1"), item("b", "2")] };
    let (mut flow, action) = UpdateSettingsFlow::start(request, true);
    assert_eq!(upsert_of(&action), ("a".to_string(), "1".to_string()));
    assert!(flow.is_awaiting());
    let action = flow.on_upserted(Ok(row("a", "1")));
    assert_eq!(upsert_of(&action), ("b".to_string(), "2".to_string()));
    let action = flow.on_upserted(Ok(row("b", "2")));
    assert!(!flow.is_awaiting());
    match action {
        UpdateSettingsAction::Respond(Ok(resp)) => {
            assert_eq!(resp.settings.len(), 2);
            assert_eq!(resp.settings[0].setting_name, "a");
            assert_eq!(resp.settings[1].setting_name, "b");
        }
        _ => panic!("expected the answer"),
    }
}

#[test]
fn update_stops_at_first_failure() {
    let request = UpdateSettingsRequest { settings: vec![item("a", "1"), item("b", "2")] };
    let (mut flow, _) = UpdateSettingsFlow::start(request, true);
    let action = flow.on_upserted(Err(DbError::Other));
    assert!(!flow.is_awaiting());
    match action {
        UpdateSettingsAction::Respond(Err(e)) => {
            assert_eq!((e.status, e.message.as_str()), (500, "Failed to update system settings"))
        }
        _ => panic!("expected an error"),
    }
}

#[test]
fn update_refuses_empty_requests() {
    let (flow, action) = UpdateSettingsFlow::start(UpdateSettingsRequest { settings: vec![] }, true);
    assert!(!flow.is_awaiting());
    match action {
        UpdateSettingsAction::Respond(Err(e)) => {
            assert_eq!((e.status, e.message.as_str()), (400, "settings must not be empty"))
        }
        _ => panic!("expected an error"),
    }
}

#[test]
fn update_without_handler() {
    let request = UpdateSettingsRequest { settings: vec![item("a", "1")] };
    let (flow, action) = UpdateSettingsFlow::start(request, false);
    assert!(!flow.is_awaiting());
    match action {
        UpdateSettingsAction::Respond(Err(e)) => {
            assert_eq!((e.status, e.message.as_str()), (500, "Can't get system settings handler"))
        }
        _ => panic!("expected an error"),
    }
}
