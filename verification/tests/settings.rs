use openlogi::config::{AppIcon, Appearance, Config, MouseProfileTarget, UiScale};
use openlogi::device::{Dpi, ThumbwheelSensitivity};
use openlogi::settings::{
    mouse_profile_choice, mouse_profile_target_at, AfterSave, AppState, DeviceKey, DeviceRecord,
    FollowUp, StateEvent, ThemeMode,
};
use openlogi::tuning::{GestureTuning, SwipeDistance};

fn state() -> AppState {
    AppState::new(Config::default())
}

#[test]
fn an_unchanged_setting_writes_nothing_but_is_reported() {
    let mut s = state();
    let c = s.commit_launch_at_login(false);
    assert!(c.persist.is_none());
    assert_eq!(c.events.events, vec![StateEvent::SettingsChanged]);
    assert!(!s.app_settings().launch_at_login);
}

#[test]
fn launch_at_login_registers_the_agent_once_saved() {
    let mut s = state();
    let c = s.commit_launch_at_login(true);
    assert!(s.app_settings().launch_at_login);
    let persist = c.persist.expect("a write is requested");
    assert!(persist.reload);
    assert_eq!(persist.after, AfterSave::EnsureRegistered);
    assert!(!persist.snapshot.app_settings.launch_at_login);
    assert_eq!(s.settle(persist, true), Some(FollowUp::EnsureRegistered));
    assert!(s.app_settings().launch_at_login);
}

#[test]
fn a_failed_write_restores_the_previous_selection() {
    let mut s = state();
    let c = s.commit_mouse_profile_target(MouseProfileTarget::Focused);
    assert_eq!(s.app_settings().mouse_profile_target, MouseProfileTarget::Focused);
    let persist = c.persist.expect("a write is requested");
    assert_eq!(s.settle(persist, false), None);
    assert_eq!(s.app_settings().mouse_profile_target, MouseProfileTarget::Pointer);
}

#[test]
fn a_failed_icon_write_applies_nothing() {
    let mut s = state();
    let c = s.commit_app_icon(AppIcon::Classic);
    let persist = c.persist.expect("a write is requested");
    assert_eq!(persist.after, AfterSave::ApplyAppIcon(AppIcon::Classic));
    assert_eq!(s.settle(persist, false), None);
    assert_eq!(s.app_settings().app_icon, AppIcon::Standard);
    let c = s.commit_app_icon(AppIcon::Dark);
    assert_eq!(s.settle(c.persist.unwrap(), true), Some(FollowUp::ApplyAppIcon(AppIcon::Dark)));
}

#[test]
fn appearance_and_scale_commits_edit_only_their_setting() {
    let mut s = state();
    let c = s.commit_appearance(Appearance::Dark);
    assert!(c.persist.is_some());
    assert_eq!(s.app_settings().appearance, Appearance::Dark);
    let c = s.commit_ui_scale(UiScale::Large);
    assert!(c.persist.is_some());
    assert_eq!(s.app_settings().ui_scale, UiScale::Large);
    assert_eq!(s.app_settings().appearance, Appearance::Dark);
}

#[test]
fn a_language_change_reports_it_and_activates_the_stored_language() {
    let mut s = state();
    assert_eq!(s.language(), None);
    let c = s.commit_language(Some(String::from("zh-TW")));
    assert_eq!(c.events.events, vec![StateEvent::LanguageChanged, StateEvent::SettingsChanged]);
    assert_eq!(s.language(), Some("zh-TW"));
    let persist = c.persist.unwrap();
    assert_eq!(
        s.settle(persist, true),
        Some(FollowUp::ActivateLanguage(Some(String::from("zh-TW"))))
    );
    // A failed write activates the language that is actually stored again.
    let c = s.commit_language(None);
    assert_eq!(
        s.settle(c.persist.unwrap(), false),
        Some(FollowUp::ActivateLanguage(Some(String::from("zh-TW"))))
    );
    let c = s.commit_language(Some(String::from("zh-TW")));
    assert!(c.persist.is_none());
}

#[test]
fn device_names_are_trimmed_and_blank_clears_them() {
    let mut s = state();
    s.records.push(DeviceRecord {
        record_key: String::from("m"),
        model_name: String::from("MX Master 3S"),
        display_name: String::from("MX Master 3S"),
    });
    let c = s.commit_device_custom_name("m", "  Desk  ");
    assert_eq!(c.events.events, vec![StateEvent::InventoryChanged]);
    assert_eq!(s.config.device_custom_name("m"), Some("Desk"));
    assert_eq!(s.settle(c.persist.unwrap(), true), None);
    assert_eq!(s.records[0].display_name, "Desk");

    let c = s.commit_device_custom_name("m", "   ");
    assert_eq!(s.config.device_custom_name("m"), None);
    s.settle(c.persist.unwrap(), true);
    assert_eq!(s.records[0].display_name, "MX Master 3S");

    let c = s.commit_device_custom_name("m", "");
    assert!(c.persist.is_none());
}

#[test]
fn a_failed_rename_keeps_the_gallery_and_the_old_name() {
    let mut s = state();
    s.records.push(DeviceRecord {
        record_key: String::from("m"),
        model_name: String::from("MX"),
        display_name: String::from("MX"),
    });
    let c = s.commit_device_custom_name("m", "Desk");
    s.settle(c.persist.unwrap(), false);
    assert_eq!(s.config.device_custom_name("m"), None);
    assert_eq!(s.records[0].display_name, "MX");
}

#[test]
fn device_commits_report_the_device() {
    let mut s = state();
    let key = DeviceKey::new("m");
    assert!(s.device_enabled("m"));
    let c = s.commit_device_enabled(&key, false);
    assert_eq!(c.events.events, vec![StateEvent::DeviceConfigChanged(DeviceKey::new("m"))]);
    assert!(c.persist.is_some());
    assert!(!s.device_enabled("m"));
    let c = s.commit_device_enabled(&key, false);
    assert!(c.persist.is_none());
}

#[test]
fn the_app_wide_sensitivity_clears_a_device_override() {
    let mut s = state();
    let key = DeviceKey::new("m");
    let global = s.app_settings().thumbwheel_sensitivity;
    let c = s.commit_device_thumbwheel_sensitivity(&key, ThumbwheelSensitivity(9));
    assert!(c.persist.is_some());
    assert_eq!(s.device_thumbwheel_sensitivity("m"), ThumbwheelSensitivity(9));
    let c = s.commit_device_thumbwheel_sensitivity(&key, global);
    assert!(c.persist.is_some());
    assert_eq!(s.device_thumbwheel_sensitivity("m"), global);
    // Committing the app-wide value again changes nothing.
    let c = s.commit_device_thumbwheel_sensitivity(&key, global);
    assert!(c.persist.is_none());
}

#[test]
fn gesture_tuning_commits_only_changes() {
    let mut s = state();
    let key = DeviceKey::new("m");
    let c = s.commit_device_gesture_tuning(&key, GestureTuning::default());
    assert!(c.persist.is_none());
    let tuning = GestureTuning { swipe_distance: SwipeDistance::try_new(90).unwrap(), ..GestureTuning::default() };
    let c = s.commit_device_gesture_tuning(&key, tuning);
    assert!(c.persist.is_some());
    assert_eq!(s.device_gesture_tuning("m"), tuning);
    assert_eq!(s.device_gesture_tuning("other"), GestureTuning::default());
}

#[test]
fn update_consent_marks_the_prompt_seen() {
    let mut s = state();
    let c = s.record_update_consent(true);
    assert!(c.persist.is_some());
    assert!(s.app_settings().check_for_updates);
    assert!(s.app_settings().update_prompt_seen);
}

#[test]
fn themes_are_stored_per_mode() {
    let mut s = state();
    let c = s.commit_theme(ThemeMode::Dark, Some(String::from("Nord")));
    assert!(c.persist.is_some());
    assert_eq!(s.app_settings().theme_dark, Some(String::from("Nord")));
    assert_eq!(s.app_settings().theme_light, None);
    let c = s.commit_theme(ThemeMode::Dark, Some(String::from("Nord")));
    assert!(c.persist.is_none());
}

#[test]
fn mouse_profile_choices_map_both_ways() {
    assert_eq!(mouse_profile_choice(MouseProfileTarget::Pointer), 0);
    assert_eq!(mouse_profile_choice(MouseProfileTarget::Focused), 1);
    assert_eq!(mouse_profile_target_at(0), MouseProfileTarget::Pointer);
    assert_eq!(mouse_profile_target_at(1), MouseProfileTarget::Focused);
}

#[test]
fn a_gesture_tuning_commit_keeps_the_devices_other_settings() {
    let mut s = state();
    s.config.set_dpi_presets("m", vec![Dpi::new(800)]);
    s.config.set_device_enabled("m", false);
    let key = DeviceKey::new("m");
    let tuning = GestureTuning { swipe_distance: SwipeDistance::try_new(90).unwrap(), ..GestureTuning::default() };
    let c = s.commit_device_gesture_tuning(&key, tuning);
    assert!(c.persist.is_some());
    assert_eq!(s.config.dpi_presets("m"), vec![Dpi::new(800)]);
    assert!(!s.device_enabled("m"));
}
