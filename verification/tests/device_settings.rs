use openlogi::binding::{Action, Binding, ButtonId};
use openlogi::config::Config;
use openlogi::device::{
    ActionRingIcon, ActionRingSlot, CameraControls, DeviceIdentity, Dpi, LightSettings, Lighting,
    ScrollResolution, SmartShift, SmartShiftAutoDisengage, SmartShiftThreshold,
    ThumbwheelSensitivity, TunableTorque, WheelMode,
};
use openlogi::tuning::{GestureTuning, LongPressDelay, SwipeDistance, SwipeHold};

/// What a later session reads back: a copy carrying exactly the stored
/// settings.
fn write_and_read(cfg: &Config) -> Config {
    cfg.clone_config()
}

#[test]
fn dpi_roundtrips_per_device() {
    let mut cfg = Config::default();
    cfg.set_dpi("2b042", Dpi::new(1600));
    let restored = write_and_read(&cfg);
    assert_eq!(restored.dpi("2b042"), Some(Dpi::new(1600)));
    assert_eq!(restored.dpi("absent"), None);
}

#[test]
fn smartshift_roundtrips_per_device() {
    let mut cfg = Config::default();
    let smartshift = SmartShift {
        mode: WheelMode::Ratchet,
        auto_disengage: SmartShiftAutoDisengage::Threshold(
            SmartShiftThreshold::try_new(16).expect("valid threshold"),
        ),
        tunable_torque: Some(TunableTorque::try_new(30).expect("valid torque")),
    };
    cfg.set_smartshift("2b042", smartshift);
    let restored = write_and_read(&cfg);
    assert_eq!(restored.smartshift("2b042"), Some(smartshift));
    assert_eq!(restored.smartshift("absent"), None);
}

#[test]
fn invert_scroll_roundtrips_per_device() {
    let mut cfg = Config::default();
    // Default is the native direction for any device, present or not.
    assert!(!cfg.invert_scroll("2b042"));
    cfg.set_invert_scroll("2b042", true);
    let restored = write_and_read(&cfg);
    assert!(restored.invert_scroll("2b042"));
    assert!(!restored.invert_scroll("absent"));
}

#[test]
fn scroll_resolution_roundtrips_all_three_states() {
    let mut cfg = Config::default();
    assert_eq!(cfg.scroll_resolution("mouse"), None);

    cfg.set_scroll_resolution("mouse", Some(ScrollResolution::Low));
    let low = write_and_read(&cfg);
    assert_eq!(low.scroll_resolution("mouse"), Some(ScrollResolution::Low));

    cfg.set_scroll_resolution("mouse", Some(ScrollResolution::High));
    let high = write_and_read(&cfg);
    assert_eq!(
        high.scroll_resolution("mouse"),
        Some(ScrollResolution::High)
    );

    cfg.set_scroll_resolution("mouse", None);
    let unmanaged = write_and_read(&cfg);
    assert_eq!(unmanaged.scroll_resolution("mouse"), None);
}

#[test]
fn bindings_roundtrip_per_device() {
    let mut cfg = Config::default();
    cfg.set_binding("2b042", ButtonId::Back, Binding::Single(Action::Copy));
    cfg.set_binding(
        "2b042",
        ButtonId::DpiToggle,
        Binding::Single(Action::CustomShortcut(String::from("Cmd+P"))),
    );
    cfg.set_binding("4082d", ButtonId::Back, Binding::Single(Action::Paste));

    let parsed = write_and_read(&cfg);

    // Per-device isolation.
    let a = parsed.stored_bindings("2b042");
    assert_eq!(a.get(&ButtonId::Back), Some(&Binding::Single(Action::Copy)));
    assert_eq!(
        a.get(&ButtonId::DpiToggle),
        Some(&Binding::Single(Action::CustomShortcut(String::from("Cmd+P"))))
    );

    let b = parsed.stored_bindings("4082d");
    assert_eq!(
        b.get(&ButtonId::Back),
        Some(&Binding::Single(Action::Paste))
    );
    assert_eq!(b.len(), 1, "device b should only see its own bindings");

    // Unknown device returns empty map without panic.
    assert!(parsed.stored_bindings("deadbeef").is_empty());
}

#[test]
fn dpi_presets_roundtrip_per_device() {
    let mut cfg = Config::default();
    cfg.set_dpi_presets("2b042", vec![Dpi::new(800), Dpi::new(1600), Dpi::new(3200)]);
    cfg.set_dpi_presets("4082d", vec![Dpi::new(400), Dpi::new(1600)]);

    let parsed = write_and_read(&cfg);

    assert_eq!(
        parsed.dpi_presets("2b042"),
        vec![Dpi::new(800), Dpi::new(1600), Dpi::new(3200)]
    );
    assert_eq!(
        parsed.dpi_presets("4082d"),
        vec![Dpi::new(400), Dpi::new(1600)]
    );
    assert!(parsed.dpi_presets("unknown").is_empty());
}

#[test]
fn gesture_tuning_roundtrips_per_device_and_defaults_elsewhere() {
    let mut cfg = Config::default();
    let tuning = GestureTuning {
        swipe_distance: SwipeDistance::try_new(90).unwrap(),
        swipe_hold: SwipeHold::try_new(60).unwrap(),
        long_press: LongPressDelay::try_new(800).unwrap(),
    };
    cfg.set_device_gesture_tuning("2b042", tuning);
    let restored = write_and_read(&cfg);
    assert_eq!(restored.gesture_tuning("2b042"), tuning);
    assert_eq!(restored.gesture_tuning("absent"), GestureTuning::default());
}

#[test]
fn a_binding_replaces_the_previous_one_for_that_button() {
    let mut cfg = Config::default();
    cfg.set_binding("m", ButtonId::Back, Binding::Single(Action::Copy));
    cfg.set_binding("m", ButtonId::Back, Binding::Single(Action::Undo));
    let b = cfg.stored_bindings("m");
    assert_eq!(b.len(), 1);
    assert_eq!(b.get(&ButtonId::Back), Some(&Binding::Single(Action::Undo)));
}

#[test]
fn removing_a_device_returns_every_setting_to_its_default() {
    let mut cfg = Config::default();
    cfg.set_dpi("m", Dpi::new(1600));
    cfg.set_invert_scroll("m", true);
    cfg.set_device_custom_name("m", Some(String::from("Desk mouse")));
    cfg.set_dpi("other", Dpi::new(800));
    assert!(cfg.remove_device("m"));
    assert!(!cfg.remove_device("m"));
    assert_eq!(cfg.dpi("m"), None);
    assert!(!cfg.invert_scroll("m"));
    assert_eq!(cfg.device_custom_name("m"), None);
    assert_eq!(cfg.dpi("other"), Some(Dpi::new(800)));
}

#[test]
fn device_enabled_defaults_to_true_and_roundtrips() {
    let mut cfg = Config::default();
    assert!(cfg.device_enabled("m"));
    cfg.set_device_enabled("m", false);
    assert!(!cfg.device_enabled("m"));
    assert!(cfg.device_enabled("other"));
    cfg.set_device_enabled("m", true);
    assert!(cfg.device_enabled("m"));
}

#[test]
fn thumbwheel_sensitivity_falls_back_to_the_app_setting() {
    let mut cfg = Config::default();
    let global = cfg.app_settings.thumbwheel_sensitivity;
    assert_eq!(cfg.thumbwheel_sensitivity("m"), global);
    cfg.set_device_thumbwheel_sensitivity("m", Some(ThumbwheelSensitivity(7)));
    assert_eq!(cfg.thumbwheel_sensitivity("m"), ThumbwheelSensitivity(7));
    cfg.set_device_thumbwheel_sensitivity("m", None);
    assert_eq!(cfg.thumbwheel_sensitivity("m"), global);
}

#[test]
fn action_ring_settings_roundtrip_per_device() {
    let mut cfg = Config::default();
    cfg.set_action_ring_enabled("m", true);
    cfg.set_action_ring_haptics("m", true);
    cfg.set_action_ring_slot("m", ActionRingSlot::East, Some(Action::Copy));
    cfg.set_action_ring_icon("m", ActionRingSlot::East, Some(ActionRingIcon::Star));
    let ring = cfg.action_ring("m");
    assert!(ring.enabled);
    assert!(ring.haptics);
    assert_eq!(ring.default.slot(ActionRingSlot::East).action, Some(Action::Copy));
    assert_eq!(ring.default.slot(ActionRingSlot::East).icon, Some(ActionRingIcon::Star));
    assert_eq!(ring.default.slot(ActionRingSlot::West).action, None);
    cfg.set_action_ring_slot("m", ActionRingSlot::East, None);
    let ring = cfg.action_ring("m");
    assert_eq!(ring.default.slot(ActionRingSlot::East).action, None);
    assert_eq!(ring.default.slot(ActionRingSlot::East).icon, Some(ActionRingIcon::Star));
    let other = cfg.action_ring("other");
    assert!(!other.enabled);
}

#[test]
fn lighting_light_and_camera_settings_are_per_device() {
    let mut cfg = Config::default();
    let lighting = Lighting { enabled: true, color: 0x00ff00, brightness: 40 };
    cfg.set_lighting("kb", lighting);
    assert_eq!(cfg.lighting("kb"), Some(lighting));
    assert_eq!(cfg.lighting("mouse"), None);

    let light = LightSettings { on: true, brightness: 80, temperature: 4000 };
    cfg.set_light("lamp", light);
    assert_eq!(cfg.light("lamp"), Some(light));

    let controls = CameraControls {
        brightness: 1,
        contrast: 2,
        saturation: 3,
        sharpness: 4,
        zoom: 5,
        auto_exposure: false,
        exposure: -6,
    };
    cfg.set_camera_controls("cam", controls);
    assert_eq!(cfg.camera_controls("cam"), Some(controls));
    cfg.save_camera_profile("cam", "Meeting", controls);
    assert_eq!(cfg.camera_profiles("cam").get("Meeting"), Some(&controls));
    cfg.set_camera_active_profile("cam", Some(String::from("Meeting")));
    assert_eq!(cfg.camera_active_profile("cam"), Some(String::from("Meeting")));
    cfg.delete_camera_profile("cam", "Meeting");
    assert_eq!(cfg.camera_profiles("cam").get("Meeting"), None);
    // Deleting the active profile clears the selection.
    assert_eq!(cfg.camera_active_profile("cam"), None);
}

#[test]
fn identities_are_listed_by_key() {
    let mut cfg = Config::default();
    cfg.set_device_identity(
        "b",
        DeviceIdentity { name: String::from("MX Keys"), model_id: 2, serial: None, unit_id: None },
    );
    cfg.set_device_identity(
        "a",
        DeviceIdentity { name: String::from("MX Master"), model_id: 1, serial: None, unit_id: Some(9) },
    );
    let known = cfg.known_identities();
    assert_eq!(known.len(), 2);
    assert_eq!(known[0].key, "a");
    assert_eq!(known[1].key, "b");
    assert_eq!(cfg.device_identity("a").map(|i| i.model_id), Some(1));
    assert!(cfg.device_identity("c").is_none());
}

#[test]
fn custom_names_roundtrip_and_clear() {
    let mut cfg = Config::default();
    cfg.set_device_custom_name("m", Some(String::from("Desk")));
    assert_eq!(cfg.device_custom_name("m"), Some("Desk"));
    cfg.set_device_custom_name("m", None);
    assert_eq!(cfg.device_custom_name("m"), None);
}
