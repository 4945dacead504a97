//! The whole configuration: app-wide settings and every device's stored
//! settings, addressed a field at a time by config key.
//!
//! A getter answers for a device with no entry the way a fresh entry would,
//! and a setter creates the entry it needs.
use crate::binding::{Action, Binding, BindingMap, ButtonId};
use crate::device::{
    clone_opt_text, fresh_device, opt_identity, opt_text, ActionRingConfig, ActionRingIcon,
    ActionRingSlot, CameraControls, DeviceConfig, DeviceIdentity, DeviceView, Dpi, IdentityView,
    LightSettings, Lighting, RingSlotConfig, RingView, ScrollResolution, SmartShift,
    ThumbwheelSensitivity, slot_index,
};
use crate::table::{KeyedTable, KnownIdentity};
use crate::tuning::{
    GestureTuning, LongPressDelay, SwipeDistance, SwipeHold, LONG_PRESS_DEFAULT_MS,
    SWIPE_DISTANCE_DEFAULT, SWIPE_HOLD_DEFAULT_MS,
};
use vstd::prelude::*;

verus! {

/// Light or dark appearance preference.
#[derive(Debug, Clone, Copy, PartialEq, Eq, Structural)]
pub enum Appearance {
    System,
    Light,
    Dark,
}

/// Text and interface scale.
#[derive(Debug, Clone, Copy, PartialEq, Eq, Structural)]
pub enum UiScale {
    Small,
    Normal,
    Large,
    ExtraLarge,
}

/// The app icon the user picked.
#[derive(Debug, Clone, Copy, PartialEq, Eq, Structural)]
pub enum AppIcon {
    Standard,
    Dark,
    Classic,
}

/// Layout of the Home device gallery.
#[derive(Debug, Clone, Copy, PartialEq, Eq, Structural)]
pub enum DeviceViewMode {
    Grid,
    List,
}

/// Which application mouse button profiles follow.
#[derive(Debug, Clone, Copy, PartialEq, Eq, Structural)]
pub enum MouseProfileTarget {
    /// The application under the pointer.
    Pointer,
    /// The application with keyboard focus.
    Focused,
}

/// Where device assets are downloaded from.
#[derive(Debug, Clone, Copy, PartialEq, Eq, Structural)]
pub enum AssetSourcePreference {
    Automatic,
    Primary,
    Mirror,
}

/// Traditional vertical mouse-wheel sensitivity.
#[derive(Debug, Clone, Copy, PartialEq, Eq, Structural)]
pub struct VerticalScrollSensitivity(pub u8);

/// Smooth-scroll acceleration strength.
#[derive(Debug, Clone, Copy, PartialEq, Eq, Structural)]
pub struct SmoothScrollAcceleration(pub u8);

/// How long a smooth scroll glides, in milliseconds.
#[derive(Debug, Clone, Copy, PartialEq, Eq, Structural)]
pub struct SmoothScrollGlide(pub u16);

/// How long a smooth scroll acts as a fingers-down gesture, in milliseconds.
#[derive(Debug, Clone, Copy, PartialEq, Eq, Structural)]
pub struct SmoothScrollTouch(pub u16);

/// The wheel pause that starts a new smooth-scroll gesture, in milliseconds.
#[derive(Debug, Clone, Copy, PartialEq, Eq, Structural)]
pub struct SmoothScrollPause(pub u16);

/// App-wide settings.
#[derive(Debug, PartialEq, Eq)]
pub struct AppSettings {
    pub launch_at_login: bool,
    pub show_in_menu_bar: bool,
    pub check_for_updates: bool,
    pub auto_install_updates: bool,
    pub update_prompt_seen: bool,
    pub appearance: Appearance,
    pub ui_scale: UiScale,
    pub theme_light: Option<String>,
    pub theme_dark: Option<String>,
    pub app_icon: AppIcon,
    pub ui_radius: Option<u8>,
    pub device_view_mode: DeviceViewMode,
    pub thumbwheel_sensitivity: ThumbwheelSensitivity,
    pub mouse_profile_target: MouseProfileTarget,
    pub smooth_scroll: bool,
    pub vertical_scroll_sensitivity: VerticalScrollSensitivity,
    pub smooth_scroll_acceleration: SmoothScrollAcceleration,
    pub smooth_scroll_glide: SmoothScrollGlide,
    pub smooth_scroll_edge_bounce: bool,
    pub smooth_scroll_touch: SmoothScrollTouch,
    pub smooth_scroll_pause: SmoothScrollPause,
    pub auto_download_assets: bool,
    pub asset_source: AssetSourcePreference,
    pub language: Option<String>,
}

pub const DEFAULT_THUMBWHEEL_SENSITIVITY: u8 = 5;
pub const DEFAULT_VERTICAL_SCROLL_SENSITIVITY: u8 = 5;
pub const DEFAULT_SMOOTH_SCROLL_ACCELERATION: u8 = 50;
pub const DEFAULT_SMOOTH_SCROLL_GLIDE_MS: u16 = 350;
pub const DEFAULT_SMOOTH_SCROLL_TOUCH_MS: u16 = 60;
pub const DEFAULT_SMOOTH_SCROLL_PAUSE_MS: u16 = 150;

impl AppSettings {
    /// The out-of-the-box settings.
    pub open spec fn is_default(self) -> bool {
        &&& !self.launch_at_login
        &&& self.show_in_menu_bar
        &&& !self.check_for_updates
        &&& !self.auto_install_updates
        &&& !self.update_prompt_seen
        &&& self.appearance == Appearance::System
        &&& self.ui_scale == UiScale::Normal
        &&& self.theme_light is None
        &&& self.theme_dark is None
        &&& self.app_icon == AppIcon::Standard
        &&& self.ui_radius is None
        &&& self.device_view_mode == DeviceViewMode::Grid
        &&& self.thumbwheel_sensitivity == ThumbwheelSensitivity(DEFAULT_THUMBWHEEL_SENSITIVITY)
        &&& self.mouse_profile_target == MouseProfileTarget::Pointer
        &&& !self.smooth_scroll
        &&& self.vertical_scroll_sensitivity == VerticalScrollSensitivity(DEFAULT_VERTICAL_SCROLL_SENSITIVITY)
        &&& self.smooth_scroll_acceleration == SmoothScrollAcceleration(DEFAULT_SMOOTH_SCROLL_ACCELERATION)
        &&& self.smooth_scroll_glide == SmoothScrollGlide(DEFAULT_SMOOTH_SCROLL_GLIDE_MS)
        &&& self.smooth_scroll_edge_bounce
        &&& self.smooth_scroll_touch == SmoothScrollTouch(DEFAULT_SMOOTH_SCROLL_TOUCH_MS)
        &&& self.smooth_scroll_pause == SmoothScrollPause(DEFAULT_SMOOTH_SCROLL_PAUSE_MS)
        &&& self.auto_download_assets
        &&& self.asset_source == AssetSourcePreference::Automatic
        &&& self.language is None
    }

    /// A copy with the same values.
    pub fn clone_settings(&self) -> (r: Self)
        ensures
            r == *self,
    {
        AppSettings {
            launch_at_login: self.launch_at_login,
            show_in_menu_bar: self.show_in_menu_bar,
            check_for_updates: self.check_for_updates,
            auto_install_updates: self.auto_install_updates,
            update_prompt_seen: self.update_prompt_seen,
            appearance: self.appearance,
            ui_scale: self.ui_scale,
            theme_light: clone_string_option(&self.theme_light),
            theme_dark: clone_string_option(&self.theme_dark),
            app_icon: self.app_icon,
            ui_radius: self.ui_radius,
            device_view_mode: self.device_view_mode,
            thumbwheel_sensitivity: self.thumbwheel_sensitivity,
            mouse_profile_target: self.mouse_profile_target,
            smooth_scroll: self.smooth_scroll,
            vertical_scroll_sensitivity: self.vertical_scroll_sensitivity,
            smooth_scroll_acceleration: self.smooth_scroll_acceleration,
            smooth_scroll_glide: self.smooth_scroll_glide,
            smooth_scroll_edge_bounce: self.smooth_scroll_edge_bounce,
            smooth_scroll_touch: self.smooth_scroll_touch,
            smooth_scroll_pause: self.smooth_scroll_pause,
            auto_download_assets: self.auto_download_assets,
            asset_source: self.asset_source,
            language: clone_string_option(&self.language),
        }
    }
}

/// An exact copy of an optional string.
pub fn clone_string_option(s: &Option<String>) -> (r: Option<String>)
    ensures
        r == *s,
{
    match s {
        Some(t) => Some(t.clone()),
        None => None,
    }
}

impl Default for AppSettings {
    fn default() -> (r: Self)
        ensures
            r.is_default(),
    {
        AppSettings {
            launch_at_login: false,
            show_in_menu_bar: true,
            check_for_updates: false,
            auto_install_updates: false,
            update_prompt_seen: false,
            appearance: Appearance::System,
            ui_scale: UiScale::Normal,
            theme_light: None,
            theme_dark: None,
            app_icon: AppIcon::Standard,
            ui_radius: None,
            device_view_mode: DeviceViewMode::Grid,
            thumbwheel_sensitivity: ThumbwheelSensitivity(DEFAULT_THUMBWHEEL_SENSITIVITY),
            mouse_profile_target: MouseProfileTarget::Pointer,
            smooth_scroll: false,
            vertical_scroll_sensitivity: VerticalScrollSensitivity(DEFAULT_VERTICAL_SCROLL_SENSITIVITY),
            smooth_scroll_acceleration: SmoothScrollAcceleration(DEFAULT_SMOOTH_SCROLL_ACCELERATION),
            smooth_scroll_glide: SmoothScrollGlide(DEFAULT_SMOOTH_SCROLL_GLIDE_MS),
            smooth_scroll_edge_bounce: true,
            smooth_scroll_touch: SmoothScrollTouch(DEFAULT_SMOOTH_SCROLL_TOUCH_MS),
            smooth_scroll_pause: SmoothScrollPause(DEFAULT_SMOOTH_SCROLL_PAUSE_MS),
            auto_download_assets: true,
            asset_source: AssetSourcePreference::Automatic,
            language: None,
        }
    }
}

/// The user's configuration.
#[derive(Debug, PartialEq, Eq)]
pub struct Config {
    /// Every device's stored settings, by config key.
    pub devices: KeyedTable<DeviceConfig>,
    /// App-wide settings.
    pub app_settings: AppSettings,
}

impl Default for Config {
    fn default() -> (r: Self)
        ensures
            r.devices@ == Map::<Seq<char>, DeviceView>::empty(),
            r.app_settings.is_default(),
    {
        Config { devices: KeyedTable::new(), app_settings: AppSettings::default() }
    }
}

/// Gesture thresholds with each per-device override applied over its default.
pub open spec fn effective_tuning(d: DeviceView, t: GestureTuning) -> bool {
    &&& t.swipe_distance.value() == match d.gesture_swipe_distance {
        Some(v) => v.value(),
        None => SWIPE_DISTANCE_DEFAULT,
    }
    &&& t.swipe_hold.value() == match d.gesture_swipe_hold_ms {
        Some(v) => v.value(),
        None => SWIPE_HOLD_DEFAULT_MS,
    }
    &&& t.long_press.value() == match d.long_press_ms {
        Some(v) => v.value(),
        None => LONG_PRESS_DEFAULT_MS,
    }
}

/// `d` with the gesture thresholds of `t` stored: each one that sits at its
/// default is left unset.
pub open spec fn with_tuning(d: DeviceView, t: GestureTuning) -> DeviceView {
    DeviceView {
        gesture_swipe_distance: if t.swipe_distance.value() == SWIPE_DISTANCE_DEFAULT {
            None
        } else {
            Some(t.swipe_distance)
        },
        gesture_swipe_hold_ms: if t.swipe_hold.value() == SWIPE_HOLD_DEFAULT_MS {
            None
        } else {
            Some(t.swipe_hold)
        },
        long_press_ms: if t.long_press.value() == LONG_PRESS_DEFAULT_MS {
            None
        } else {
            Some(t.long_press)
        },
        ..d
    }
}

/// `Some(v)` when `v` differs from `default`, else `None`.
pub open spec fn override_of<T>(v: T, default: T) -> Option<T> {
    if v == default {
        None
    } else {
        Some(v)
    }
}

impl Config {
    /// A copy with the same settings and devices.
    pub fn clone_config(&self) -> (r: Self)
        ensures
            r.devices@ == self.devices@,
            r.app_settings == self.app_settings,
    {
        Config { devices: self.devices.clone_table(), app_settings: self.app_settings.clone_settings() }
    }

    /// What `key` answers: its entry, or a fresh one.
    pub open spec fn device(self, key: Seq<char>) -> DeviceView {
        if self.devices@.contains_key(key) {
            self.devices@[key]
        } else {
            fresh_device()
        }
    }

    /// `key`'s entry with one field replaced, stored; the app settings kept.
    pub open spec fn stored(self, old: Config, key: Seq<char>, d: DeviceView) -> bool {
        &&& self.devices@ == old.devices@.insert(key, d)
        &&& self.app_settings == old.app_settings
    }

    /// Take `key`'s entry out, or a fresh one when it has none.
    fn take_device(&mut self, key: &str) -> (d: DeviceConfig)
        ensures
            d@ == old(self).device(key@),
            final(self).devices@ == old(self).devices@.remove(key@),
            final(self).app_settings == old(self).app_settings,
    {
        match self.devices.take(key) {
            Some(d) => d,
            None => DeviceConfig::default(),
        }
    }

    /// Put an entry taken out by [`Self::take_device`] back.
    fn store_device(&mut self, key: &str, d: DeviceConfig, Ghost(before): Ghost<Map<Seq<char>, DeviceView>>)
        requires
            old(self).devices@ == before.remove(key@),
        ensures
            final(self).devices@ == before.insert(key@, d@),
            final(self).app_settings == old(self).app_settings,
    {
        self.devices.insert(key, d);
        assert(before.remove(key@).insert(key@, d@) =~= before.insert(key@, d@));
    }

    /// The bindings stored for `device_key` as they were committed, or an
    /// empty map when the device has none yet.
    pub fn stored_bindings(&self, device_key: &str) -> (r: BindingMap)
        ensures
            r.view() == self.device(device_key@).bindings,
    {
        match self.devices.get(device_key) {
            Some(d) => d.bindings.clone_map(),
            None => BindingMap::new(),
        }
    }

    /// Record `binding` for `button` on `device_key`, creating the device
    /// entry if needed. Replaces the whole binding.
    pub fn set_binding(&mut self, device_key: &str, button: ButtonId, binding: Binding)
        ensures
            final(self).stored(*old(self), device_key@, DeviceView {
                bindings: old(self).device(device_key@).bindings.insert(button, binding),
                ..old(self).device(device_key@)
            }),
    {
        let ghost before = self.devices@;
        let mut d = self.take_device(device_key);
        d.bindings.insert(button, binding);
        self.store_device(device_key, d, Ghost(before));
    }

    /// Actions Ring settings for `device_key`, falling back to defaults when
    /// the device has no saved ring configuration.
    pub fn action_ring(&self, device_key: &str) -> (r: ActionRingConfig)
        ensures
            r@ == self.device(device_key@).action_ring,
    {
        match self.devices.get(device_key) {
            Some(d) => d.action_ring.clone_ring(),
            None => ActionRingConfig::default(),
        }
    }

    /// Enable or disable `device_key`'s Actions Ring.
    pub fn set_action_ring_enabled(&mut self, device_key: &str, enabled: bool)
        ensures
            final(self).stored(*old(self), device_key@, DeviceView {
                action_ring: RingView { enabled, ..old(self).device(device_key@).action_ring },
                ..old(self).device(device_key@)
            }),
    {
        let ghost before = self.devices@;
        let mut d = self.take_device(device_key);
        d.action_ring.enabled = enabled;
        self.store_device(device_key, d, Ghost(before));
    }

    /// Enable or disable ring hover and activation haptics.
    pub fn set_action_ring_haptics(&mut self, device_key: &str, enabled: bool)
        ensures
            final(self).stored(*old(self), device_key@, DeviceView {
                action_ring: RingView { haptics: enabled, ..old(self).device(device_key@).action_ring },
                ..old(self).device(device_key@)
            }),
    {
        let ghost before = self.devices@;
        let mut d = self.take_device(device_key);
        d.action_ring.haptics = enabled;
        self.store_device(device_key, d, Ghost(before));
    }

    /// Replace or clear one slot in the default Actions Ring layout.
    pub fn set_action_ring_slot(&mut self, device_key: &str, slot: ActionRingSlot, action: Option<Action>)
        ensures
            final(self).stored(*old(self), device_key@, DeviceView {
                action_ring: RingView {
                    default: old(self).device(device_key@).action_ring.default.update(
                        slot_index(slot),
                        RingSlotConfig {
                            action,
                            icon: old(self).device(device_key@).action_ring.default[slot_index(slot)].icon,
                        },
                    ),
                    ..old(self).device(device_key@).action_ring
                },
                ..old(self).device(device_key@)
            }),
    {
        let ghost before = self.devices@;
        let mut d = self.take_device(device_key);
        d.action_ring.default.set_action(slot, action);
        self.store_device(device_key, d, Ghost(before));
    }

    /// Set or restore the action-derived icon for one default ring slot.
    pub fn set_action_ring_icon(&mut self, device_key: &str, slot: ActionRingSlot, icon: Option<ActionRingIcon>)
        ensures
            final(self).stored(*old(self), device_key@, DeviceView {
                action_ring: RingView {
                    default: old(self).device(device_key@).action_ring.default.update(
                        slot_index(slot),
                        RingSlotConfig {
                            action: old(self).device(device_key@).action_ring.default[slot_index(slot)].action,
                            icon,
                        },
                    ),
                    ..old(self).device(device_key@).action_ring
                },
                ..old(self).device(device_key@)
            }),
    {
        let ghost before = self.devices@;
        let mut d = self.take_device(device_key);
        d.action_ring.default.set_icon(slot, icon);
        self.store_device(device_key, d, Ghost(before));
    }

    /// The ordered DPI preset list for `device_key`, or an empty list if the
    /// device has none configured yet.
    pub fn dpi_presets(&self, device_key: &str) -> (r: Vec<Dpi>)
        ensures
            r@ == self.device(device_key@).dpi_presets,
    {
        match self.devices.get(device_key) {
            Some(d) => {
                let mut out: Vec<Dpi> = Vec::new();
                let mut i: usize = 0;
                while i < d.dpi_presets.len()
                    invariant
                        i <= d.dpi_presets@.len(),
                        out@ == d.dpi_presets@.subrange(0, i as int),
                    decreases d.dpi_presets.len() - i,
                {
                    out.push(d.dpi_presets[i]);
                    assert(out@ =~= d.dpi_presets@.subrange(0, i + 1));
                    i += 1;
                }
                assert(out@ =~= d.dpi_presets@);
                out
            },
            None => Vec::new(),
        }
    }

    /// Replace the DPI preset list for `device_key`; an empty list clears it
    /// (the device entry is kept).
    pub fn set_dpi_presets(&mut self, device_key: &str, presets: Vec<Dpi>)
        ensures
            final(self).stored(*old(self), device_key@, DeviceView {
                dpi_presets: presets@,
                ..old(self).device(device_key@)
            }),
    {
        let ghost before = self.devices@;
        let mut d = self.take_device(device_key);
        d.dpi_presets = presets;
        self.store_device(device_key, d, Ghost(before));
    }

    /// The last-known identity for `device_key`, or `None` if the device has
    /// never been seen online.
    pub fn device_identity(&self, device_key: &str) -> (r: Option<&DeviceIdentity>)
        ensures
            opt_identity(match r {
                Some(i) => Some(*i),
                None => None,
            }) == self.device(device_key@).identity,
    {
        match self.devices.get(device_key) {
            Some(d) => match &d.identity {
                Some(i) => Some(i),
                None => None,
            },
            None => None,
        }
    }

    /// Record (or refresh) the identity captured for `device_key` while it was
    /// online, without its unit identifiers, creating the entry if needed.
    pub fn set_device_identity(&mut self, device_key: &str, identity: DeviceIdentity)
        ensures
            final(self).stored(*old(self), device_key@, DeviceView {
                identity: Some(IdentityView { serial: None, unit_id: None, ..identity@ }),
                ..old(self).device(device_key@)
            }),
    {
        let ghost before = self.devices@;
        let mut d = self.take_device(device_key);
        d.identity = Some(identity.without_unit_identifiers());
        self.store_device(device_key, d, Ghost(before));
    }

    /// Drop everything recorded for `device_key`. Returns whether an entry
    /// existed.
    pub fn remove_device(&mut self, device_key: &str) -> (r: bool)
        ensures
            r == old(self).devices@.contains_key(device_key@),
            final(self).devices@ == old(self).devices@.remove(device_key@),
            final(self).app_settings == old(self).app_settings,
    {
        self.devices.remove(device_key)
    }

    /// The user-assigned name for `device_key`, if one is configured.
    pub fn device_custom_name(&self, device_key: &str) -> (r: Option<&str>)
        ensures
            match r {
                Some(s) => self.device(device_key@).custom_name == Some(s@),
                None => self.device(device_key@).custom_name is None,
            },
    {
        match self.devices.get(device_key) {
            Some(d) => match &d.custom_name {
                Some(name) => Some(name.as_str()),
                None => None,
            },
            None => None,
        }
    }

    /// Set the user-assigned name for `device_key`, or clear it to use the
    /// hardware model name again.
    pub fn set_device_custom_name(&mut self, device_key: &str, custom_name: Option<String>)
        ensures
            final(self).stored(*old(self), device_key@, DeviceView {
                custom_name: opt_text(custom_name),
                ..old(self).device(device_key@)
            }),
    {
        let ghost before = self.devices@;
        let mut d = self.take_device(device_key);
        d.custom_name = custom_name;
        self.store_device(device_key, d, Ghost(before));
    }

    /// Every device with a recorded identity, as `(config key, identity)`,
    /// in ascending key order.
    pub fn known_identities(&self) -> (r: Vec<KnownIdentity>)
        ensures
            forall|i: int, j: int| 0 <= i < j < r@.len() ==> crate::keys::key_lt(#[trigger] r@[i].key@, #[trigger] r@[j].key@),
            forall|i: int| 0 <= i < r@.len() ==> {
                &&& self.devices@.contains_key(#[trigger] r@[i].key@)
                &&& self.devices@[r@[i].key@].identity == Some(r@[i].identity@)
            },
            forall|k: Seq<char>| #[trigger] self.devices@.contains_key(k) && self.devices@[k].identity is Some
                ==> exists|i: int| 0 <= i < r@.len() && r@[i].key@ == k,
    {
        self.devices.known_identities()
    }

    /// The lighting config for `device_key`, or `None` if unset.
    pub fn lighting(&self, device_key: &str) -> (r: Option<Lighting>)
        ensures
            r == self.device(device_key@).lighting,
    {
        match self.devices.get(device_key) {
            Some(d) => d.lighting,
            None => None,
        }
    }

    /// Replace the lighting config for `device_key`.
    pub fn set_lighting(&mut self, device_key: &str, lighting: Lighting)
        ensures
            final(self).stored(*old(self), device_key@, DeviceView {
                lighting: Some(lighting),
                ..old(self).device(device_key@)
            }),
    {
        let ghost before = self.devices@;
        let mut d = self.take_device(device_key);
        d.lighting = Some(lighting);
        self.store_device(device_key, d, Ghost(before));
    }

    /// The saved UVC image controls for `device_key`, or `None` if never set.
    pub fn camera_controls(&self, device_key: &str) -> (r: Option<CameraControls>)
        ensures
            r == self.device(device_key@).camera_controls,
    {
        match self.devices.get(device_key) {
            Some(d) => d.camera_controls,
            None => None,
        }
    }

    /// Replace the saved UVC image controls for `device_key`.
    pub fn set_camera_controls(&mut self, device_key: &str, controls: CameraControls)
        ensures
            final(self).stored(*old(self), device_key@, DeviceView {
                camera_controls: Some(controls),
                ..old(self).device(device_key@)
            }),
    {
        let ghost before = self.devices@;
        let mut d = self.take_device(device_key);
        d.camera_controls = Some(controls);
        self.store_device(device_key, d, Ghost(before));
    }

    /// The saved custom camera profiles for `device_key` (name -> snapshot).
    pub fn camera_profiles(&self, device_key: &str) -> (r: KeyedTable<CameraControls>)
        ensures
            r@ == self.device(device_key@).camera_profiles,
    {
        match self.devices.get(device_key) {
            Some(d) => d.camera_profiles.clone_table(),
            None => KeyedTable::new(),
        }
    }

    /// Save (or overwrite) a custom camera profile for `device_key`.
    pub fn save_camera_profile(&mut self, device_key: &str, name: &str, snap: CameraControls)
        ensures
            final(self).stored(*old(self), device_key@, DeviceView {
                camera_profiles: old(self).device(device_key@).camera_profiles.insert(name@, snap),
                ..old(self).device(device_key@)
            }),
    {
        let ghost before = self.devices@;
        let mut d = self.take_device(device_key);
        d.camera_profiles.insert(name, snap);
        self.store_device(device_key, d, Ghost(before));
    }

    /// Delete a custom camera profile, clearing the active selection if it
    /// named it. Unknown names, and devices without an entry, are a no-op.
    pub fn delete_camera_profile(&mut self, device_key: &str, name: &str)
        ensures
            !old(self).devices@.contains_key(device_key@) ==> final(self).devices@ == old(self).devices@,
            old(self).devices@.contains_key(device_key@) ==> final(self).devices@ == old(self).devices@.insert(
                device_key@,
                DeviceView {
                    camera_profiles: old(self).devices@[device_key@].camera_profiles.remove(name@),
                    camera_profile: if old(self).devices@[device_key@].camera_profile == Some(name@) {
                        None
                    } else {
                        old(self).devices@[device_key@].camera_profile
                    },
                    ..old(self).devices@[device_key@]
                },
            ),
            final(self).app_settings == old(self).app_settings,
    {
        let ghost before = self.devices@;
        match self.devices.take(device_key) {
            Some(mut d) => {
                d.camera_profiles.remove(name);
                let active = match &d.camera_profile {
                    Some(p) => crate::keys::same_text(p.as_str(), name),
                    None => false,
                };
                if active {
                    d.camera_profile = None;
                }
                self.store_device(device_key, d, Ghost(before));
            },
            None => {
                assert(before.remove(device_key@) =~= before);
            },
        }
    }

    /// The last-applied camera profile name for `device_key`, if any.
    pub fn camera_active_profile(&self, device_key: &str) -> (r: Option<String>)
        ensures
            opt_text(r) == self.device(device_key@).camera_profile,
    {
        match self.devices.get(device_key) {
            Some(d) => clone_opt_text(&d.camera_profile),
            None => None,
        }
    }

    /// Record which camera profile `device_key` last applied.
    pub fn set_camera_active_profile(&mut self, device_key: &str, name: Option<String>)
        ensures
            final(self).stored(*old(self), device_key@, DeviceView {
                camera_profile: opt_text(name),
                ..old(self).device(device_key@)
            }),
    {
        let ghost before = self.devices@;
        let mut d = self.take_device(device_key);
        d.camera_profile = name;
        self.store_device(device_key, d, Ghost(before));
    }

    /// The standalone-light config for `device_key`, or `None` if unset.
    pub fn light(&self, device_key: &str) -> (r: Option<LightSettings>)
        ensures
            r == self.device(device_key@).light,
    {
        match self.devices.get(device_key) {
            Some(d) => d.light,
            None => None,
        }
    }

    /// Replace the standalone-light config for `device_key`.
    pub fn set_light(&mut self, device_key: &str, light: LightSettings)
        ensures
            final(self).stored(*old(self), device_key@, DeviceView {
                light: Some(light),
                ..old(self).device(device_key@)
            }),
    {
        let ghost before = self.devices@;
        let mut d = self.take_device(device_key);
        d.light = Some(light);
        self.store_device(device_key, d, Ghost(before));
    }

    /// The committed sensor DPI for `device_key`, or `None` if never set.
    pub fn dpi(&self, device_key: &str) -> (r: Option<Dpi>)
        ensures
            r == self.device(device_key@).dpi,
    {
        match self.devices.get(device_key) {
            Some(d) => d.dpi,
            None => None,
        }
    }

    /// Record the committed sensor DPI for `device_key`, so the agent can
    /// re-apply it when the device reconnects.
    pub fn set_dpi(&mut self, device_key: &str, dpi: Dpi)
        ensures
            final(self).stored(*old(self), device_key@, DeviceView {
                dpi: Some(dpi),
                ..old(self).device(device_key@)
            }),
    {
        let ghost before = self.devices@;
        let mut d = self.take_device(device_key);
        d.dpi = Some(dpi);
        self.store_device(device_key, d, Ghost(before));
    }

    /// The SmartShift wheel config for `device_key`, or `None` if never set.
    pub fn smartshift(&self, device_key: &str) -> (r: Option<SmartShift>)
        ensures
            r == self.device(device_key@).smartshift,
    {
        match self.devices.get(device_key) {
            Some(d) => d.smartshift,
            None => None,
        }
    }

    /// The persisted keyboard Fn-lock state for `device_key`, or `None` when
    /// the user never set one.
    pub fn fn_lock(&self, device_key: &str) -> (r: Option<bool>)
        ensures
            r == self.device(device_key@).fn_lock,
    {
        match self.devices.get(device_key) {
            Some(d) => d.fn_lock,
            None => None,
        }
    }

    /// Record the SmartShift wheel config for `device_key`.
    pub fn set_smartshift(&mut self, device_key: &str, smartshift: SmartShift)
        ensures
            final(self).stored(*old(self), device_key@, DeviceView {
                smartshift: Some(smartshift),
                ..old(self).device(device_key@)
            }),
    {
        let ghost before = self.devices@;
        let mut d = self.take_device(device_key);
        d.smartshift = Some(smartshift);
        self.store_device(device_key, d, Ghost(before));
    }

    /// Whether `device_key`'s scroll wheel is inverted; `false` for an
    /// unconfigured or absent device.
    pub fn invert_scroll(&self, device_key: &str) -> (r: bool)
        ensures
            r == self.device(device_key@).invert_scroll,
    {
        match self.devices.get(device_key) {
            Some(d) => d.invert_scroll,
            None => false,
        }
    }

    /// Set whether `device_key`'s scroll wheel is inverted.
    pub fn set_invert_scroll(&mut self, device_key: &str, invert: bool)
        ensures
            final(self).stored(*old(self), device_key@, DeviceView {
                invert_scroll: invert,
                ..old(self).device(device_key@)
            }),
    {
        let ghost before = self.devices@;
        let mut d = self.take_device(device_key);
        d.invert_scroll = invert;
        self.store_device(device_key, d, Ghost(before));
    }

    /// The configured wheel resolution for `device_key`, or `None` when the
    /// device's current resolution is left unchanged.
    pub fn scroll_resolution(&self, device_key: &str) -> (r: Option<ScrollResolution>)
        ensures
            r == self.device(device_key@).scroll_resolution,
    {
        match self.devices.get(device_key) {
            Some(d) => d.scroll_resolution,
            None => None,
        }
    }

    /// Set the wheel resolution to restore for `device_key`; `None` returns
    /// the device to its unmanaged default state.
    pub fn set_scroll_resolution(&mut self, device_key: &str, resolution: Option<ScrollResolution>)
        ensures
            final(self).stored(*old(self), device_key@, DeviceView {
                scroll_resolution: resolution,
                ..old(self).device(device_key@)
            }),
    {
        let ghost before = self.devices@;
        let mut d = self.take_device(device_key);
        d.scroll_resolution = resolution;
        self.store_device(device_key, d, Ghost(before));
    }

    /// Whether OpenLogi manages `device_key` at all. Unconfigured devices
    /// are managed.
    pub fn device_enabled(&self, device_key: &str) -> (r: bool)
        ensures
            r == self.device(device_key@).enabled,
    {
        match self.devices.get(device_key) {
            Some(d) => d.enabled,
            None => true,
        }
    }

    /// Enable or disable OpenLogi's management of `device_key`.
    pub fn set_device_enabled(&mut self, device_key: &str, enabled: bool)
        ensures
            final(self).stored(*old(self), device_key@, DeviceView {
                enabled,
                ..old(self).device(device_key@)
            }),
    {
        let ghost before = self.devices@;
        let mut d = self.take_device(device_key);
        d.enabled = enabled;
        self.store_device(device_key, d, Ghost(before));
    }

    /// The effective thumb-wheel sensitivity for `device_key`: the device's
    /// override when set, else the app-wide default.
    pub fn thumbwheel_sensitivity(&self, device_key: &str) -> (r: ThumbwheelSensitivity)
        ensures
            r == match self.device(device_key@).thumbwheel_sensitivity {
                Some(s) => s,
                None => self.app_settings.thumbwheel_sensitivity,
            },
    {
        match self.devices.get(device_key) {
            Some(d) => match d.thumbwheel_sensitivity {
                Some(s) => s,
                None => self.app_settings.thumbwheel_sensitivity,
            },
            None => self.app_settings.thumbwheel_sensitivity,
        }
    }

    /// Set (or clear, with `None`) `device_key`'s thumb-wheel sensitivity
    /// override.
    pub fn set_device_thumbwheel_sensitivity(&mut self, device_key: &str, sensitivity: Option<ThumbwheelSensitivity>)
        ensures
            final(self).stored(*old(self), device_key@, DeviceView {
                thumbwheel_sensitivity: sensitivity,
                ..old(self).device(device_key@)
            }),
    {
        let ghost before = self.devices@;
        let mut d = self.take_device(device_key);
        d.thumbwheel_sensitivity = sensitivity;
        self.store_device(device_key, d, Ghost(before));
    }

    /// The effective gesture and long-press thresholds for `device_key`:
    /// each per-device override when set, else its default.
    pub fn gesture_tuning(&self, device_key: &str) -> (r: GestureTuning)
        ensures
            effective_tuning(self.device(device_key@), r),
    {
        let (distance, hold, long_press) = match self.devices.get(device_key) {
            Some(d) => (d.gesture_swipe_distance, d.gesture_swipe_hold_ms, d.long_press_ms),
            None => (None, None, None),
        };
        GestureTuning {
            swipe_distance: match distance {
                Some(v) => v,
                None => SwipeDistance::default_value(),
            },
            swipe_hold: match hold {
                Some(v) => v,
                None => SwipeHold::default_value(),
            },
            long_press: match long_press {
                Some(v) => v,
                None => LongPressDelay::default_value(),
            },
        }
    }

    /// Store `device_key`'s gesture and long-press thresholds, keeping only
    /// the values that differ from their defaults.
    pub fn set_device_gesture_tuning(&mut self, device_key: &str, tuning: GestureTuning)
        ensures
            final(self).stored(*old(self), device_key@, with_tuning(old(self).device(device_key@), tuning)),
    {
        let ghost before = self.devices@;
        let mut d = self.take_device(device_key);
        let defaults = GestureTuning::default();
        proof {
            SwipeDistance::lemma_value_injective(tuning.swipe_distance, defaults.swipe_distance);
            SwipeHold::lemma_value_injective(tuning.swipe_hold, defaults.swipe_hold);
            LongPressDelay::lemma_value_injective(tuning.long_press, defaults.long_press);
        }
        d.gesture_swipe_distance = if tuning.swipe_distance != defaults.swipe_distance {
            Some(tuning.swipe_distance)
        } else {
            None
        };
        d.gesture_swipe_hold_ms = if tuning.swipe_hold != defaults.swipe_hold {
            Some(tuning.swipe_hold)
        } else {
            None
        };
        d.long_press_ms = if tuning.long_press != defaults.long_press {
            Some(tuning.long_press)
        } else {
            None
        };
        self.store_device(device_key, d, Ghost(before));
    }
}

/// Writing one device's settings makes that device answer what was written,
/// and changes nothing any other device answers, nor the app settings.
pub proof fn per_device_isolation(before: Config, after: Config, key: Seq<char>, d: DeviceView, other: Seq<char>)
    requires
        after.stored(before, key, d),
    ensures
        after.device(key) == d,
        other != key ==> after.device(other) == before.device(other),
        after.app_settings == before.app_settings,
{
}

/// A removed device answers every query with the defaults of a device that
/// was never configured.
pub proof fn removed_device_answers_defaults(before: Config, after: Config, key: Seq<char>)
    requires
        after.devices@ == before.devices@.remove(key),
    ensures
        after.device(key) == fresh_device(),
{
}

/// Gesture thresholds stored for a device read back unchanged, whichever of
/// them sit at their defaults.
pub proof fn gesture_tuning_roundtrip(d: DeviceView, t: GestureTuning, read: GestureTuning)
    requires
        effective_tuning(with_tuning(d, t), read),
    ensures
        read == t,
{
    SwipeDistance::lemma_value_injective(read.swipe_distance, t.swipe_distance);
    SwipeHold::lemma_value_injective(read.swipe_hold, t.swipe_hold);
    LongPressDelay::lemma_value_injective(read.long_press, t.long_press);
}

} // verus!
