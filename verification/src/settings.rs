//! App-level settings commits: each one edits the configuration, and says
//! whether (and how) the result must be written out.
//!
//! Writing the configuration, reloading the agent and the other side
//! effects are the caller's: a commit returns a [`Persist`] request, the
//! caller writes the configuration it holds and reports the outcome to
//! [`AppState::settle`], which rolls the edit back when the write failed and
//! names the follow-up the caller then performs.
use crate::config::{
    clone_string_option, AppIcon, AppSettings, Appearance, AssetSourcePreference, Config,
    DeviceViewMode, MouseProfileTarget, SmoothScrollAcceleration, SmoothScrollGlide,
    SmoothScrollPause, SmoothScrollTouch, UiScale, VerticalScrollSensitivity,
};
use crate::device::{opt_text, DeviceView, ThumbwheelSensitivity};
use crate::keys::same_text;
use crate::text::{trim, trimmed};
use crate::tuning::{GestureTuning, LongPressDelay, SwipeDistance, SwipeHold};
use crate::config::{effective_tuning, with_tuning};
use vstd::prelude::*;
use vstd::string::StrSliceExecFns;

verus! {

/// The config key of one device.
#[derive(Debug, PartialEq, Eq)]
pub struct DeviceKey(pub String);

impl DeviceKey {
    /// The key `key`.
    pub fn new(key: &str) -> (r: Self)
        ensures
            r.0@ == key@,
    {
        DeviceKey(key.to_owned())
    }

    /// The key as text.
    pub fn as_str(&self) -> (r: &str)
        ensures
            r@ == self.0@,
    {
        self.0.as_str()
    }
}

impl Clone for DeviceKey {
    fn clone(&self) -> (r: Self)
        ensures
            r == *self,
    {
        DeviceKey(self.0.clone())
    }
}

/// What changed, for the views that repaint on it.
#[derive(Debug, PartialEq, Eq)]
pub enum StateEvent {
    SettingsChanged,
    InventoryChanged,
    DeviceConfigChanged(DeviceKey),
    LanguageChanged,
}

/// The events one change reports, in order.
#[derive(Debug, PartialEq, Eq)]
pub struct StateEvents {
    pub events: Vec<StateEvent>,
}

impl StateEvents {
    /// The events as a sequence.
    pub open spec fn view(self) -> Seq<StateEvent> {
        self.events@
    }

    /// Just `event`.
    pub fn single(event: StateEvent) -> (r: Self)
        ensures
            r@ == seq![event],
    {
        let mut events: Vec<StateEvent> = Vec::new();
        events.push(event);
        assert(events@ =~= seq![event]);
        StateEvents { events }
    }

    /// These events, then `event`.
    pub fn and(self, event: StateEvent) -> (r: Self)
        ensures
            r@ == self@.push(event),
    {
        let mut events = self.events;
        events.push(event);
        StateEvents { events }
    }
}

/// A device as the gallery shows it.
#[derive(Debug, PartialEq, Eq)]
pub struct DeviceRecord {
    /// The key the record is addressed by.
    pub record_key: String,
    /// The hardware model name.
    pub model_name: String,
    /// The name shown: the user's alias, else the model name.
    pub display_name: String,
}

/// What the caller does once a write settled.
#[derive(Debug, PartialEq, Eq)]
pub enum FollowUp {
    /// Make sure the agent service is registered with the system.
    EnsureRegistered,
    /// Put the chosen icon on the application.
    ApplyAppIcon(AppIcon),
    /// Switch the process locale to this language (`None`: follow the
    /// system).
    ActivateLanguage(Option<String>),
}

/// What a commit does after its write settled.
#[derive(Debug, PartialEq, Eq)]
pub enum AfterSave {
    Nothing,
    EnsureRegistered,
    ApplyAppIcon(AppIcon),
    RenameRecords { record_key: String, custom_name: Option<String> },
    ActivateLanguage,
}

/// A request to write the configuration out.
#[derive(Debug)]
pub struct Persist {
    /// What the write is for, for error reports.
    pub label: &'static str,
    /// Whether the agent must reload the configuration after the write.
    pub reload: bool,
    /// The configuration before the edit, restored when the write fails.
    pub snapshot: Config,
    /// What to do once the write settled.
    pub after: AfterSave,
}

/// The outcome of one commit.
#[derive(Debug)]
pub struct Commit {
    pub events: StateEvents,
    pub persist: Option<Persist>,
}

/// The GUI's state: the configuration being edited and the device gallery.
#[derive(Debug)]
pub struct AppState {
    pub config: Config,
    pub records: Vec<DeviceRecord>,
}

/// `c` asks for a write with these properties, with `old`'s configuration
/// as the snapshot to restore.
pub open spec fn requests_write(c: Commit, old: AppState, reload: bool, after: AfterSave) -> bool {
    &&& c.persist is Some
    &&& c.persist.unwrap().reload == reload
    &&& c.persist.unwrap().after == after
    &&& c.persist.unwrap().snapshot.devices@ == old.config.devices@
    &&& c.persist.unwrap().snapshot.app_settings == old.config.app_settings
}

/// The configuration once a write settled: the edited one when it reached
/// disk, else the snapshot taken before the edit.
pub open spec fn settled_config(new: Config, edited: Config, persist: Persist, saved: bool) -> bool {
    if saved {
        new == edited
    } else {
        new.devices@ == persist.snapshot.devices@ && new.app_settings == persist.snapshot.app_settings
    }
}

/// A commit whose write fails leaves the configuration exactly as it was
/// before the commit.
pub proof fn failed_write_restores_configuration(
    before: AppState,
    c: Commit,
    reload: bool,
    after: AfterSave,
    edited: Config,
    settled: Config,
)
    requires
        requests_write(c, before, reload, after),
        settled_config(settled, edited, c.persist.unwrap(), false),
    ensures
        settled.devices@ == before.config.devices@,
        settled.app_settings == before.config.app_settings,
{
}

/// Whether the display names follow the rename of `key` to `name`.
pub open spec fn renamed(old: Seq<DeviceRecord>, new: Seq<DeviceRecord>, key: Seq<char>, name: Option<Seq<char>>) -> bool {
    &&& new.len() == old.len()
    &&& forall|i: int| 0 <= i < new.len() ==> {
        &&& (#[trigger] new[i]).record_key == old[i].record_key
        &&& new[i].model_name == old[i].model_name
        &&& new[i].display_name@ == if old[i].record_key@ == key {
            match name {
                Some(n) => n,
                None => old[i].model_name@,
            }
        } else {
            old[i].display_name@
        }
    }
}

/// Whether two optional strings hold the same text.
fn same_opt_text(a: &Option<String>, b: &Option<String>) -> (r: bool)
    ensures
        r == (opt_text(*a) == opt_text(*b)),
{
    match (a, b) {
        (Some(x), Some(y)) => same_text(x.as_str(), y.as_str()),
        (None, None) => true,
        _ => false,
    }
}

/// The position of `target` among the mouse-profile choices the settings
/// page offers: the pointer's application first, then the focused one.
pub fn mouse_profile_choice(target: MouseProfileTarget) -> (r: usize)
    ensures
        r == match target {
            MouseProfileTarget::Pointer => 0usize,
            MouseProfileTarget::Focused => 1usize,
        },
{
    match target {
        MouseProfileTarget::Pointer => 0,
        MouseProfileTarget::Focused => 1,
    }
}

/// The mouse-profile target chosen at `index`; there are exactly two
/// choices.
pub fn mouse_profile_target_at(index: usize) -> (r: MouseProfileTarget)
    requires
        index < 2,
    ensures
        index == 0 ==> r == MouseProfileTarget::Pointer,
        index == 1 ==> r == MouseProfileTarget::Focused,
{
    if index == 0 {
        MouseProfileTarget::Pointer
    } else {
        MouseProfileTarget::Focused
    }
}

/// Choosing the option a target is shown at selects that target again.
pub proof fn mouse_profile_choice_roundtrip(target: MouseProfileTarget, index: usize, chosen: MouseProfileTarget)
    requires
        index == (match target {
            MouseProfileTarget::Pointer => 0usize,
            MouseProfileTarget::Focused => 1usize,
        }),
        index == 0 ==> chosen == MouseProfileTarget::Pointer,
        index == 1 ==> chosen == MouseProfileTarget::Focused,
    ensures
        chosen == target,
{
}

impl AppState {
    /// A state over `config` with an empty gallery.
    pub fn new(config: Config) -> (r: Self)
        ensures
            r.config == config,
            r.records@.len() == 0,
    {
        AppState { config, records: Vec::new() }
    }

    /// `self` is `old` with the app settings replaced by `s`.
    pub open spec fn edited_settings(self, old: AppState, s: AppSettings) -> bool {
        &&& self.config.app_settings == s
        &&& self.config.devices@ == old.config.devices@
        &&& self.records == old.records
    }

    /// `self` is `old` with the device table replaced by `m`.
    pub open spec fn edited_devices(self, old: AppState, m: Map<Seq<char>, DeviceView>) -> bool {
        &&& self.config.app_settings == old.config.app_settings
        &&& self.config.devices@ == m
        &&& self.records == old.records
    }

    /// App-wide settings, read-only; change them through the commits.
    pub fn app_settings(&self) -> (r: &AppSettings)
        ensures
            *r == self.config.app_settings,
    {
        &self.config.app_settings
    }

    /// Finish a commit's write: `saved` tells whether the configuration
    /// reached disk. A failed write restores the snapshot. Returns the
    /// follow-up the caller performs next, if any.
    pub fn settle(&mut self, persist: Persist, saved: bool) -> (r: Option<FollowUp>)
        ensures
            settled_config(final(self).config, old(self).config, persist, saved),
            match persist.after {
                AfterSave::RenameRecords { record_key, custom_name } => if saved {
                    renamed(old(self).records@, final(self).records@, record_key@, opt_text(custom_name))
                } else {
                    final(self).records == old(self).records
                },
                _ => final(self).records == old(self).records,
            },
            match persist.after {
                AfterSave::Nothing => r is None,
                AfterSave::RenameRecords { .. } => r is None,
                AfterSave::EnsureRegistered => r == if saved { Some(FollowUp::EnsureRegistered) } else { None::<FollowUp> },
                AfterSave::ApplyAppIcon(icon) => r == if saved { Some(FollowUp::ApplyAppIcon(icon)) } else { None::<FollowUp> },
                AfterSave::ActivateLanguage => r == Some(FollowUp::ActivateLanguage(final(self).config.app_settings.language)),
            },
    {
        if !saved {
            self.config = persist.snapshot;
        }
        match persist.after {
            AfterSave::Nothing => None,
            AfterSave::EnsureRegistered => if saved { Some(FollowUp::EnsureRegistered) } else { None },
            AfterSave::ApplyAppIcon(icon) => if saved { Some(FollowUp::ApplyAppIcon(icon)) } else { None },
            AfterSave::RenameRecords { record_key, custom_name } => {
                if saved {
                    self.rename_records(record_key.as_str(), &custom_name);
                }
                None
            },
            AfterSave::ActivateLanguage => Some(FollowUp::ActivateLanguage(clone_string_option(&self.config.app_settings.language))),
        }
    }

    /// Show `custom_name` (or, with `None`, the model name) on every record
    /// addressed by `record_key`.
    fn rename_records(&mut self, record_key: &str, custom_name: &Option<String>)
        ensures
            renamed(old(self).records@, final(self).records@, record_key@, opt_text(*custom_name)),
            final(self).config == old(self).config,
    {
        let mut i: usize = 0;
        while i < self.records.len()
            invariant
                i <= self.records@.len(),
                self.config == old(self).config,
                self.records@.len() == old(self).records@.len(),
                forall|j: int| i <= j < self.records@.len() ==> self.records@[j] == old(self).records@[j],
                forall|j: int| 0 <= j < i ==> {
                    &&& (#[trigger] self.records@[j]).record_key == old(self).records@[j].record_key
                    &&& self.records@[j].model_name == old(self).records@[j].model_name
                    &&& self.records@[j].display_name@ == if old(self).records@[j].record_key@ == record_key@ {
                        match opt_text(*custom_name) {
                            Some(n) => n,
                            None => old(self).records@[j].model_name@,
                        }
                    } else {
                        old(self).records@[j].display_name@
                    }
                },
            decreases self.records.len() - i,
        {
            if same_text(self.records[i].record_key.as_str(), record_key) {
                let display_name = match custom_name {
                    Some(name) => name.clone(),
                    None => self.records[i].model_name.clone(),
                };
                let record = DeviceRecord {
                    record_key: self.records[i].record_key.clone(),
                    model_name: self.records[i].model_name.clone(),
                    display_name,
                };
                self.records.set(i, record);
            }
            i += 1;
        }
    }

    /// Toggle launch-at-login and persist it. Once the write succeeded the
    /// caller makes sure the agent service is registered. An already-set
    /// value writes nothing and is still reported.
    pub fn commit_launch_at_login(&mut self, enabled: bool) -> (r: Commit)
        ensures
            r.events@ == seq![StateEvent::SettingsChanged],
            old(self).config.app_settings.launch_at_login == enabled ==> *final(self) == *old(self) && r.persist is None,
            old(self).config.app_settings.launch_at_login != enabled ==> final(self).edited_settings(
                *old(self),
                AppSettings { launch_at_login: enabled, ..old(self).config.app_settings },
            ) && requests_write(r, *old(self), true, AfterSave::EnsureRegistered),
    {
        let events = StateEvents::single(StateEvent::SettingsChanged);
        if self.config.app_settings.launch_at_login == enabled {
            return Commit { events, persist: None };
        }
        let snapshot = self.config.clone_config();
        self.config.app_settings.launch_at_login = enabled;
        Commit {
            events,
            persist: Some(Persist { label: "launch-at-login setting", reload: true, snapshot, after: AfterSave::EnsureRegistered }),
        }
    }

    /// Toggle the menu-bar (status item) icon preference and persist it; the
    /// agent reads it on its next launch. An already-set value writes nothing
    /// and is still reported.
    pub fn commit_show_in_menu_bar(&mut self, enabled: bool) -> (r: Commit)
        ensures
            r.events@ == seq![StateEvent::SettingsChanged],
            old(self).config.app_settings.show_in_menu_bar == enabled ==> *final(self) == *old(self) && r.persist is None,
            old(self).config.app_settings.show_in_menu_bar != enabled ==> final(self).edited_settings(
                *old(self),
                AppSettings { show_in_menu_bar: enabled, ..old(self).config.app_settings },
            ) && requests_write(r, *old(self), true, AfterSave::Nothing),
    {
        let events = StateEvents::single(StateEvent::SettingsChanged);
        if self.config.app_settings.show_in_menu_bar == enabled {
            return Commit { events, persist: None };
        }
        let snapshot = self.config.clone_config();
        self.config.app_settings.show_in_menu_bar = enabled;
        Commit {
            events,
            persist: Some(Persist { label: "show-in-menu-bar setting", reload: true, snapshot, after: AfterSave::Nothing }),
        }
    }

    /// Toggle the opt-in update check and persist it. An already-set value
    /// writes nothing and is still reported.
    pub fn commit_check_for_updates(&mut self, enabled: bool) -> (r: Commit)
        ensures
            r.events@ == seq![StateEvent::SettingsChanged],
            old(self).config.app_settings.check_for_updates == enabled ==> *final(self) == *old(self) && r.persist is None,
            old(self).config.app_settings.check_for_updates != enabled ==> final(self).edited_settings(
                *old(self),
                AppSettings { check_for_updates: enabled, ..old(self).config.app_settings },
            ) && requests_write(r, *old(self), false, AfterSave::Nothing),
    {
        let events = StateEvents::single(StateEvent::SettingsChanged);
        if self.config.app_settings.check_for_updates == enabled {
            return Commit { events, persist: None };
        }
        let snapshot = self.config.clone_config();
        self.config.app_settings.check_for_updates = enabled;
        Commit {
            events,
            persist: Some(Persist { label: "update-check setting", reload: false, snapshot, after: AfterSave::Nothing }),
        }
    }

    /// Toggle opt-in automatic install and persist it. An already-set value
    /// writes nothing and is still reported.
    pub fn commit_auto_install_updates(&mut self, enabled: bool) -> (r: Commit)
        ensures
            r.events@ == seq![StateEvent::SettingsChanged],
            old(self).config.app_settings.auto_install_updates == enabled ==> *final(self) == *old(self) && r.persist is None,
            old(self).config.app_settings.auto_install_updates != enabled ==> final(self).edited_settings(
                *old(self),
                AppSettings { auto_install_updates: enabled, ..old(self).config.app_settings },
            ) && requests_write(r, *old(self), false, AfterSave::Nothing),
    {
        let events = StateEvents::single(StateEvent::SettingsChanged);
        if self.config.app_settings.auto_install_updates == enabled {
            return Commit { events, persist: None };
        }
        let snapshot = self.config.clone_config();
        self.config.app_settings.auto_install_updates = enabled;
        Commit {
            events,
            persist: Some(Persist { label: "auto-install setting", reload: false, snapshot, after: AfterSave::Nothing }),
        }
    }

    /// Persist the light/dark appearance preference. An already-set value
    /// writes nothing and is still reported.
    pub fn commit_appearance(&mut self, appearance: Appearance) -> (r: Commit)
        ensures
            r.events@ == seq![StateEvent::SettingsChanged],
            old(self).config.app_settings.appearance == appearance ==> *final(self) == *old(self) && r.persist is None,
            old(self).config.app_settings.appearance != appearance ==> final(self).edited_settings(
                *old(self),
                AppSettings { appearance: appearance, ..old(self).config.app_settings },
            ) && requests_write(r, *old(self), false, AfterSave::Nothing),
    {
        let events = StateEvents::single(StateEvent::SettingsChanged);
        if self.config.app_settings.appearance == appearance {
            return Commit { events, persist: None };
        }
        let snapshot = self.config.clone_config();
        self.config.app_settings.appearance = appearance;
        Commit {
            events,
            persist: Some(Persist { label: "appearance setting", reload: false, snapshot, after: AfterSave::Nothing }),
        }
    }

    /// Persist the text and interface scale. An already-set value writes
    /// nothing and is still reported.
    pub fn commit_ui_scale(&mut self, scale: UiScale) -> (r: Commit)
        ensures
            r.events@ == seq![StateEvent::SettingsChanged],
            old(self).config.app_settings.ui_scale == scale ==> *final(self) == *old(self) && r.persist is None,
            old(self).config.app_settings.ui_scale != scale ==> final(self).edited_settings(
                *old(self),
                AppSettings { ui_scale: scale, ..old(self).config.app_settings },
            ) && requests_write(r, *old(self), false, AfterSave::Nothing),
    {
        let events = StateEvents::single(StateEvent::SettingsChanged);
        if self.config.app_settings.ui_scale == scale {
            return Commit { events, persist: None };
        }
        let snapshot = self.config.clone_config();
        self.config.app_settings.ui_scale = scale;
        Commit {
            events,
            persist: Some(Persist { label: "UI scale setting", reload: false, snapshot, after: AfterSave::Nothing }),
        }
    }

    /// Persist the chosen app icon; once the write succeeded the caller puts
    /// the icon on the application (a failed write rolls the choice back, so
    /// no icon outlives it). An already-set value writes nothing and is still
    /// reported.
    pub fn commit_app_icon(&mut self, icon: AppIcon) -> (r: Commit)
        ensures
            r.events@ == seq![StateEvent::SettingsChanged],
            old(self).config.app_settings.app_icon == icon ==> *final(self) == *old(self) && r.persist is None,
            old(self).config.app_settings.app_icon != icon ==> final(self).edited_settings(
                *old(self),
                AppSettings { app_icon: icon, ..old(self).config.app_settings },
            ) && requests_write(r, *old(self), true, AfterSave::ApplyAppIcon(icon)),
    {
        let events = StateEvents::single(StateEvent::SettingsChanged);
        if self.config.app_settings.app_icon == icon {
            return Commit { events, persist: None };
        }
        let snapshot = self.config.clone_config();
        self.config.app_settings.app_icon = icon;
        Commit {
            events,
            persist: Some(Persist { label: "app icon setting", reload: true, snapshot, after: AfterSave::ApplyAppIcon(icon) }),
        }
    }

    /// Persist the UI corner-radius override (`None` = each theme's own
    /// radius). An already-set value writes nothing and is still reported.
    pub fn commit_ui_radius(&mut self, radius: Option<u8>) -> (r: Commit)
        ensures
            r.events@ == seq![StateEvent::SettingsChanged],
            old(self).config.app_settings.ui_radius == radius ==> *final(self) == *old(self) && r.persist is None,
            old(self).config.app_settings.ui_radius != radius ==> final(self).edited_settings(
                *old(self),
                AppSettings { ui_radius: radius, ..old(self).config.app_settings },
            ) && requests_write(r, *old(self), false, AfterSave::Nothing),
    {
        let events = StateEvents::single(StateEvent::SettingsChanged);
        if same_opt_u8(self.config.app_settings.ui_radius, radius) {
            return Commit { events, persist: None };
        }
        let snapshot = self.config.clone_config();
        self.config.app_settings.ui_radius = radius;
        Commit {
            events,
            persist: Some(Persist { label: "UI radius setting", reload: false, snapshot, after: AfterSave::Nothing }),
        }
    }

    /// Persist the Home device-gallery layout. An already-set value writes
    /// nothing and is still reported.
    pub fn commit_device_view_mode(&mut self, mode: DeviceViewMode) -> (r: Commit)
        ensures
            r.events@ == seq![StateEvent::SettingsChanged],
            old(self).config.app_settings.device_view_mode == mode ==> *final(self) == *old(self) && r.persist is None,
            old(self).config.app_settings.device_view_mode != mode ==> final(self).edited_settings(
                *old(self),
                AppSettings { device_view_mode: mode, ..old(self).config.app_settings },
            ) && requests_write(r, *old(self), false, AfterSave::Nothing),
    {
        let events = StateEvents::single(StateEvent::SettingsChanged);
        if self.config.app_settings.device_view_mode == mode {
            return Commit { events, persist: None };
        }
        let snapshot = self.config.clone_config();
        self.config.app_settings.device_view_mode = mode;
        Commit {
            events,
            persist: Some(Persist { label: "device view mode", reload: false, snapshot, after: AfterSave::Nothing }),
        }
    }

    /// Set the app-wide default thumb-wheel sensitivity and persist it; devices
    /// without an override follow it. An already-set value writes nothing and
    /// is still reported.
    pub fn commit_thumbwheel_sensitivity(&mut self, sensitivity: ThumbwheelSensitivity) -> (r: Commit)
        ensures
            r.events@ == seq![StateEvent::SettingsChanged],
            old(self).config.app_settings.thumbwheel_sensitivity == sensitivity ==> *final(self) == *old(self) && r.persist is None,
            old(self).config.app_settings.thumbwheel_sensitivity != sensitivity ==> final(self).edited_settings(
                *old(self),
                AppSettings { thumbwheel_sensitivity: sensitivity, ..old(self).config.app_settings },
            ) && requests_write(r, *old(self), true, AfterSave::Nothing),
    {
        let events = StateEvents::single(StateEvent::SettingsChanged);
        if self.config.app_settings.thumbwheel_sensitivity == sensitivity {
            return Commit { events, persist: None };
        }
        let snapshot = self.config.clone_config();
        self.config.app_settings.thumbwheel_sensitivity = sensitivity;
        Commit {
            events,
            persist: Some(Persist { label: "thumbwheel sensitivity", reload: true, snapshot, after: AfterSave::Nothing }),
        }
    }

    /// Persist the application target for mouse button profiles and reload the
    /// agent. An unchanged value writes nothing; a failed save restores the
    /// previous selection.
    pub fn commit_mouse_profile_target(&mut self, target: MouseProfileTarget) -> (r: Commit)
        ensures
            r.events@ == seq![StateEvent::SettingsChanged],
            old(self).config.app_settings.mouse_profile_target == target ==> *final(self) == *old(self) && r.persist is None,
            old(self).config.app_settings.mouse_profile_target != target ==> final(self).edited_settings(
                *old(self),
                AppSettings { mouse_profile_target: target, ..old(self).config.app_settings },
            ) && requests_write(r, *old(self), true, AfterSave::Nothing),
    {
        let events = StateEvents::single(StateEvent::SettingsChanged);
        if self.config.app_settings.mouse_profile_target == target {
            return Commit { events, persist: None };
        }
        let snapshot = self.config.clone_config();
        self.config.app_settings.mouse_profile_target = target;
        Commit {
            events,
            persist: Some(Persist { label: "mouse profile target", reload: true, snapshot, after: AfterSave::Nothing }),
        }
    }

    /// Toggle finite animation for traditional mouse-wheel input and persist
    /// it. An already-set value writes nothing and is still reported.
    pub fn commit_smooth_scroll(&mut self, enabled: bool) -> (r: Commit)
        ensures
            r.events@ == seq![StateEvent::SettingsChanged],
            old(self).config.app_settings.smooth_scroll == enabled ==> *final(self) == *old(self) && r.persist is None,
            old(self).config.app_settings.smooth_scroll != enabled ==> final(self).edited_settings(
                *old(self),
                AppSettings { smooth_scroll: enabled, ..old(self).config.app_settings },
            ) && requests_write(r, *old(self), true, AfterSave::Nothing),
    {
        let events = StateEvents::single(StateEvent::SettingsChanged);
        if self.config.app_settings.smooth_scroll == enabled {
            return Commit { events, persist: None };
        }
        let snapshot = self.config.clone_config();
        self.config.app_settings.smooth_scroll = enabled;
        Commit {
            events,
            persist: Some(Persist { label: "smooth scroll", reload: true, snapshot, after: AfterSave::Nothing }),
        }
    }

    /// Set traditional vertical mouse-wheel sensitivity and persist it. An
    /// already-set value writes nothing and is still reported.
    pub fn commit_vertical_scroll_sensitivity(&mut self, sensitivity: VerticalScrollSensitivity) -> (r: Commit)
        ensures
            r.events@ == seq![StateEvent::SettingsChanged],
            old(self).config.app_settings.vertical_scroll_sensitivity == sensitivity ==> *final(self) == *old(self) && r.persist is None,
            old(self).config.app_settings.vertical_scroll_sensitivity != sensitivity ==> final(self).edited_settings(
                *old(self),
                AppSettings { vertical_scroll_sensitivity: sensitivity, ..old(self).config.app_settings },
            ) && requests_write(r, *old(self), true, AfterSave::Nothing),
    {
        let events = StateEvents::single(StateEvent::SettingsChanged);
        if self.config.app_settings.vertical_scroll_sensitivity == sensitivity {
            return Commit { events, persist: None };
        }
        let snapshot = self.config.clone_config();
        self.config.app_settings.vertical_scroll_sensitivity = sensitivity;
        Commit {
            events,
            persist: Some(Persist { label: "vertical scroll sensitivity", reload: true, snapshot, after: AfterSave::Nothing }),
        }
    }

    /// Set the smooth-scroll acceleration and persist it.
    pub fn commit_smooth_scroll_acceleration(&mut self, acceleration: SmoothScrollAcceleration) -> (r: Commit)
        ensures
            r.events@ == seq![StateEvent::SettingsChanged],
            old(self).config.app_settings.smooth_scroll_acceleration == acceleration ==> *final(self) == *old(self) && r.persist is None,
            old(self).config.app_settings.smooth_scroll_acceleration != acceleration ==> final(self).edited_settings(
                *old(self),
                AppSettings { smooth_scroll_acceleration: acceleration, ..old(self).config.app_settings },
            ) && requests_write(r, *old(self), true, AfterSave::Nothing),
    {
        let events = StateEvents::single(StateEvent::SettingsChanged);
        if self.config.app_settings.smooth_scroll_acceleration == acceleration {
            return Commit { events, persist: None };
        }
        let snapshot = self.config.clone_config();
        self.config.app_settings.smooth_scroll_acceleration = acceleration;
        Commit {
            events,
            persist: Some(Persist { label: "smooth scroll acceleration", reload: true, snapshot, after: AfterSave::Nothing }),
        }
    }

    /// Set how long a smooth scroll glides and persist it.
    pub fn commit_smooth_scroll_glide(&mut self, glide: SmoothScrollGlide) -> (r: Commit)
        ensures
            r.events@ == seq![StateEvent::SettingsChanged],
            old(self).config.app_settings.smooth_scroll_glide == glide ==> *final(self) == *old(self) && r.persist is None,
            old(self).config.app_settings.smooth_scroll_glide != glide ==> final(self).edited_settings(
                *old(self),
                AppSettings { smooth_scroll_glide: glide, ..old(self).config.app_settings },
            ) && requests_write(r, *old(self), true, AfterSave::Nothing),
    {
        let events = StateEvents::single(StateEvent::SettingsChanged);
        if self.config.app_settings.smooth_scroll_glide == glide {
            return Commit { events, persist: None };
        }
        let snapshot = self.config.clone_config();
        self.config.app_settings.smooth_scroll_glide = glide;
        Commit {
            events,
            persist: Some(Persist { label: "smooth scroll glide", reload: true, snapshot, after: AfterSave::Nothing }),
        }
    }

    /// Set whether smooth scrolling bounces at the content edge.
    pub fn commit_smooth_scroll_edge_bounce(&mut self, enabled: bool) -> (r: Commit)
        ensures
            r.events@ == seq![StateEvent::SettingsChanged],
            old(self).config.app_settings.smooth_scroll_edge_bounce == enabled ==> *final(self) == *old(self) && r.persist is None,
            old(self).config.app_settings.smooth_scroll_edge_bounce != enabled ==> final(self).edited_settings(
                *old(self),
                AppSettings { smooth_scroll_edge_bounce: enabled, ..old(self).config.app_settings },
            ) && requests_write(r, *old(self), true, AfterSave::Nothing),
    {
        let events = StateEvents::single(StateEvent::SettingsChanged);
        if self.config.app_settings.smooth_scroll_edge_bounce == enabled {
            return Commit { events, persist: None };
        }
        let snapshot = self.config.clone_config();
        self.config.app_settings.smooth_scroll_edge_bounce = enabled;
        Commit {
            events,
            persist: Some(Persist { label: "smooth scroll edge bounce", reload: true, snapshot, after: AfterSave::Nothing }),
        }
    }

    /// Set how long a smooth scroll acts as a fingers-down gesture.
    pub fn commit_smooth_scroll_touch(&mut self, touch: SmoothScrollTouch) -> (r: Commit)
        ensures
            r.events@ == seq![StateEvent::SettingsChanged],
            old(self).config.app_settings.smooth_scroll_touch == touch ==> *final(self) == *old(self) && r.persist is None,
            old(self).config.app_settings.smooth_scroll_touch != touch ==> final(self).edited_settings(
                *old(self),
                AppSettings { smooth_scroll_touch: touch, ..old(self).config.app_settings },
            ) && requests_write(r, *old(self), true, AfterSave::Nothing),
    {
        let events = StateEvents::single(StateEvent::SettingsChanged);
        if self.config.app_settings.smooth_scroll_touch == touch {
            return Commit { events, persist: None };
        }
        let snapshot = self.config.clone_config();
        self.config.app_settings.smooth_scroll_touch = touch;
        Commit {
            events,
            persist: Some(Persist { label: "smooth scroll touch", reload: true, snapshot, after: AfterSave::Nothing }),
        }
    }

    /// Set the wheel pause that starts a new smooth-scroll gesture.
    pub fn commit_smooth_scroll_pause(&mut self, pause: SmoothScrollPause) -> (r: Commit)
        ensures
            r.events@ == seq![StateEvent::SettingsChanged],
            old(self).config.app_settings.smooth_scroll_pause == pause ==> *final(self) == *old(self) && r.persist is None,
            old(self).config.app_settings.smooth_scroll_pause != pause ==> final(self).edited_settings(
                *old(self),
                AppSettings { smooth_scroll_pause: pause, ..old(self).config.app_settings },
            ) && requests_write(r, *old(self), true, AfterSave::Nothing),
    {
        let events = StateEvents::single(StateEvent::SettingsChanged);
        if self.config.app_settings.smooth_scroll_pause == pause {
            return Commit { events, persist: None };
        }
        let snapshot = self.config.clone_config();
        self.config.app_settings.smooth_scroll_pause = pause;
        Commit {
            events,
            persist: Some(Persist { label: "smooth scroll pause", reload: true, snapshot, after: AfterSave::Nothing }),
        }
    }

    /// Toggle automatic device-asset downloads and persist it. An already-set
    /// value writes nothing and is still reported.
    pub fn commit_auto_download_assets(&mut self, enabled: bool) -> (r: Commit)
        ensures
            r.events@ == seq![StateEvent::SettingsChanged],
            old(self).config.app_settings.auto_download_assets == enabled ==> *final(self) == *old(self) && r.persist is None,
            old(self).config.app_settings.auto_download_assets != enabled ==> final(self).edited_settings(
                *old(self),
                AppSettings { auto_download_assets: enabled, ..old(self).config.app_settings },
            ) && requests_write(r, *old(self), false, AfterSave::Nothing),
    {
        let events = StateEvents::single(StateEvent::SettingsChanged);
        if self.config.app_settings.auto_download_assets == enabled {
            return Commit { events, persist: None };
        }
        let snapshot = self.config.clone_config();
        self.config.app_settings.auto_download_assets = enabled;
        Commit {
            events,
            persist: Some(Persist { label: "auto-download-assets setting", reload: false, snapshot, after: AfterSave::Nothing }),
        }
    }

    /// Persist the preferred device-asset source. An already-set value writes
    /// nothing and is still reported.
    pub fn commit_asset_source(&mut self, source: AssetSourcePreference) -> (r: Commit)
        ensures
            r.events@ == seq![StateEvent::SettingsChanged],
            old(self).config.app_settings.asset_source == source ==> *final(self) == *old(self) && r.persist is None,
            old(self).config.app_settings.asset_source != source ==> final(self).edited_settings(
                *old(self),
                AppSettings { asset_source: source, ..old(self).config.app_settings },
            ) && requests_write(r, *old(self), false, AfterSave::Nothing),
    {
        let events = StateEvents::single(StateEvent::SettingsChanged);
        if self.config.app_settings.asset_source == source {
            return Commit { events, persist: None };
        }
        let snapshot = self.config.clone_config();
        self.config.app_settings.asset_source = source;
        Commit {
            events,
            persist: Some(Persist { label: "asset-source setting", reload: false, snapshot, after: AfterSave::Nothing }),
        }
    }

    /// Persist the chosen theme name for one mode's slot (`None` = the
    /// OpenLogi brand theme). An already-set value writes nothing and is still
    /// reported.
    pub fn commit_theme(&mut self, mode: ThemeMode, name: Option<String>) -> (r: Commit)
        ensures
            r.events@ == seq![StateEvent::SettingsChanged],
            opt_text(theme_slot(old(self).config.app_settings, mode)) == opt_text(name) ==> *final(self) == *old(self) && r.persist is None,
            opt_text(theme_slot(old(self).config.app_settings, mode)) != opt_text(name) ==> final(self).edited_settings(
                *old(self),
                match mode {
                    ThemeMode::Light => AppSettings { theme_light: name, ..old(self).config.app_settings },
                    ThemeMode::Dark => AppSettings { theme_dark: name, ..old(self).config.app_settings },
                },
            ) && requests_write(r, *old(self), false, AfterSave::Nothing),
    {
        let events = StateEvents::single(StateEvent::SettingsChanged);
        let current = match mode {
            ThemeMode::Light => &self.config.app_settings.theme_light,
            ThemeMode::Dark => &self.config.app_settings.theme_dark,
        };
        if same_opt_text(current, &name) {
            return Commit { events, persist: None };
        }
        let snapshot = self.config.clone_config();
        match mode {
            ThemeMode::Light => self.config.app_settings.theme_light = name,
            ThemeMode::Dark => self.config.app_settings.theme_dark = name,
        }
        Commit {
            events,
            persist: Some(Persist { label: "theme setting", reload: false, snapshot, after: AfterSave::Nothing }),
        }
    }

    /// Whether OpenLogi manages `key`.
    pub fn device_enabled(&self, key: &str) -> (r: bool)
        ensures
            r == self.config.device(key@).enabled,
    {
        self.config.device_enabled(key)
    }

    /// Set the user-facing name of one gallery device. Whitespace-only names
    /// clear the alias and restore the hardware model name; other names are
    /// stored trimmed. Once the write succeeded, every record addressed by
    /// `record_key` shows the new name.
    pub fn commit_device_custom_name(&mut self, record_key: &str, custom_name: &str) -> (r: Commit)
        ensures
            r.events@ == seq![StateEvent::InventoryChanged],
            old(self).config.device(record_key@).custom_name == name_from_input(custom_name@)
                ==> *final(self) == *old(self) && r.persist is None,
            old(self).config.device(record_key@).custom_name != name_from_input(custom_name@) ==> {
                &&& final(self).edited_devices(*old(self), old(self).config.devices@.insert(
                    record_key@,
                    DeviceView { custom_name: name_from_input(custom_name@), ..old(self).config.device(record_key@) },
                ))
                &&& r.persist is Some
                &&& r.persist.unwrap().reload == false
                &&& r.persist.unwrap().snapshot.devices@ == old(self).config.devices@
                &&& r.persist.unwrap().snapshot.app_settings == old(self).config.app_settings
                &&& r.persist.unwrap().after matches AfterSave::RenameRecords { record_key: k, custom_name: n }
                    && k@ == record_key@ && opt_text(n) == name_from_input(custom_name@)
            },
    {
        let events = StateEvents::single(StateEvent::InventoryChanged);
        let t = trim(custom_name);
        let name: Option<String> = if t.unicode_len() == 0 {
            None
        } else {
            Some(t.to_owned())
        };
        let same = match (self.config.device_custom_name(record_key), &name) {
            (Some(a), Some(b)) => same_text(a, b.as_str()),
            (None, None) => true,
            _ => false,
        };
        if same {
            return Commit { events, persist: None };
        }
        let snapshot = self.config.clone_config();
        let stored = clone_string_option(&name);
        self.config.set_device_custom_name(record_key, stored);
        Commit {
            events,
            persist: Some(Persist {
                label: "device name",
                reload: false,
                snapshot,
                after: AfterSave::RenameRecords { record_key: record_key.to_owned(), custom_name: name },
            }),
        }
    }

    /// Enable or disable OpenLogi's management of `key` and persist it.
    pub fn commit_device_enabled(&mut self, key: &DeviceKey, enabled: bool) -> (r: Commit)
        ensures
            r.events@ == seq![StateEvent::DeviceConfigChanged(*key)],
            old(self).config.device(key.0@).enabled == enabled ==> *final(self) == *old(self) && r.persist is None,
            old(self).config.device(key.0@).enabled != enabled ==> final(self).edited_devices(
                *old(self),
                old(self).config.devices@.insert(key.0@, DeviceView { enabled, ..old(self).config.device(key.0@) }),
            ) && requests_write(r, *old(self), true, AfterSave::Nothing),
    {
        let events = StateEvents::single(StateEvent::DeviceConfigChanged(key.clone()));
        let k = key.as_str();
        if self.config.device_enabled(k) == enabled {
            return Commit { events, persist: None };
        }
        let snapshot = self.config.clone_config();
        self.config.set_device_enabled(k, enabled);
        Commit {
            events,
            persist: Some(Persist { label: "device enabled", reload: true, snapshot, after: AfterSave::Nothing }),
        }
    }

    /// The effective thumb-wheel sensitivity for `key`.
    pub fn device_thumbwheel_sensitivity(&self, key: &str) -> (r: ThumbwheelSensitivity)
        ensures
            r == match self.config.device(key@).thumbwheel_sensitivity {
                Some(s) => s,
                None => self.config.app_settings.thumbwheel_sensitivity,
            },
    {
        self.config.thumbwheel_sensitivity(key)
    }

    /// Set `key`'s thumb-wheel sensitivity override and persist it.
    /// Committing the app-wide default clears the override, so the device
    /// follows the app-wide setting again. A stored override that would not
    /// change writes nothing and is still reported.
    pub fn commit_device_thumbwheel_sensitivity(&mut self, key: &DeviceKey, sensitivity: ThumbwheelSensitivity) -> (r: Commit)
        ensures
            r.events@ == seq![StateEvent::DeviceConfigChanged(*key)],
            old(self).config.device(key.0@).thumbwheel_sensitivity == sensitivity_override(old(self).config.app_settings, sensitivity)
                ==> *final(self) == *old(self) && r.persist is None,
            old(self).config.device(key.0@).thumbwheel_sensitivity != sensitivity_override(old(self).config.app_settings, sensitivity)
                ==> final(self).edited_devices(
                *old(self),
                old(self).config.devices@.insert(key.0@, DeviceView {
                    thumbwheel_sensitivity: sensitivity_override(old(self).config.app_settings, sensitivity),
                    ..old(self).config.device(key.0@)
                }),
            ) && requests_write(r, *old(self), true, AfterSave::Nothing),
    {
        let events = StateEvents::single(StateEvent::DeviceConfigChanged(key.clone()));
        let k = key.as_str();
        let override_value = if sensitivity != self.config.app_settings.thumbwheel_sensitivity {
            Some(sensitivity)
        } else {
            None
        };
        let stored = match self.config.devices.get(k) {
            Some(d) => d.thumbwheel_sensitivity,
            None => None,
        };
        let same = match (stored, override_value) {
            (Some(a), Some(b)) => a == b,
            (None, None) => true,
            _ => false,
        };
        if same {
            return Commit { events, persist: None };
        }
        let snapshot = self.config.clone_config();
        self.config.set_device_thumbwheel_sensitivity(k, override_value);
        Commit {
            events,
            persist: Some(Persist { label: "device thumbwheel sensitivity", reload: true, snapshot, after: AfterSave::Nothing }),
        }
    }

    /// The effective gesture and long-press thresholds for `key`.
    pub fn device_gesture_tuning(&self, key: &str) -> (r: GestureTuning)
        ensures
            effective_tuning(self.config.device(key@), r),
    {
        self.config.gesture_tuning(key)
    }

    /// Set `key`'s gesture and long-press thresholds and persist them; values
    /// at their defaults are stored as "no override". An unchanged value
    /// writes nothing and is still reported.
    pub fn commit_device_gesture_tuning(&mut self, key: &DeviceKey, tuning: GestureTuning) -> (r: Commit)
        ensures
            r.events@ == seq![StateEvent::DeviceConfigChanged(*key)],
            effective_tuning(old(self).config.device(key.0@), tuning) ==> *final(self) == *old(self) && r.persist is None,
            !effective_tuning(old(self).config.device(key.0@), tuning) ==> {
                &&& final(self).edited_devices(
                    *old(self),
                    old(self).config.devices@.insert(key.0@, with_tuning(old(self).config.device(key.0@), tuning)),
                )
                &&& effective_tuning(final(self).config.device(key.0@), tuning)
                &&& requests_write(r, *old(self), true, AfterSave::Nothing)
            },
    {
        let events = StateEvents::single(StateEvent::DeviceConfigChanged(key.clone()));
        let k = key.as_str();
        let current = self.config.gesture_tuning(k);
        proof {
            SwipeDistance::lemma_value_injective(current.swipe_distance, tuning.swipe_distance);
            SwipeHold::lemma_value_injective(current.swipe_hold, tuning.swipe_hold);
            LongPressDelay::lemma_value_injective(current.long_press, tuning.long_press);
        }
        if current == tuning {
            return Commit { events, persist: None };
        }
        let snapshot = self.config.clone_config();
        self.config.set_device_gesture_tuning(k, tuning);
        Commit {
            events,
            persist: Some(Persist { label: "device gesture tuning", reload: true, snapshot, after: AfterSave::Nothing }),
        }
    }

    /// Record the answer to the first-run update-check prompt: enable (or
    /// leave disabled) the check, and mark the prompt as seen. Persists once.
    pub fn record_update_consent(&mut self, enabled: bool) -> (r: Commit)
        ensures
            r.events@ == seq![StateEvent::SettingsChanged],
            final(self).edited_settings(
                *old(self),
                AppSettings { check_for_updates: enabled, update_prompt_seen: true, ..old(self).config.app_settings },
            ),
            requests_write(r, *old(self), false, AfterSave::Nothing),
    {
        let snapshot = self.config.clone_config();
        self.config.app_settings.check_for_updates = enabled;
        self.config.app_settings.update_prompt_seen = true;
        Commit {
            events: StateEvents::single(StateEvent::SettingsChanged),
            persist: Some(Persist { label: "update-check consent", reload: false, snapshot, after: AfterSave::Nothing }),
        }
    }

    /// The stored UI-language preference: `Some(code)` for an explicit
    /// choice, `None` for "follow system".
    pub fn language(&self) -> (r: Option<&str>)
        ensures
            match r {
                Some(s) => opt_text(self.config.app_settings.language) == Some(s@),
                None => self.config.app_settings.language is None,
            },
    {
        match &self.config.app_settings.language {
            Some(l) => Some(l.as_str()),
            None => None,
        }
    }

    /// Set the UI language (`None` = follow system) and persist it; after the
    /// write the caller switches the process locale to whatever language the
    /// configuration then holds. An already-set value writes nothing and is
    /// still reported.
    pub fn commit_language(&mut self, language: Option<String>) -> (r: Commit)
        ensures
            opt_text(old(self).config.app_settings.language) == opt_text(language) ==> {
                &&& *final(self) == *old(self)
                &&& r.persist is None
                &&& r.events@ == seq![StateEvent::SettingsChanged]
            },
            opt_text(old(self).config.app_settings.language) != opt_text(language) ==> {
                &&& final(self).edited_settings(*old(self), AppSettings { language, ..old(self).config.app_settings })
                &&& requests_write(r, *old(self), true, AfterSave::ActivateLanguage)
                &&& r.events@ == seq![StateEvent::LanguageChanged, StateEvent::SettingsChanged]
            },
    {
        if same_opt_text(&self.config.app_settings.language, &language) {
            return Commit { events: StateEvents::single(StateEvent::SettingsChanged), persist: None };
        }
        let snapshot = self.config.clone_config();
        self.config.app_settings.language = language;
        let events = StateEvents::single(StateEvent::LanguageChanged).and(StateEvent::SettingsChanged);
        Commit {
            events,
            persist: Some(Persist { label: "language setting", reload: true, snapshot, after: AfterSave::ActivateLanguage }),
        }
    }
}

/// Which of the two theme slots a theme name is for.
#[derive(Debug, Clone, Copy, PartialEq, Eq, Structural)]
pub enum ThemeMode {
    Light,
    Dark,
}

/// The theme slot `mode` addresses.
pub open spec fn theme_slot(s: AppSettings, mode: ThemeMode) -> Option<String> {
    match mode {
        ThemeMode::Light => s.theme_light,
        ThemeMode::Dark => s.theme_dark,
    }
}

/// The alias a typed name stands for: `None` when only whitespace was
/// typed, else the trimmed text.
pub open spec fn name_from_input(input: Seq<char>) -> Option<Seq<char>> {
    if trimmed(input).len() == 0 {
        None
    } else {
        Some(trimmed(input))
    }
}

/// The per-device override that committing `s` stores: none when `s` is the
/// app-wide default.
pub open spec fn sensitivity_override(settings: AppSettings, s: ThumbwheelSensitivity) -> Option<ThumbwheelSensitivity> {
    if s == settings.thumbwheel_sensitivity {
        None
    } else {
        Some(s)
    }
}

/// Whether two optional bytes are equal.
fn same_opt_u8(a: Option<u8>, b: Option<u8>) -> (r: bool)
    ensures
        r == (a == b),
{
    match (a, b) {
        (Some(x), Some(y)) => x == y,
        (None, None) => true,
        _ => false,
    }
}

} // verus!
