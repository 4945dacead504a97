//! The settings stored for one device, and the value types they are made of.
use crate::binding::{Action, Binding, BindingMap, ButtonId};
use crate::tuning::{range_check, LongPressDelay, RangeError, SwipeDistance, SwipeHold};
use crate::table::KeyedTable;
use vstd::prelude::*;

verus! {

/// A sensor resolution, in dots per inch.
#[derive(Debug, Clone, Copy, PartialEq, Eq, Structural, PartialOrd, Ord, Hash)]
pub struct Dpi(pub u16);

impl Dpi {
    /// The resolution `value`.
    pub fn new(value: u16) -> (r: Self)
        ensures
            r.0 == value,
    {
        Dpi(value)
    }
}

/// The wheel resolution OpenLogi restores on a device.
#[derive(Debug, Clone, Copy, PartialEq, Eq, Structural)]
pub enum ScrollResolution {
    Low,
    High,
}

/// How the main wheel turns.
#[derive(Debug, Clone, Copy, PartialEq, Eq, Structural)]
pub enum WheelMode {
    Freespin,
    Ratchet,
}

pub const SMARTSHIFT_THRESHOLD_MIN: u8 = 1;
pub const SMARTSHIFT_THRESHOLD_MAX: u8 = 254;
pub const TUNABLE_TORQUE_MIN: u8 = 1;
pub const TUNABLE_TORQUE_MAX: u8 = 100;

/// The wheel speed at which SmartShift drops the ratchet.
#[derive(Debug, Clone, Copy, PartialEq, Eq, Structural)]
pub struct SmartShiftThreshold(u8);

impl SmartShiftThreshold {
    #[verifier::type_invariant]
    spec fn in_range(self) -> bool {
        SMARTSHIFT_THRESHOLD_MIN <= self.0 <= SMARTSHIFT_THRESHOLD_MAX
    }

    /// The threshold as a plain number.
    pub closed spec fn value(self) -> u8 {
        self.0
    }

    /// Accept `value` when it lies in `1..=254`.
    pub fn try_new(value: u8) -> (r: Result<Self, RangeError>)
        ensures
            r is Ok <==> range_check(value as int, SMARTSHIFT_THRESHOLD_MIN as int, SMARTSHIFT_THRESHOLD_MAX as int) is Ok,
            r matches Ok(d) ==> d.value() == value,
            r matches Err(e) ==> range_check(value as int, SMARTSHIFT_THRESHOLD_MIN as int, SMARTSHIFT_THRESHOLD_MAX as int) == Err::<(), RangeError>(e),
    {
        if value < SMARTSHIFT_THRESHOLD_MIN {
            Err(RangeError::GreaterOrEqualViolated)
        } else if value > SMARTSHIFT_THRESHOLD_MAX {
            Err(RangeError::LessOrEqualViolated)
        } else {
            Ok(SmartShiftThreshold(value))
        }
    }

    /// The stored threshold.
    pub fn into_inner(self) -> (r: u8)
        ensures
            r == self.value(),
    {
        self.0
    }
}

/// The ratchet force of a wheel with tunable torque, in percent.
#[derive(Debug, Clone, Copy, PartialEq, Eq, Structural)]
pub struct TunableTorque(u8);

impl TunableTorque {
    #[verifier::type_invariant]
    spec fn in_range(self) -> bool {
        TUNABLE_TORQUE_MIN <= self.0 <= TUNABLE_TORQUE_MAX
    }

    /// The torque as a plain number.
    pub closed spec fn value(self) -> u8 {
        self.0
    }

    /// Accept `value` when it lies in `1..=100`.
    pub fn try_new(value: u8) -> (r: Result<Self, RangeError>)
        ensures
            r is Ok <==> range_check(value as int, TUNABLE_TORQUE_MIN as int, TUNABLE_TORQUE_MAX as int) is Ok,
            r matches Ok(d) ==> d.value() == value,
            r matches Err(e) ==> range_check(value as int, TUNABLE_TORQUE_MIN as int, TUNABLE_TORQUE_MAX as int) == Err::<(), RangeError>(e),
    {
        if value < TUNABLE_TORQUE_MIN {
            Err(RangeError::GreaterOrEqualViolated)
        } else if value > TUNABLE_TORQUE_MAX {
            Err(RangeError::LessOrEqualViolated)
        } else {
            Ok(TunableTorque(value))
        }
    }

    /// The stored torque.
    pub fn into_inner(self) -> (r: u8)
        ensures
            r == self.value(),
    {
        self.0
    }
}

/// When SmartShift leaves the ratchet.
#[derive(Debug, Clone, Copy, PartialEq, Eq, Structural)]
pub enum SmartShiftAutoDisengage {
    /// Never: the wheel stays in the chosen mode.
    Never,
    /// Above this wheel speed.
    Threshold(SmartShiftThreshold),
}

/// The SmartShift wheel configuration.
#[derive(Debug, Clone, Copy, PartialEq, Eq, Structural)]
pub struct SmartShift {
    pub mode: WheelMode,
    pub auto_disengage: SmartShiftAutoDisengage,
    pub tunable_torque: Option<TunableTorque>,
}

/// An RGB lighting configuration.
#[derive(Debug, Clone, Copy, PartialEq, Eq, Structural)]
pub struct Lighting {
    pub enabled: bool,
    pub color: u32,
    pub brightness: u8,
}

/// Saved UVC image controls of a camera.
#[derive(Debug, Clone, Copy, PartialEq, Eq, Structural)]
pub struct CameraControls {
    pub brightness: i32,
    pub contrast: i32,
    pub saturation: i32,
    pub sharpness: i32,
    pub zoom: i32,
    pub auto_exposure: bool,
    pub exposure: i32,
}

impl View for CameraControls {
    type V = CameraControls;

    open spec fn view(&self) -> CameraControls {
        *self
    }
}

/// A standalone light's state.
#[derive(Debug, Clone, Copy, PartialEq, Eq, Structural)]
pub struct LightSettings {
    pub on: bool,
    pub brightness: u8,
    pub temperature: u16,
}

/// How far one thumb-wheel detent scrolls.
#[derive(Debug, Clone, Copy, PartialEq, Eq, Structural)]
pub struct ThumbwheelSensitivity(pub u8);

/// What identifies a device model, and (while online) one unit of it.
#[derive(Debug, PartialEq, Eq)]
pub struct DeviceIdentity {
    /// The marketing name the device reports.
    pub name: String,
    /// The HID++ model identifier.
    pub model_id: u32,
    /// The unit's serial number, when it reports one.
    pub serial: Option<String>,
    /// The unit identifier, when it reports one.
    pub unit_id: Option<u32>,
}

/// A [`DeviceIdentity`] as plain values.
pub struct IdentityView {
    pub name: Seq<char>,
    pub model_id: u32,
    pub serial: Option<Seq<char>>,
    pub unit_id: Option<u32>,
}

/// The view of an optional string.
pub open spec fn opt_text(s: Option<String>) -> Option<Seq<char>> {
    match s {
        Some(t) => Some(t@),
        None => None,
    }
}

/// A copy of an optional string.
pub fn clone_opt_text(s: &Option<String>) -> (r: Option<String>)
    ensures
        opt_text(r) == opt_text(*s),
{
    match s {
        Some(t) => Some(t.clone()),
        None => None,
    }
}

impl DeviceIdentity {
    /// The identity as plain values.
    pub open spec fn view(self) -> IdentityView {
        IdentityView {
            name: self.name@,
            model_id: self.model_id,
            serial: opt_text(self.serial),
            unit_id: self.unit_id,
        }
    }

    /// The identity of the model alone: what is stored, so one config entry
    /// does not carry a unit's serial or unit id.
    pub fn without_unit_identifiers(self) -> (r: Self)
        ensures
            r@ == (IdentityView { serial: None, unit_id: None, ..self@ }),
    {
        DeviceIdentity { name: self.name, model_id: self.model_id, serial: None, unit_id: None }
    }

    /// A copy with the same values.
    pub fn clone_identity(&self) -> (r: Self)
        ensures
            r@ == self@,
    {
        DeviceIdentity {
            name: self.name.clone(),
            model_id: self.model_id,
            serial: clone_opt_text(&self.serial),
            unit_id: self.unit_id,
        }
    }
}

/// Number of slots in an Actions Ring.
pub const RING_SLOTS: usize = 8;

/// One slot position of the Actions Ring, clockwise from the top.
#[derive(Debug, Clone, Copy, PartialEq, Eq, Structural)]
pub enum ActionRingSlot {
    North,
    NorthEast,
    East,
    SouthEast,
    South,
    SouthWest,
    West,
    NorthWest,
}

/// The index of each slot in the ring layout.
pub open spec fn slot_index(slot: ActionRingSlot) -> int {
    match slot {
        ActionRingSlot::North => 0,
        ActionRingSlot::NorthEast => 1,
        ActionRingSlot::East => 2,
        ActionRingSlot::SouthEast => 3,
        ActionRingSlot::South => 4,
        ActionRingSlot::SouthWest => 5,
        ActionRingSlot::West => 6,
        ActionRingSlot::NorthWest => 7,
    }
}

impl ActionRingSlot {
    /// The slot's index in the layout.
    pub fn index(self) -> (r: usize)
        ensures
            r == slot_index(self),
            r < RING_SLOTS,
    {
        match self {
            ActionRingSlot::North => 0,
            ActionRingSlot::NorthEast => 1,
            ActionRingSlot::East => 2,
            ActionRingSlot::SouthEast => 3,
            ActionRingSlot::South => 4,
            ActionRingSlot::SouthWest => 5,
            ActionRingSlot::West => 6,
            ActionRingSlot::NorthWest => 7,
        }
    }
}

/// The glyph shown on a ring slot in place of the one its action implies.
#[derive(Debug, Clone, Copy, PartialEq, Eq, Structural)]
pub enum ActionRingIcon {
    Star,
    Heart,
    Bolt,
    Camera,
    Music,
    Window,
    Folder,
    Globe,
}

/// What one ring slot holds.
#[derive(Debug, PartialEq, Eq)]
pub struct RingSlotConfig {
    pub action: Option<Action>,
    pub icon: Option<ActionRingIcon>,
}

/// A copy of an optional action.
pub fn clone_opt_action(a: &Option<Action>) -> (r: Option<Action>)
    ensures
        r == *a,
{
    match a {
        Some(x) => Some(x.clone()),
        None => None,
    }
}

/// An empty slot.
fn empty_slot() -> (r: RingSlotConfig)
    ensures
        r == (RingSlotConfig { action: None, icon: None }),
{
    RingSlotConfig { action: None, icon: None }
}

/// A copy of one slot.
fn clone_slot(s: &RingSlotConfig) -> (r: RingSlotConfig)
    ensures
        r == *s,
{
    RingSlotConfig { action: clone_opt_action(&s.action), icon: s.icon }
}

/// The eight slots of one ring layout.
#[derive(Debug, PartialEq, Eq)]
pub struct RingLayout {
    slots: [RingSlotConfig; RING_SLOTS],
}

impl RingLayout {
    /// The slots, in index order.
    pub closed spec fn view(self) -> Seq<RingSlotConfig> {
        self.slots@
    }

    /// A layout whose slots are all empty.
    pub fn empty() -> (r: Self)
        ensures
            r@ == Seq::new(RING_SLOTS as nat, |i: int| RingSlotConfig { action: None, icon: None }),
    {
        let r = RingLayout {
            slots: [
                empty_slot(),
                empty_slot(),
                empty_slot(),
                empty_slot(),
                empty_slot(),
                empty_slot(),
                empty_slot(),
                empty_slot(),
            ],
        };
        assert(r@ =~= Seq::new(RING_SLOTS as nat, |i: int| RingSlotConfig { action: None, icon: None }));
        r
    }

    /// What `slot` holds.
    pub fn slot(&self, slot: ActionRingSlot) -> (r: &RingSlotConfig)
        ensures
            *r == self@[slot_index(slot)],
    {
        &self.slots[slot.index()]
    }

    /// Replace or clear the action of `slot`.
    pub fn set_action(&mut self, slot: ActionRingSlot, action: Option<Action>)
        ensures
            final(self)@ == old(self)@.update(
                slot_index(slot),
                RingSlotConfig { action, icon: old(self)@[slot_index(slot)].icon },
            ),
    {
        let i = slot.index();
        let icon = self.slots[i].icon;
        self.slots[i] = RingSlotConfig { action, icon };
        assert(self@ =~= old(self)@.update(
            slot_index(slot),
            RingSlotConfig { action, icon: old(self)@[slot_index(slot)].icon },
        ));
    }

    /// Set, or with `None` restore, the icon of `slot`.
    pub fn set_icon(&mut self, slot: ActionRingSlot, icon: Option<ActionRingIcon>)
        ensures
            final(self)@ == old(self)@.update(
                slot_index(slot),
                RingSlotConfig { action: old(self)@[slot_index(slot)].action, icon },
            ),
    {
        let i = slot.index();
        let action = clone_opt_action(&self.slots[i].action);
        self.slots[i] = RingSlotConfig { action, icon };
        assert(self@ =~= old(self)@.update(
            slot_index(slot),
            RingSlotConfig { action: old(self)@[slot_index(slot)].action, icon },
        ));
    }

    /// A copy with the same slots.
    pub fn clone_layout(&self) -> (r: Self)
        ensures
            r@ == self@,
    {
        let r = RingLayout {
            slots: [
                clone_slot(&self.slots[0]),
                clone_slot(&self.slots[1]),
                clone_slot(&self.slots[2]),
                clone_slot(&self.slots[3]),
                clone_slot(&self.slots[4]),
                clone_slot(&self.slots[5]),
                clone_slot(&self.slots[6]),
                clone_slot(&self.slots[7]),
            ],
        };
        assert(r@ =~= self@);
        r
    }
}

/// One device's Actions Ring settings.
#[derive(Debug, PartialEq, Eq)]
pub struct ActionRingConfig {
    pub enabled: bool,
    pub haptics: bool,
    pub default: RingLayout,
}

/// An [`ActionRingConfig`] as plain values.
pub struct RingView {
    pub enabled: bool,
    pub haptics: bool,
    pub default: Seq<RingSlotConfig>,
}

/// The ring settings of a device that has none saved.
pub open spec fn fresh_ring() -> RingView {
    RingView {
        enabled: false,
        haptics: true,
        default: Seq::new(RING_SLOTS as nat, |i: int| RingSlotConfig { action: None, icon: None }),
    }
}

impl ActionRingConfig {
    /// The ring settings as plain values.
    pub open spec fn view(self) -> RingView {
        RingView { enabled: self.enabled, haptics: self.haptics, default: self.default@ }
    }

    /// A copy with the same settings.
    pub fn clone_ring(&self) -> (r: Self)
        ensures
            r@ == self@,
    {
        ActionRingConfig {
            enabled: self.enabled,
            haptics: self.haptics,
            default: self.default.clone_layout(),
        }
    }
}

impl Default for ActionRingConfig {
    fn default() -> (r: Self)
        ensures
            r@ == fresh_ring(),
    {
        ActionRingConfig { enabled: false, haptics: true, default: RingLayout::empty() }
    }
}

/// Everything OpenLogi stores for one device.
#[derive(Debug, PartialEq, Eq)]
pub struct DeviceConfig {
    pub bindings: BindingMap,
    pub action_ring: ActionRingConfig,
    pub dpi_presets: Vec<Dpi>,
    pub identity: Option<DeviceIdentity>,
    pub custom_name: Option<String>,
    pub lighting: Option<Lighting>,
    pub camera_controls: Option<CameraControls>,
    /// Saved camera profiles by name.
    pub camera_profiles: KeyedTable<CameraControls>,
    pub camera_profile: Option<String>,
    pub light: Option<LightSettings>,
    pub dpi: Option<Dpi>,
    pub smartshift: Option<SmartShift>,
    pub fn_lock: Option<bool>,
    pub invert_scroll: bool,
    pub scroll_resolution: Option<ScrollResolution>,
    pub enabled: bool,
    pub thumbwheel_sensitivity: Option<ThumbwheelSensitivity>,
    pub gesture_swipe_distance: Option<SwipeDistance>,
    pub gesture_swipe_hold_ms: Option<SwipeHold>,
    pub long_press_ms: Option<LongPressDelay>,
}

/// The optional identity as plain values.
pub open spec fn opt_identity(i: Option<DeviceIdentity>) -> Option<IdentityView> {
    match i {
        Some(d) => Some(d@),
        None => None,
    }
}

/// A device's settings as plain values.
pub struct DeviceView {
    pub bindings: Map<ButtonId, Binding>,
    pub action_ring: RingView,
    pub dpi_presets: Seq<Dpi>,
    pub identity: Option<IdentityView>,
    pub custom_name: Option<Seq<char>>,
    pub lighting: Option<Lighting>,
    pub camera_controls: Option<CameraControls>,
    pub camera_profiles: Map<Seq<char>, CameraControls>,
    pub camera_profile: Option<Seq<char>>,
    pub light: Option<LightSettings>,
    pub dpi: Option<Dpi>,
    pub smartshift: Option<SmartShift>,
    pub fn_lock: Option<bool>,
    pub invert_scroll: bool,
    pub scroll_resolution: Option<ScrollResolution>,
    pub enabled: bool,
    pub thumbwheel_sensitivity: Option<ThumbwheelSensitivity>,
    pub gesture_swipe_distance: Option<SwipeDistance>,
    pub gesture_swipe_hold_ms: Option<SwipeHold>,
    pub long_press_ms: Option<LongPressDelay>,
}

/// What a device that has never been configured answers.
pub open spec fn fresh_device() -> DeviceView {
    DeviceView {
        bindings: Map::empty(),
        action_ring: fresh_ring(),
        dpi_presets: Seq::empty(),
        identity: None,
        custom_name: None,
        lighting: None,
        camera_controls: None,
        camera_profiles: Map::empty(),
        camera_profile: None,
        light: None,
        dpi: None,
        smartshift: None,
        fn_lock: None,
        invert_scroll: false,
        scroll_resolution: None,
        enabled: true,
        thumbwheel_sensitivity: None,
        gesture_swipe_distance: None,
        gesture_swipe_hold_ms: None,
        long_press_ms: None,
    }
}

impl View for DeviceConfig {
    type V = DeviceView;

    /// The settings as plain values.
    open spec fn view(&self) -> DeviceView {
        DeviceView {
            bindings: self.bindings.view(),
            action_ring: self.action_ring@,
            dpi_presets: self.dpi_presets@,
            identity: opt_identity(self.identity),
            custom_name: opt_text(self.custom_name),
            lighting: self.lighting,
            camera_controls: self.camera_controls,
            camera_profiles: self.camera_profiles@,
            camera_profile: opt_text(self.camera_profile),
            light: self.light,
            dpi: self.dpi,
            smartshift: self.smartshift,
            fn_lock: self.fn_lock,
            invert_scroll: self.invert_scroll,
            scroll_resolution: self.scroll_resolution,
            enabled: self.enabled,
            thumbwheel_sensitivity: self.thumbwheel_sensitivity,
            gesture_swipe_distance: self.gesture_swipe_distance,
            gesture_swipe_hold_ms: self.gesture_swipe_hold_ms,
            long_press_ms: self.long_press_ms,
        }
    }
}

impl DeviceConfig {
    /// A copy with the same settings.
    pub fn clone_config(&self) -> (r: Self)
        ensures
            r@ == self@,
    {
        let mut presets: Vec<Dpi> = Vec::new();
        let mut i: usize = 0;
        while i < self.dpi_presets.len()
            invariant
                i <= self.dpi_presets@.len(),
                presets@ == self.dpi_presets@.subrange(0, i as int),
            decreases self.dpi_presets.len() - i,
        {
            presets.push(self.dpi_presets[i]);
            assert(presets@ =~= self.dpi_presets@.subrange(0, i + 1));
            i += 1;
        }
        assert(presets@ =~= self.dpi_presets@);
        DeviceConfig {
            bindings: self.bindings.clone_map(),
            action_ring: self.action_ring.clone_ring(),
            dpi_presets: presets,
            identity: match &self.identity {
                Some(id) => Some(id.clone_identity()),
                None => None,
            },
            custom_name: clone_opt_text(&self.custom_name),
            lighting: self.lighting,
            camera_controls: self.camera_controls,
            camera_profiles: self.camera_profiles.clone_table(),
            camera_profile: clone_opt_text(&self.camera_profile),
            light: self.light,
            dpi: self.dpi,
            smartshift: self.smartshift,
            fn_lock: self.fn_lock,
            invert_scroll: self.invert_scroll,
            scroll_resolution: self.scroll_resolution,
            enabled: self.enabled,
            thumbwheel_sensitivity: self.thumbwheel_sensitivity,
            gesture_swipe_distance: self.gesture_swipe_distance,
            gesture_swipe_hold_ms: self.gesture_swipe_hold_ms,
            long_press_ms: self.long_press_ms,
        }
    }
}

impl Default for DeviceConfig {
    fn default() -> (r: Self)
        ensures
            r@ == fresh_device(),
    {
        let r = DeviceConfig {
            bindings: BindingMap::new(),
            action_ring: ActionRingConfig::default(),
            dpi_presets: Vec::new(),
            identity: None,
            custom_name: None,
            lighting: None,
            camera_controls: None,
            camera_profiles: KeyedTable::new(),
            camera_profile: None,
            light: None,
            dpi: None,
            smartshift: None,
            fn_lock: None,
            invert_scroll: false,
            scroll_resolution: None,
            enabled: true,
            thumbwheel_sensitivity: None,
            gesture_swipe_distance: None,
            gesture_swipe_hold_ms: None,
            long_press_ms: None,
        };
        proof {
            assert(r.dpi_presets@ =~= Seq::<Dpi>::empty());
        }
        r
    }
}

} // verus!
