//! Buttons, actions and the bindings that join them.
use vstd::prelude::*;

verus! {

/// One physical control a binding can be attached to.
#[derive(Debug, Clone, Copy, PartialEq, Eq, Structural, PartialOrd, Ord, Hash)]
pub enum ButtonId {
    LeftClick,
    RightClick,
    MiddleClick,
    Back,
    Forward,
    DpiToggle,
    GestureButton,
    HapticPanel,
    WheelTiltLeft,
    WheelTiltRight,
    Thumbwheel,
    ThumbwheelScrollUp,
    ThumbwheelScrollDown,
}

/// The direction a completed gesture resolved to; `Click` is a hold that
/// never travelled far enough.
#[derive(Debug, Clone, Copy, PartialEq, Eq, Structural, PartialOrd, Ord, Hash)]
pub enum GestureDirection {
    Click,
    Up,
    Down,
    Left,
    Right,
}

/// Operating-system features an action can drive directly.
#[derive(Debug, Clone, Copy, PartialEq, Eq, Structural)]
pub enum NativeAction {
    AppExpose,
    MissionControl,
    NextDesktop,
    PreviousDesktop,
    ShowDesktop,
    Launchpad,
}

/// What an action does, once resolved: the kind of output it produces.
#[derive(Debug, Clone, Copy, PartialEq, Eq, Structural)]
pub enum Effect {
    Nothing,
    Click,
    Scroll,
    Media,
    Native(NativeAction),
    AgentSide,
    Shortcut,
    Key,
    HeldKey,
    Text,
    Script,
}

/// A user-selectable action.
#[derive(Debug, PartialEq, Eq)]
pub enum Action {
    Nothing,
    LeftClick,
    RightClick,
    MiddleClick,
    ScrollUp,
    ScrollDown,
    Copy,
    Paste,
    Undo,
    BrowserBack,
    BrowserForward,
    NextDesktop,
    PreviousDesktop,
    MissionControl,
    AppExpose,
    ShowDesktop,
    Launchpad,
    VolumeUp,
    VolumeDown,
    Mute,
    PlayPause,
    CycleDpi,
    /// A key chord, in the `Cmd+Shift+P` notation.
    CustomShortcut(String),
    /// Literal text to type.
    TypeText(String),
    /// A script to run.
    RunScript(String),
}

/// The effect each action resolves to.
pub open spec fn action_effect(action: Action) -> Effect {
    match action {
        Action::Nothing => Effect::Nothing,
        Action::LeftClick | Action::RightClick | Action::MiddleClick => Effect::Click,
        Action::ScrollUp | Action::ScrollDown => Effect::Scroll,
        Action::Copy | Action::Paste | Action::Undo | Action::BrowserBack
        | Action::BrowserForward | Action::CustomShortcut(_) => Effect::Shortcut,
        Action::NextDesktop => Effect::Native(NativeAction::NextDesktop),
        Action::PreviousDesktop => Effect::Native(NativeAction::PreviousDesktop),
        Action::MissionControl => Effect::Native(NativeAction::MissionControl),
        Action::AppExpose => Effect::Native(NativeAction::AppExpose),
        Action::ShowDesktop => Effect::Native(NativeAction::ShowDesktop),
        Action::Launchpad => Effect::Native(NativeAction::Launchpad),
        Action::VolumeUp | Action::VolumeDown | Action::Mute | Action::PlayPause => Effect::Media,
        Action::CycleDpi => Effect::AgentSide,
        Action::TypeText(_) => Effect::Text,
        Action::RunScript(_) => Effect::Script,
    }
}

impl Action {
    /// The kind of output this action produces.
    pub fn effect(&self) -> (e: Effect)
        ensures
            e == action_effect(*self),
    {
        match self {
            Action::Nothing => Effect::Nothing,
            Action::LeftClick | Action::RightClick | Action::MiddleClick => Effect::Click,
            Action::ScrollUp | Action::ScrollDown => Effect::Scroll,
            Action::Copy | Action::Paste | Action::Undo | Action::BrowserBack
            | Action::BrowserForward | Action::CustomShortcut(_) => Effect::Shortcut,
            Action::NextDesktop => Effect::Native(NativeAction::NextDesktop),
            Action::PreviousDesktop => Effect::Native(NativeAction::PreviousDesktop),
            Action::MissionControl => Effect::Native(NativeAction::MissionControl),
            Action::AppExpose => Effect::Native(NativeAction::AppExpose),
            Action::ShowDesktop => Effect::Native(NativeAction::ShowDesktop),
            Action::Launchpad => Effect::Native(NativeAction::Launchpad),
            Action::VolumeUp | Action::VolumeDown | Action::Mute | Action::PlayPause => Effect::Media,
            Action::CycleDpi => Effect::AgentSide,
            Action::TypeText(_) => Effect::Text,
            Action::RunScript(_) => Effect::Script,
        }
    }
}

impl Clone for Action {
    fn clone(&self) -> (r: Self)
        ensures
            r == *self,
    {
        match self {
            Action::Nothing => Action::Nothing,
            Action::LeftClick => Action::LeftClick,
            Action::RightClick => Action::RightClick,
            Action::MiddleClick => Action::MiddleClick,
            Action::ScrollUp => Action::ScrollUp,
            Action::ScrollDown => Action::ScrollDown,
            Action::Copy => Action::Copy,
            Action::Paste => Action::Paste,
            Action::Undo => Action::Undo,
            Action::BrowserBack => Action::BrowserBack,
            Action::BrowserForward => Action::BrowserForward,
            Action::NextDesktop => Action::NextDesktop,
            Action::PreviousDesktop => Action::PreviousDesktop,
            Action::MissionControl => Action::MissionControl,
            Action::AppExpose => Action::AppExpose,
            Action::ShowDesktop => Action::ShowDesktop,
            Action::Launchpad => Action::Launchpad,
            Action::VolumeUp => Action::VolumeUp,
            Action::VolumeDown => Action::VolumeDown,
            Action::Mute => Action::Mute,
            Action::PlayPause => Action::PlayPause,
            Action::CycleDpi => Action::CycleDpi,
            Action::CustomShortcut(s) => Action::CustomShortcut(s.clone()),
            Action::TypeText(s) => Action::TypeText(s.clone()),
            Action::RunScript(s) => Action::RunScript(s.clone()),
        }
    }
}

/// What a control does when pressed.
#[derive(Debug, PartialEq, Eq)]
pub enum Binding {
    /// One action, fired on press.
    Single(Action),
}

impl Clone for Binding {
    fn clone(&self) -> (r: Self)
        ensures
            r == *self,
    {
        match self {
            Binding::Single(a) => Binding::Single(a.clone()),
        }
    }
}

/// One control's stored binding.
#[derive(Debug, PartialEq, Eq)]
pub struct BindingEntry {
    pub button: ButtonId,
    pub binding: Binding,
}

/// The bindings committed for one device, at most one per control, kept in
/// control order.
#[derive(Debug, PartialEq, Eq)]
pub struct BindingMap {
    entries: Vec<BindingEntry>,
}

/// Strict order on controls, by declaration order.
pub open spec fn button_rank(b: ButtonId) -> int {
    match b {
        ButtonId::LeftClick => 0,
        ButtonId::RightClick => 1,
        ButtonId::MiddleClick => 2,
        ButtonId::Back => 3,
        ButtonId::Forward => 4,
        ButtonId::DpiToggle => 5,
        ButtonId::GestureButton => 6,
        ButtonId::HapticPanel => 7,
        ButtonId::WheelTiltLeft => 8,
        ButtonId::WheelTiltRight => 9,
        ButtonId::Thumbwheel => 10,
        ButtonId::ThumbwheelScrollUp => 11,
        ButtonId::ThumbwheelScrollDown => 12,
    }
}

/// The rank of `b` in control order.
pub fn button_rank_of(b: ButtonId) -> (r: u8)
    ensures
        r == button_rank(b),
{
    match b {
        ButtonId::LeftClick => 0,
        ButtonId::RightClick => 1,
        ButtonId::MiddleClick => 2,
        ButtonId::Back => 3,
        ButtonId::Forward => 4,
        ButtonId::DpiToggle => 5,
        ButtonId::GestureButton => 6,
        ButtonId::HapticPanel => 7,
        ButtonId::WheelTiltLeft => 8,
        ButtonId::WheelTiltRight => 9,
        ButtonId::Thumbwheel => 10,
        ButtonId::ThumbwheelScrollUp => 11,
        ButtonId::ThumbwheelScrollDown => 12,
    }
}

/// Ranks identify controls.
pub proof fn lemma_button_rank_injective(a: ButtonId, b: ButtonId)
    ensures
        button_rank(a) == button_rank(b) <==> a == b,
{
}

/// Whether some entry of `s` belongs to `b`.
pub open spec fn entries_have(s: Seq<BindingEntry>, b: ButtonId) -> bool {
    exists|i: int| 0 <= i < s.len() && s[i].button == b
}

/// The map a sequence of entries stands for.
pub open spec fn entries_map(s: Seq<BindingEntry>) -> Map<ButtonId, Binding> {
    Map::new(
        |b: ButtonId| entries_have(s, b),
        |b: ButtonId| s[choose|i: int| 0 <= i < s.len() && s[i].button == b].binding,
    )
}

/// Entries strictly ascending by control rank.
pub open spec fn entries_sorted(s: Seq<BindingEntry>) -> bool {
    forall|i: int, j: int|
        0 <= i < j < s.len() ==> button_rank(#[trigger] s[i].button) < button_rank(
            #[trigger] s[j].button,
        )
}

proof fn lemma_entries_map_at(s: Seq<BindingEntry>, i: int)
    requires
        entries_sorted(s),
        0 <= i < s.len(),
    ensures
        entries_map(s).contains_key(s[i].button),
        entries_map(s)[s[i].button] == s[i].binding,
{
    let b = s[i].button;
    assert(entries_have(s, b));
    let j = choose|j: int| 0 <= j < s.len() && s[j].button == b;
    if j < i {
        assert(button_rank(s[j].button) < button_rank(s[i].button));
    }
    if i < j {
        assert(button_rank(s[i].button) < button_rank(s[j].button));
    }
}

proof fn lemma_entries_len(s: Seq<BindingEntry>)
    requires
        entries_sorted(s),
    ensures
        entries_map(s).dom().finite(),
        entries_map(s).dom().len() == s.len(),
{
    let keys = s.map_values(|e: BindingEntry| e.button);
    assert forall|i: int, j: int|
        0 <= i < keys.len() && 0 <= j < keys.len() && i != j implies keys[i] != keys[j] by {
        if i < j {
            assert(button_rank(s[i].button) < button_rank(s[j].button));
        } else {
            assert(button_rank(s[j].button) < button_rank(s[i].button));
        }
    }
    keys.unique_seq_to_set();
    assert forall|b: ButtonId| entries_map(s).dom().contains(b) <==> keys.to_set().contains(b) by {
        if entries_have(s, b) {
            let i = choose|i: int| 0 <= i < s.len() && s[i].button == b;
            assert(keys[i] == b);
        }
        if keys.contains(b) {
            let i = choose|i: int| 0 <= i < keys.len() && keys[i] == b;
            assert(s[i].button == b);
        }
    }
    assert(entries_map(s).dom() =~= keys.to_set());
}

impl BindingMap {
    #[verifier::type_invariant]
    spec fn sorted(self) -> bool {
        entries_sorted(self.entries@)
    }

    /// The control -> binding map.
    pub closed spec fn view(self) -> Map<ButtonId, Binding> {
        entries_map(self.entries@)
    }

    /// No bindings at all.
    pub fn new() -> (r: Self)
        ensures
            r.view() == Map::<ButtonId, Binding>::empty(),
    {
        let r = BindingMap { entries: Vec::new() };
        assert(r.view() =~= Map::<ButtonId, Binding>::empty());
        r
    }

    /// How many controls carry a binding.
    pub fn len(&self) -> (r: usize)
        ensures
            r == self.view().dom().len(),
    {
        proof {
            use_type_invariant(self);
            lemma_entries_len(self.entries@);
        }
        self.entries.len()
    }

    /// Whether no control carries a binding.
    pub fn is_empty(&self) -> (r: bool)
        ensures
            r == (self.view().dom().len() == 0),
    {
        self.len() == 0
    }

    /// The binding of `button`, if any.
    pub fn get(&self, button: &ButtonId) -> (r: Option<&Binding>)
        ensures
            r matches Some(b) ==> self.view().contains_key(*button) && *b == self.view()[*button],
            r is None ==> !self.view().contains_key(*button),
    {
        proof {
            use_type_invariant(self);
        }
        let mut i: usize = 0;
        while i < self.entries.len()
            invariant
                i <= self.entries.len(),
                entries_sorted(self.entries@),
                forall|j: int| 0 <= j < i ==> self.entries@[j].button != *button,
            decreases self.entries.len() - i,
        {
            if self.entries[i].button == *button {
                proof {
                    lemma_entries_map_at(self.entries@, i as int);
                }
                return Some(&self.entries[i].binding);
            }
            i += 1;
        }
        None
    }

    /// Record `binding` for `button`, replacing any earlier one.
    pub fn insert(&mut self, button: ButtonId, binding: Binding)
        ensures
            final(self).view() == old(self).view().insert(button, binding),
    {
        proof {
            use_type_invariant(&*self);
        }
        let mut entries: Vec<BindingEntry> = Vec::new();
        std::mem::swap(&mut entries, &mut self.entries);
        let ghost old_entries = entries@;
        let rank = button_rank_of(button);
        let mut i: usize = 0;
        while i < entries.len() && button_rank_of(entries[i].button) < rank
            invariant
                entries@ == old_entries,
                entries_sorted(old_entries),
                i <= entries.len(),
                forall|j: int| 0 <= j < i ==> button_rank(#[trigger] entries@[j].button) < rank,
            decreases entries.len() - i,
        {
            i += 1;
        }
        let ghost at = i as int;
        let replace = i < entries.len() && button_rank_of(entries[i].button) == rank;
        if replace {
            entries.remove(i);
        }
        let ghost mid = entries@;
        entries.insert(i, BindingEntry { button, binding });
        proof {
            lemma_insert_sorted(old_entries, mid, entries@, at, replace, button, binding);
        }
        self.entries = entries;
    }

    /// A copy with the same bindings.
    pub fn clone_map(&self) -> (r: Self)
        ensures
            r.view() == self.view(),
    {
        proof {
            use_type_invariant(self);
        }
        let mut entries: Vec<BindingEntry> = Vec::new();
        let mut i: usize = 0;
        while i < self.entries.len()
            invariant
                i <= self.entries.len(),
                entries@ == self.entries@.subrange(0, i as int),
                entries_sorted(self.entries@),
            decreases self.entries.len() - i,
        {
            let e = &self.entries[i];
            entries.push(BindingEntry { button: e.button, binding: e.binding.clone() });
            proof {
                assert(entries@ =~= self.entries@.subrange(0, i + 1));
            }
            i += 1;
        }
        proof {
            assert(entries@ =~= self.entries@);
        }
        BindingMap { entries }
    }
}

proof fn lemma_insert_order(
    old_entries: Seq<BindingEntry>,
    mid: Seq<BindingEntry>,
    new_entries: Seq<BindingEntry>,
    at: int,
    replace: bool,
    button: ButtonId,
    binding: Binding,
)
    requires
        entries_sorted(old_entries),
        0 <= at <= old_entries.len(),
        forall|j: int| 0 <= j < at ==> button_rank(#[trigger] old_entries[j].button) < button_rank(button),
        at < old_entries.len() ==> button_rank(old_entries[at].button) >= button_rank(button),
        replace == (at < old_entries.len() && button_rank(old_entries[at].button) == button_rank(button)),
        replace ==> mid == old_entries.remove(at),
        !replace ==> mid == old_entries,
        new_entries == mid.insert(at, BindingEntry { button, binding }),
    ensures
        entries_sorted(new_entries),
        forall|i: int| 0 <= i < at ==> new_entries[i] == old_entries[i],
        new_entries[at] == (BindingEntry { button, binding }),
        replace ==> forall|i: int| at < i < new_entries.len() ==> new_entries[i] == old_entries[i],
        !replace ==> forall|i: int| at < i < new_entries.len() ==> new_entries[i] == old_entries[i - 1],
        new_entries.len() == if replace { old_entries.len() } else { old_entries.len() + 1 },
{
    assert forall|i: int, j: int| 0 <= i < j < new_entries.len() implies button_rank(
        #[trigger] new_entries[i].button,
    ) < button_rank(#[trigger] new_entries[j].button) by {
        if replace {
            if i < at && j > at {
                assert(new_entries[j] == old_entries[j]);
            }
            if i == at && j > at {
                assert(new_entries[j] == old_entries[j]);
                assert(button_rank(old_entries[at].button) < button_rank(old_entries[j].button));
            }
            if i > at {
                assert(new_entries[j] == old_entries[j]);
                assert(new_entries[i] == old_entries[i]);
            }
        } else {
            if i < at && j > at {
                assert(new_entries[j] == old_entries[j - 1]);
            }
            if i == at && j > at {
                assert(new_entries[j] == old_entries[j - 1]);
                if j - 1 > at {
                    assert(button_rank(old_entries[at].button) < button_rank(old_entries[j - 1].button));
                }
            }
            if i > at {
                assert(new_entries[j] == old_entries[j - 1]);
                assert(new_entries[i] == old_entries[i - 1]);
            }
        }
    }
}

proof fn lemma_insert_sorted(
    old_entries: Seq<BindingEntry>,
    mid: Seq<BindingEntry>,
    new_entries: Seq<BindingEntry>,
    at: int,
    replace: bool,
    button: ButtonId,
    binding: Binding,
)
    requires
        entries_sorted(old_entries),
        0 <= at <= old_entries.len(),
        forall|j: int| 0 <= j < at ==> button_rank(#[trigger] old_entries[j].button) < button_rank(button),
        at < old_entries.len() ==> button_rank(old_entries[at].button) >= button_rank(button),
        replace == (at < old_entries.len() && button_rank(old_entries[at].button) == button_rank(button)),
        replace ==> mid == old_entries.remove(at),
        !replace ==> mid == old_entries,
        new_entries == mid.insert(at, BindingEntry { button, binding }),
    ensures
        entries_sorted(new_entries),
        entries_map(new_entries) == entries_map(old_entries).insert(button, binding),
{
    lemma_insert_order(old_entries, mid, new_entries, at, replace, button, binding);
    let target = entries_map(old_entries).insert(button, binding);
    assert forall|b: ButtonId| #[trigger] entries_map(new_entries).contains_key(b) implies target.contains_key(b)
        && entries_map(new_entries)[b] == target[b] by {
        let i = choose|i: int| 0 <= i < new_entries.len() && new_entries[i].button == b;
        lemma_entries_map_at(new_entries, i);
        lemma_button_rank_injective(b, button);
        if i != at {
            let k = if i < at || replace { i } else { i - 1 };
            assert(old_entries[k] == new_entries[i]);
            lemma_entries_map_at(old_entries, k);
        }
    }
    assert forall|b: ButtonId| #[trigger] target.contains_key(b) implies entries_map(new_entries).contains_key(b) by {
        if b == button {
            assert(new_entries[at].button == button);
        } else {
            let k = choose|k: int| 0 <= k < old_entries.len() && old_entries[k].button == b;
            lemma_button_rank_injective(b, button);
            if k < at {
                assert(new_entries[k] == old_entries[k]);
            } else if replace {
                assert(k != at);
                assert(new_entries[k] == old_entries[k]);
            } else {
                assert(new_entries[k + 1] == old_entries[k]);
            }
        }
    }
    assert(entries_map(new_entries) =~= target);
}

} // verus!
