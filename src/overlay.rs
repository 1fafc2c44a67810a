use vstd::prelude::*;
use crate::hotkey::{ComboState, ComboTransition, KeyTransition, signal, step};

verus! {

/// What the window layer must do to the overlay window after a command.
#[derive(Clone, Copy, Debug, PartialEq, Eq, Structural)]
pub enum WindowAction {
    /// Show the existing window in front, without giving it input focus.
    Show,
    /// Hide the existing window (it is kept, not destroyed).
    Hide,
    /// Create the window, which appears shown.
    Create,
    /// Leave the window layer alone.
    Nothing,
}

/// Process-wide flags shared by the commands and the hotkey listener.
#[derive(Clone, Copy, Debug, PartialEq, Eq, Structural)]
pub struct AppState {
    pub overlay_visible: bool,
    pub is_recording: bool,
}

/// The flags after a toggle: visibility flips, the rest stays.
pub open spec fn after_toggle(s: AppState) -> AppState {
    AppState { overlay_visible: !s.overlay_visible, ..s }
}

/// The flags after a hide: visibility off, the rest stays.
pub open spec fn after_hide(s: AppState) -> AppState {
    AppState { overlay_visible: false, ..s }
}

/// What brings the window in line with the visibility flag `visible`.
pub open spec fn sync_action(visible: bool, window_exists: bool) -> WindowAction {
    if window_exists {
        if visible { WindowAction::Show } else { WindowAction::Hide }
    } else if visible {
        WindowAction::Create
    } else {
        WindowAction::Nothing
    }
}

/// What a hide asks of the window layer: hide the window if there is one.
pub open spec fn hide_action(window_exists: bool) -> WindowAction {
    if window_exists { WindowAction::Hide } else { WindowAction::Nothing }
}

/// The signal name delivered to the overlay for a hotkey edge.
pub open spec fn signal_name(t: ComboTransition) -> Seq<char> {
    match t {
        ComboTransition::Activated => "hotkey-pressed"@,
        ComboTransition::Deactivated => "hotkey-released"@,
    }
}

impl AppState {
    /// The flags at process start: overlay hidden, not recording.
    pub fn new() -> (r: AppState)
        ensures
            !r.overlay_visible,
            !r.is_recording,
    {
        AppState { overlay_visible: false, is_recording: false }
    }

    /// Flips the overlay's visibility flag and says what the window layer
    /// must do: show an existing window, hide it, or create it when
    /// it becomes visible and does not exist yet.
    pub fn toggle_overlay(&mut self, window_exists: bool) -> (r: WindowAction)
        ensures
            *final(self) == after_toggle(*old(self)),
            r == sync_action(final(self).overlay_visible, window_exists),
    {
        self.overlay_visible = !self.overlay_visible;
        if window_exists {
            if self.overlay_visible {
                WindowAction::Show
            } else {
                WindowAction::Hide
            }
        } else if self.overlay_visible {
            WindowAction::Create
        } else {
            WindowAction::Nothing
        }
    }

    /// Clears the overlay's visibility flag and says whether an existing
    /// window must be hidden.
    pub fn hide_overlay(&mut self, window_exists: bool) -> (r: WindowAction)
        ensures
            *final(self) == after_hide(*old(self)),
            r == hide_action(window_exists),
    {
        self.overlay_visible = false;
        if window_exists {
            WindowAction::Hide
        } else {
            WindowAction::Nothing
        }
    }

    /// Records whether dictation is in progress.
    pub fn set_recording(&mut self, recording: bool)
        ensures
            final(self).is_recording == recording,
            final(self).overlay_visible == old(self).overlay_visible,
    {
        self.is_recording = recording;
    }
}

/// Toggling twice gives back the flags one started from, and the second
/// toggle asks the window layer for the state it had before the first.
pub proof fn lemma_toggle_twice(s: AppState, window_exists: bool)
    ensures
        after_toggle(after_toggle(s)) == s,
        sync_action(after_toggle(after_toggle(s)).overlay_visible, window_exists)
            == sync_action(s.overlay_visible, window_exists),
{
}

/// A second hide changes nothing: the overlay stays hidden, and the window
/// layer is asked for the same harmless hide (or nothing) again.
pub proof fn lemma_hide_twice(s: AppState, window_exists: bool)
    ensures
        after_hide(after_hide(s)) == after_hide(s),
        !after_hide(after_hide(s)).overlay_visible,
        hide_action(window_exists) != WindowAction::Create,
        hide_action(window_exists) != WindowAction::Show,
{
}

/// The name of the signal sent to the overlay for a hotkey edge.
pub fn signal_name_of(t: ComboTransition) -> (r: &'static str)
    ensures
        r@ == signal_name(t),
{
    match t {
        ComboTransition::Activated => "hotkey-pressed",
        ComboTransition::Deactivated => "hotkey-released",
    }
}

/// What the window layer must do after one key event.
#[derive(Clone, Copy, Debug, PartialEq, Eq)]
pub struct HotkeyEffect {
    /// The change to the overlay window.
    pub window: WindowAction,
    /// The signal to deliver to the overlay window afterwards, if any.
    pub signal: Option<&'static str>,
}

/// The flags after an activation: the overlay becomes visible.
pub open spec fn after_show(s: AppState) -> AppState {
    AppState { overlay_visible: true, ..s }
}

/// Handles one key event from the listener. An activation makes the overlay
/// visible (showing the window, or creating it if it does not exist yet) and
/// then signals `hotkey-pressed` to it. A deactivation hides the overlay and
/// signals `hotkey-released` if the window exists; with no window the signal
/// is dropped. Any other event changes nothing and asks for nothing.
pub fn on_hotkey_event(
    state: &mut AppState,
    combo: &mut ComboState,
    key: u32,
    t: KeyTransition,
    window_exists: bool,
) -> (r: HotkeyEffect)
    requires
        old(combo).wf(),
    ensures
        final(combo).wf(),
        final(combo)@ == step(old(combo)@, key, t),
        match signal(old(combo)@, key, t) {
            Some(ComboTransition::Activated) => {
                &&& *final(state) == after_show(*old(state))
                &&& r.window == sync_action(true, window_exists)
                &&& r.signal matches Some(n) && n@ == signal_name(ComboTransition::Activated)
            },
            Some(ComboTransition::Deactivated) => {
                &&& *final(state) == after_hide(*old(state))
                &&& r.window == hide_action(window_exists)
                &&& window_exists ==> (r.signal matches Some(n) && n@ == signal_name(ComboTransition::Deactivated))
                &&& !window_exists ==> r.signal.is_none()
            },
            None => {
                &&& *final(state) == *old(state)
                &&& r.window == WindowAction::Nothing
                &&& r.signal.is_none()
            },
        },
{
    match combo.on_key_event(key, t) {
        Some(ComboTransition::Activated) => {
            state.overlay_visible = true;
            let window = if window_exists { WindowAction::Show } else { WindowAction::Create };
            HotkeyEffect { window, signal: Some(signal_name_of(ComboTransition::Activated)) }
        },
        Some(ComboTransition::Deactivated) => {
            let window = state.hide_overlay(window_exists);
            let signal = if window_exists { Some(signal_name_of(ComboTransition::Deactivated)) } else { None };
            HotkeyEffect { window, signal }
        },
        None => HotkeyEffect { window: WindowAction::Nothing, signal: None },
    }
}

/// How the overlay window is built: a small frameless, transparent,
/// always-on-top strip, kept off the taskbar, shown at once. The position is
/// a placeholder; the page moves the window to the bottom centre itself.
#[derive(Clone, Copy, Debug, PartialEq, Eq)]
pub struct OverlayWindowConfig {
    pub label: &'static str,
    pub page: &'static str,
    pub title: &'static str,
    pub width: u32,
    pub height: u32,
    pub x: i32,
    pub y: i32,
    pub always_on_top: bool,
    pub decorations: bool,
    pub transparent: bool,
    pub resizable: bool,
    pub skip_taskbar: bool,
    pub visible: bool,
}

/// The label under which the window layer knows the overlay window.
pub open spec fn overlay_label() -> Seq<char> {
    "overlay"@
}

/// The settings used whenever the overlay window is created.
pub fn overlay_window_config() -> (r: OverlayWindowConfig)
    ensures
        r.label@ == overlay_label(),
        r.page@ == "overlay.html"@,
        r.title@ == "vochat.io"@,
        r.width == 280 && r.height == 70,
        r.x == 0 && r.y == 0,
        r.always_on_top && !r.decorations && r.transparent,
        !r.resizable && r.skip_taskbar && r.visible,
{
    OverlayWindowConfig {
        label: "overlay",
        page: "overlay.html",
        title: "vochat.io",
        width: 280,
        height: 70,
        x: 0,
        y: 0,
        always_on_top: true,
        decorations: false,
        transparent: true,
        resizable: false,
        skip_taskbar: true,
        visible: true,
    }
}

} // verus!
