//! The global hotkeys: F2 picks the point, F6 starts or stops clicking.
use vstd::prelude::*;

verus! {

/// Hotkey number of F2 (pick the point).
pub const ID_PICK: u32 = 1;
/// Hotkey number of F6 (start or stop).
pub const ID_TOGGLE: u32 = 2;
/// The message of a pressed hotkey.
pub const WM_HOTKEY: u32 = 0x0312;
/// The modifier that keeps a held key from repeating the hotkey.
pub const MOD_NOREPEAT: u32 = 0x4000;
/// The virtual-key code of F2.
pub const VK_F2: u32 = 0x71;
/// The virtual-key code of F6.
pub const VK_F6: u32 = 0x75;

/// What the hotkey thread reports to the window.
#[derive(Clone, Copy, PartialEq, Eq, Debug, Structural)]
pub enum HotkeyEvent {
    /// Open the point picker (the main window was already restored).
    Pick,
    /// Whether each hotkey could be registered.
    Registration { pick_ok: bool, toggle_ok: bool },
}

/// What a message to the hotkey thread does.
#[derive(Clone, Copy, PartialEq, Eq, Debug, Structural)]
pub enum HotkeyAction {
    /// Restore the main window and ask it to open the picker.
    OpenPicker,
    /// Start or stop clicking with the stored settings.
    Toggle,
    /// Nothing.
    Nothing,
}

/// What a message does: F2 opens the picker unless clicking runs (a new
/// point would not apply to the running session); F6 toggles clicking.
pub open spec fn hotkey_spec(msg: u32, id: u32, running: bool) -> HotkeyAction {
    if msg != WM_HOTKEY {
        HotkeyAction::Nothing
    } else if id == ID_PICK {
        if running {
            HotkeyAction::Nothing
        } else {
            HotkeyAction::OpenPicker
        }
    } else if id == ID_TOGGLE {
        HotkeyAction::Toggle
    } else {
        HotkeyAction::Nothing
    }
}

/// What a message to the hotkey thread does; the hotkey's number travels
/// in the low 32 bits of `wparam`.
pub fn hotkey_action(msg: u32, wparam: usize, running: bool) -> (a: HotkeyAction)
    ensures
        a == hotkey_spec(msg, wparam as u32, running),
{
    let id = wparam as u32;
    if msg != WM_HOTKEY {
        HotkeyAction::Nothing
    } else if id == ID_PICK {
        if running {
            HotkeyAction::Nothing
        } else {
            HotkeyAction::OpenPicker
        }
    } else if id == ID_TOGGLE {
        HotkeyAction::Toggle
    } else {
        HotkeyAction::Nothing
    }
}

} // verus!
