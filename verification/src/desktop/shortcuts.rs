//! Keys that the browser answers to.
use vstd::prelude::*;

verus! {

/// What a key combination asks for.
#[derive(Clone, Copy, Debug, PartialEq, Eq, Structural)]
pub enum DesktopShortcut {
    FocusAddress,
    NewTab,
    CloseTab,
    Back,
    Forward,
    Reload,
}

/// The modifiers that are held down.
#[derive(Clone, Copy, Debug, PartialEq, Eq, Structural)]
pub struct DesktopShortcutModifiers {
    pub ctrl: bool,
    pub meta: bool,
    pub alt: bool,
    pub shift: bool,
}

impl Default for DesktopShortcutModifiers {
    fn default() -> (modifiers: DesktopShortcutModifiers)
        ensures
            modifiers == (DesktopShortcutModifiers {
                ctrl: false,
                meta: false,
                alt: false,
                shift: false,
            }),
    {
        DesktopShortcutModifiers { ctrl: false, meta: false, alt: false, shift: false }
    }
}

/// A key that some combination uses.
#[derive(Clone, Copy, Debug, PartialEq, Eq, Structural)]
pub enum DesktopShortcutKey {
    L,
    R,
    T,
    W,
    F5,
    ArrowLeft,
    ArrowRight,
}

/// Ctrl or Meta alone, or both.
pub open spec fn command_held(modifiers: DesktopShortcutModifiers) -> bool {
    (modifiers.ctrl || modifiers.meta) && !modifiers.alt && !modifiers.shift
}

/// Alt alone.
pub open spec fn alt_held(modifiers: DesktopShortcutModifiers) -> bool {
    modifiers.alt && !modifiers.ctrl && !modifiers.meta && !modifiers.shift
}

/// Nothing, or Shift alone.
pub open spec fn bare(modifiers: DesktopShortcutModifiers) -> bool {
    !modifiers.ctrl && !modifiers.meta && !modifiers.alt
}

/// What a key combination asks for.
pub open spec fn shortcut(modifiers: DesktopShortcutModifiers, key: DesktopShortcutKey) -> Option<
    DesktopShortcut,
> {
    match key {
        DesktopShortcutKey::L if command_held(modifiers) => Some(DesktopShortcut::FocusAddress),
        DesktopShortcutKey::R if command_held(modifiers) => Some(DesktopShortcut::Reload),
        DesktopShortcutKey::T if command_held(modifiers) => Some(DesktopShortcut::NewTab),
        DesktopShortcutKey::W if command_held(modifiers) => Some(DesktopShortcut::CloseTab),
        DesktopShortcutKey::ArrowLeft if alt_held(modifiers) => Some(DesktopShortcut::Back),
        DesktopShortcutKey::ArrowRight if alt_held(modifiers) => Some(DesktopShortcut::Forward),
        DesktopShortcutKey::F5 if bare(modifiers) => Some(DesktopShortcut::Reload),
        _ => None,
    }
}

/// What a key combination asks for.
pub fn desktop_shortcut_for_key(modifiers: DesktopShortcutModifiers, key: DesktopShortcutKey) -> (
    asked: Option<DesktopShortcut>)
    ensures
        asked == shortcut(modifiers, key),
{
    let command = (modifiers.ctrl || modifiers.meta) && !modifiers.alt && !modifiers.shift;
    if command {
        return match key {
            DesktopShortcutKey::L => Some(DesktopShortcut::FocusAddress),
            DesktopShortcutKey::R => Some(DesktopShortcut::Reload),
            DesktopShortcutKey::T => Some(DesktopShortcut::NewTab),
            DesktopShortcutKey::W => Some(DesktopShortcut::CloseTab),
            _ => None,
        };
    }
    let alt_history = modifiers.alt && !modifiers.ctrl && !modifiers.meta && !modifiers.shift;
    if alt_history {
        return match key {
            DesktopShortcutKey::ArrowLeft => Some(DesktopShortcut::Back),
            DesktopShortcutKey::ArrowRight => Some(DesktopShortcut::Forward),
            _ => None,
        };
    }
    if !modifiers.ctrl && !modifiers.meta && !modifiers.alt {
        return match key {
            DesktopShortcutKey::F5 => Some(DesktopShortcut::Reload),
            _ => None,
        };
    }
    None
}

} // verus!
