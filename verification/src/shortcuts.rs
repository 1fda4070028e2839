//! What each global shortcut does to the overlay window.
use vstd::prelude::*;

verus! {

/// How far one arrow shortcut moves the window, in physical pixels.
pub const MOVE_STEP: i32 = 100;

/// The registered global shortcuts: Cmd+B, Cmd+` and Cmd+Shift+arrows.
#[derive(Clone, Copy, Debug, PartialEq, Eq, Structural)]
pub enum ShortcutKey {
    ToggleVisibility,
    Screenshot,
    MoveUp,
    MoveDown,
    MoveLeft,
    MoveRight,
}

/// Whether a shortcut event is a press or a release.
#[derive(Clone, Copy, Debug, PartialEq, Eq, Structural)]
pub enum KeyState {
    Pressed,
    Released,
}

/// What to do with the window in answer to a shortcut event.
#[derive(Clone, Copy, Debug, PartialEq, Eq, Structural)]
pub enum ShortcutAction {
    Ignore,
    Hide,
    ShowAndReapplyStealth,
    TriggerScreenshot,
    MoveBy { dx: i32, dy: i32 },
}

/// The answer to a shortcut event while the window is (or is not) visible:
/// releases are ignored; the toggle hides a visible window and shows a
/// hidden one (applying the stealth layers again, which showing can reset);
/// the screenshot shortcut asks the front end for a screenshot; the arrows
/// move the window one step.
pub open spec fn spec_shortcut_action(key: ShortcutKey, state: KeyState, visible: bool) -> ShortcutAction {
    if state != KeyState::Pressed {
        ShortcutAction::Ignore
    } else {
        match key {
            ShortcutKey::ToggleVisibility => if visible {
                ShortcutAction::Hide
            } else {
                ShortcutAction::ShowAndReapplyStealth
            },
            ShortcutKey::Screenshot => ShortcutAction::TriggerScreenshot,
            ShortcutKey::MoveUp => ShortcutAction::MoveBy { dx: 0, dy: (-MOVE_STEP) as i32 },
            ShortcutKey::MoveDown => ShortcutAction::MoveBy { dx: 0, dy: MOVE_STEP },
            ShortcutKey::MoveLeft => ShortcutAction::MoveBy { dx: (-MOVE_STEP) as i32, dy: 0 },
            ShortcutKey::MoveRight => ShortcutAction::MoveBy { dx: MOVE_STEP, dy: 0 },
        }
    }
}

/// Decides what a shortcut event does.
pub fn shortcut_action(key: ShortcutKey, state: KeyState, visible: bool) -> (a: ShortcutAction)
    ensures
        a == spec_shortcut_action(key, state, visible),
{
    match state {
        KeyState::Released => ShortcutAction::Ignore,
        KeyState::Pressed => match key {
            ShortcutKey::ToggleVisibility => if visible {
                ShortcutAction::Hide
            } else {
                ShortcutAction::ShowAndReapplyStealth
            },
            ShortcutKey::Screenshot => ShortcutAction::TriggerScreenshot,
            ShortcutKey::MoveUp => ShortcutAction::MoveBy { dx: 0, dy: -MOVE_STEP },
            ShortcutKey::MoveDown => ShortcutAction::MoveBy { dx: 0, dy: MOVE_STEP },
            ShortcutKey::MoveLeft => ShortcutAction::MoveBy { dx: -MOVE_STEP, dy: 0 },
            ShortcutKey::MoveRight => ShortcutAction::MoveBy { dx: MOVE_STEP, dy: 0 },
        },
    }
}

/// A release never acts: whatever the key and whether or not the window is
/// visible, only the press of a shortcut does something.
pub proof fn law_release_never_acts(key: ShortcutKey, visible: bool)
    ensures
        spec_shortcut_action(key, KeyState::Released, visible) == ShortcutAction::Ignore,
{
}

/// A press always acts, and only the visibility toggle depends on whether
/// the window is visible: it hides a visible window and shows a hidden one.
pub proof fn law_press_acts(key: ShortcutKey, visible: bool)
    ensures
        spec_shortcut_action(key, KeyState::Pressed, visible) != ShortcutAction::Ignore,
        key != ShortcutKey::ToggleVisibility ==> spec_shortcut_action(key, KeyState::Pressed, visible)
            == spec_shortcut_action(key, KeyState::Pressed, !visible),
        spec_shortcut_action(ShortcutKey::ToggleVisibility, KeyState::Pressed, true)
            == ShortcutAction::Hide,
        spec_shortcut_action(ShortcutKey::ToggleVisibility, KeyState::Pressed, false)
            == ShortcutAction::ShowAndReapplyStealth,
        spec_shortcut_action(ShortcutKey::Screenshot, KeyState::Pressed, visible)
            == ShortcutAction::TriggerScreenshot,
{
}

/// Each arrow press moves the window 100 pixels in its own direction and
/// not at all along the other axis (screen y grows downwards).
pub proof fn law_arrow_moves_one_step(visible: bool)
    ensures
        spec_shortcut_action(ShortcutKey::MoveUp, KeyState::Pressed, visible)
            == (ShortcutAction::MoveBy { dx: 0, dy: -100i32 }),
        spec_shortcut_action(ShortcutKey::MoveDown, KeyState::Pressed, visible)
            == (ShortcutAction::MoveBy { dx: 0, dy: 100 }),
        spec_shortcut_action(ShortcutKey::MoveLeft, KeyState::Pressed, visible)
            == (ShortcutAction::MoveBy { dx: -100i32, dy: 0 }),
        spec_shortcut_action(ShortcutKey::MoveRight, KeyState::Pressed, visible)
            == (ShortcutAction::MoveBy { dx: 100, dy: 0 }),
{
}

/// Opposite arrows undo each other: up then down, or left then right, moves
/// the window back where it was.
pub proof fn law_opposite_moves_cancel()
    ensures
        ({
            let up = spec_shortcut_action(ShortcutKey::MoveUp, KeyState::Pressed, true);
            let down = spec_shortcut_action(ShortcutKey::MoveDown, KeyState::Pressed, true);
            up->dx + down->dx == 0 && up->dy + down->dy == 0
        }),
        ({
            let left = spec_shortcut_action(ShortcutKey::MoveLeft, KeyState::Pressed, true);
            let right = spec_shortcut_action(ShortcutKey::MoveRight, KeyState::Pressed, true);
            left->dx + right->dx == 0 && left->dy + right->dy == 0
        }),
{
}

} // verus!
