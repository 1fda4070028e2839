//! The watchdog's decisions for one AppKit window: from the properties read
//! back from the window, which setters to call so that it stays a
//! non-activating panel at screen-saver level, on every Space, excluded from
//! capture. Every write is guarded: a property is written only when it has
//! drifted from the state wanted.
use vstd::prelude::*;

verus! {

/// `NSWindowStyleMaskNonactivatingPanel`.
pub const NON_ACTIVATING_PANEL_MASK: u64 = 0x80;

/// `NSWindowCollectionBehavior::CanJoinAllSpaces`.
pub const CAN_JOIN_ALL_SPACES: u64 = 0x1;

/// `NSWindowCollectionBehavior::FullScreenAuxiliary`.
pub const FULL_SCREEN_AUXILIARY: u64 = 0x100;

/// The raw value of `NSWindowSharingType::None`.
pub const SHARING_NONE: u64 = 0;

/// Ticks between two diagnostic dumps (about five seconds at 250 ms a tick).
pub const DIAGNOSTIC_EVERY: u64 = 20;

/// The properties of one window as read back from AppKit.
#[derive(Clone, Copy, Debug, PartialEq, Eq, Structural)]
pub struct WindowState {
    pub is_panel: bool,
    pub level: isize,
    pub collection_behavior: u64,
    pub style_mask: u64,
    pub sharing_type: u64,
    pub floating_panel: bool,
    pub becomes_key_only_if_needed: bool,
    pub hides_on_deactivate: bool,
}

/// The setters to call on one window, in the order to call them: class,
/// style and level first, the sharing type last, so that no panel setter
/// can disturb it afterwards.
#[derive(Clone, Copy, Debug, PartialEq, Eq, Structural)]
pub struct WindowUpdate {
    pub swap_to_panel: bool,
    pub style_mask: Option<u64>,
    pub set_floating_panel: bool,
    pub set_becomes_key_only_if_needed: bool,
    pub level: Option<isize>,
    pub clear_hides_on_deactivate: bool,
    pub collection_behavior: Option<u64>,
    pub refresh_sharing: bool,
    pub order_front: bool,
}

/// Both cross-Space collection bits.
pub open spec fn cross_space_bits() -> u64 {
    CAN_JOIN_ALL_SPACES | FULL_SCREEN_AUXILIARY
}

/// Whether a window is in the wanted state at `level`.
pub open spec fn is_stealthy(w: WindowState, level: isize) -> bool {
    &&& w.is_panel
    &&& w.style_mask & NON_ACTIVATING_PANEL_MASK != 0
    &&& w.floating_panel
    &&& w.becomes_key_only_if_needed
    &&& w.level == level
    &&& !w.hides_on_deactivate
    &&& w.collection_behavior & cross_space_bits() == cross_space_bits()
    &&& w.sharing_type == SHARING_NONE
}

/// The update for `w`: each setter only where its property has drifted. The
/// sharing type is also round-tripped right after a class swap, which leaves
/// the window server's copy of it stale. The window is brought to the front
/// only on a one-shot application, never on a watchdog tick.
pub open spec fn spec_plan(w: WindowState, level: isize, one_shot: bool) -> WindowUpdate {
    WindowUpdate {
        swap_to_panel: !w.is_panel,
        style_mask: if w.style_mask & NON_ACTIVATING_PANEL_MASK == 0 {
            Some(w.style_mask | NON_ACTIVATING_PANEL_MASK)
        } else {
            None
        },
        set_floating_panel: !w.floating_panel,
        set_becomes_key_only_if_needed: !w.becomes_key_only_if_needed,
        level: if w.level != level {
            Some(level)
        } else {
            None
        },
        clear_hides_on_deactivate: w.hides_on_deactivate,
        collection_behavior: if w.collection_behavior & cross_space_bits() != cross_space_bits() {
            Some(w.collection_behavior | cross_space_bits())
        } else {
            None
        },
        refresh_sharing: w.sharing_type != SHARING_NONE || !w.is_panel,
        order_front: one_shot,
    }
}

/// The update that writes nothing.
pub open spec fn no_writes() -> WindowUpdate {
    WindowUpdate {
        swap_to_panel: false,
        style_mask: None,
        set_floating_panel: false,
        set_becomes_key_only_if_needed: false,
        level: None,
        clear_hides_on_deactivate: false,
        collection_behavior: None,
        refresh_sharing: false,
        order_front: false,
    }
}

/// The window's properties once `u` has been carried out on `w`.
pub open spec fn spec_apply(w: WindowState, u: WindowUpdate) -> WindowState {
    WindowState {
        is_panel: w.is_panel || u.swap_to_panel,
        level: match u.level {
            Some(l) => l,
            None => w.level,
        },
        collection_behavior: match u.collection_behavior {
            Some(b) => b,
            None => w.collection_behavior,
        },
        style_mask: match u.style_mask {
            Some(m) => m,
            None => w.style_mask,
        },
        sharing_type: if u.refresh_sharing {
            SHARING_NONE
        } else {
            w.sharing_type
        },
        floating_panel: w.floating_panel || u.set_floating_panel,
        becomes_key_only_if_needed: w.becomes_key_only_if_needed
            || u.set_becomes_key_only_if_needed,
        hides_on_deactivate: w.hides_on_deactivate && !u.clear_hides_on_deactivate,
    }
}

/// Decides which setters to call on one window so that it ends up in the
/// wanted state at `level`; `one_shot` is set for the initial application
/// and its delayed repeats, which also bring the window to the front.
pub fn plan_window_update(w: &WindowState, level: isize, one_shot: bool) -> (u: WindowUpdate)
    ensures
        u == spec_plan(*w, level, one_shot),
{
    let mask: u64 = w.style_mask;
    let behavior: u64 = w.collection_behavior;
    let both: u64 = CAN_JOIN_ALL_SPACES | FULL_SCREEN_AUXILIARY;
    WindowUpdate {
        swap_to_panel: !w.is_panel,
        style_mask: if mask & NON_ACTIVATING_PANEL_MASK == 0 {
            Some(mask | NON_ACTIVATING_PANEL_MASK)
        } else {
            None
        },
        set_floating_panel: !w.floating_panel,
        set_becomes_key_only_if_needed: !w.becomes_key_only_if_needed,
        level: if w.level != level {
            Some(level)
        } else {
            None
        },
        clear_hides_on_deactivate: w.hides_on_deactivate,
        collection_behavior: if behavior & both != both {
            Some(behavior | both)
        } else {
            None
        },
        refresh_sharing: w.sharing_type != SHARING_NONE || !w.is_panel,
        order_front: one_shot,
    }
}

proof fn lemma_or_sets_bits(x: u64, bits: u64)
    ensures
        (x | bits) & bits == bits,
        (x | bits) & x == x,
{
    assert((x | bits) & bits == bits) by (bit_vector);
    assert((x | bits) & x == x) by (bit_vector);
}

/// Once the planned update has been carried out, the window is in the
/// wanted state, whatever state it was in before.
pub proof fn law_update_converges(w: WindowState, level: isize, one_shot: bool)
    ensures
        is_stealthy(spec_apply(w, spec_plan(w, level, one_shot)), level),
{
    lemma_or_sets_bits(w.style_mask, NON_ACTIVATING_PANEL_MASK);
    lemma_or_sets_bits(w.collection_behavior, cross_space_bits());
    assert(NON_ACTIVATING_PANEL_MASK & NON_ACTIVATING_PANEL_MASK != 0) by (bit_vector);
}

/// In the steady state a watchdog tick writes nothing: every setter is
/// guarded by a check that its property has drifted.
pub proof fn law_steady_state_writes_nothing(w: WindowState, level: isize)
    requires
        is_stealthy(w, level),
    ensures
        spec_plan(w, level, false) == no_writes(),
{
}

/// Watchdog ticks are idempotent: after one tick has been carried out, the
/// next tick writes nothing.
pub proof fn law_second_tick_writes_nothing(w: WindowState, level: isize)
    ensures
        spec_plan(spec_apply(w, spec_plan(w, level, false)), level, false) == no_writes(),
{
    law_update_converges(w, level, false);
}

/// Flags are OR-ed in, never replaced: every style bit and collection bit the
/// window had before is still set afterwards.
pub proof fn law_existing_bits_kept(w: WindowState, level: isize, one_shot: bool)
    ensures
        spec_apply(w, spec_plan(w, level, one_shot)).style_mask & w.style_mask == w.style_mask,
        spec_apply(w, spec_plan(w, level, one_shot)).collection_behavior & w.collection_behavior
            == w.collection_behavior,
{
    let m: u64 = w.style_mask;
    let b: u64 = w.collection_behavior;
    lemma_or_sets_bits(m, NON_ACTIVATING_PANEL_MASK);
    lemma_or_sets_bits(b, cross_space_bits());
    assert(m & m == m) by (bit_vector);
    assert(b & b == b) by (bit_vector);
}

/// The name of a raw `NSWindowSharingType` value.
pub open spec fn sharing_name(raw: u64) -> Seq<char> {
    if raw == 0 {
        "None"@
    } else if raw == 1 {
        "ReadOnly"@
    } else if raw == 2 {
        "ReadWrite"@
    } else {
        "Unknown"@
    }
}

/// The name a diagnostic dump shows for a raw sharing type.
pub fn sharing_type_name(raw: u64) -> (s: &'static str)
    ensures
        s@ == sharing_name(raw),
{
    if raw == 0 {
        "None"
    } else if raw == 1 {
        "ReadOnly"
    } else if raw == 2 {
        "ReadWrite"
    } else {
        "Unknown"
    }
}

/// What a diagnostic dump reports of a window's flags.
#[derive(Clone, Copy, Debug, PartialEq, Eq, Structural)]
pub struct WindowFlags {
    pub can_join_all_spaces: bool,
    pub full_screen_auxiliary: bool,
    pub non_activating_panel: bool,
}

/// Decodes the collection-behavior and style-mask flags of a window.
pub fn window_flags(w: &WindowState) -> (f: WindowFlags)
    ensures
        f.can_join_all_spaces == (w.collection_behavior & CAN_JOIN_ALL_SPACES != 0),
        f.full_screen_auxiliary == (w.collection_behavior & FULL_SCREEN_AUXILIARY != 0),
        f.non_activating_panel == (w.style_mask & NON_ACTIVATING_PANEL_MASK != 0),
{
    WindowFlags {
        can_join_all_spaces: w.collection_behavior & CAN_JOIN_ALL_SPACES != 0,
        full_screen_auxiliary: w.collection_behavior & FULL_SCREEN_AUXILIARY != 0,
        non_activating_panel: w.style_mask & NON_ACTIVATING_PANEL_MASK != 0,
    }
}

/// Whether the watchdog dumps the window state on this tick.
pub fn is_diagnostic_tick(tick: u64) -> (b: bool)
    ensures
        b == (tick % DIAGNOSTIC_EVERY == 0),
{
    tick % DIAGNOSTIC_EVERY == 0
}

} // verus!
