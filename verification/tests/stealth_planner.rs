use invisible_agent::stealth::macos::{
    is_diagnostic_tick, plan_window_update, sharing_type_name, window_flags, WindowState, WindowUpdate,
};

const LEVEL: isize = 1000;

fn fresh_window() -> WindowState {
    WindowState {
        is_panel: false,
        level: 0,
        collection_behavior: 0x2,
        style_mask: 0x8001,
        sharing_type: 1,
        floating_panel: false,
        becomes_key_only_if_needed: false,
        hides_on_deactivate: true,
    }
}

fn apply(w: &WindowState, u: &WindowUpdate) -> WindowState {
    WindowState {
        is_panel: w.is_panel || u.swap_to_panel,
        level: u.level.unwrap_or(w.level),
        collection_behavior: u.collection_behavior.unwrap_or(w.collection_behavior),
        style_mask: u.style_mask.unwrap_or(w.style_mask),
        sharing_type: if u.refresh_sharing { 0 } else { w.sharing_type },
        floating_panel: w.floating_panel || u.set_floating_panel,
        becomes_key_only_if_needed: w.becomes_key_only_if_needed || u.set_becomes_key_only_if_needed,
        hides_on_deactivate: w.hides_on_deactivate && !u.clear_hides_on_deactivate,
    }
}

fn nothing() -> WindowUpdate {
    WindowUpdate {
        swap_to_panel: false,
        style_mask: None,
        set_floating_panel: false,
        set_becomes_key_only_if_needed: false,
        level: None,
        clear_hides_on_deactivate: false,
        collection_behavior: None,
        refresh_sharing: false,
        order_front: false,
    }
}

#[test]
fn fresh_window_gets_every_setter() {
    let u = plan_window_update(&fresh_window(), LEVEL, true);
    assert!(u.swap_to_panel);
    assert_eq!(u.style_mask, Some(0x8081));
    assert!(u.set_floating_panel);
    assert!(u.set_becomes_key_only_if_needed);
    assert_eq!(u.level, Some(1000));
    assert!(u.clear_hides_on_deactivate);
    assert_eq!(u.collection_behavior, Some(0x103));
    assert!(u.refresh_sharing);
    assert!(u.order_front);
}

#[test]
fn law_steady_state_writes_nothing() {
    let w = apply(&fresh_window(), &plan_window_update(&fresh_window(), LEVEL, false));
    assert_eq!(plan_window_update(&w, LEVEL, false), nothing());
}

#[test]
fn law_second_tick_writes_nothing_from_any_drift() {
    for bits in 0u32..256 {
        let w = WindowState {
            is_panel: bits & 1 != 0,
            level: if bits & 2 != 0 { LEVEL } else { 3 },
            collection_behavior: if bits & 4 != 0 { 0x101 } else { 0x1 },
            style_mask: if bits & 8 != 0 { 0x80 } else { 0x1 },
            sharing_type: if bits & 16 != 0 { 0 } else { 2 },
            floating_panel: bits & 32 != 0,
            becomes_key_only_if_needed: bits & 64 != 0,
            hides_on_deactivate: bits & 128 != 0,
        };
        let once = apply(&w, &plan_window_update(&w, LEVEL, false));
        assert_eq!(plan_window_update(&once, LEVEL, false), nothing());
        assert_eq!(once.style_mask & w.style_mask, w.style_mask);
        assert_eq!(once.collection_behavior & w.collection_behavior, w.collection_behavior);
    }
}

#[test]
fn sharing_drift_is_round_tripped_alone() {
    let mut w = apply(&fresh_window(), &plan_window_update(&fresh_window(), LEVEL, false));
    w.sharing_type = 1;
    let u = plan_window_update(&w, LEVEL, false);
    assert_eq!(u, WindowUpdate { refresh_sharing: true, ..nothing() });
}

#[test]
fn class_swap_also_refreshes_sharing() {
    let mut w = apply(&fresh_window(), &plan_window_update(&fresh_window(), LEVEL, false));
    w.is_panel = false;
    let u = plan_window_update(&w, LEVEL, false);
    assert!(u.swap_to_panel);
    assert!(u.refresh_sharing);
}

#[test]
fn one_shot_brings_to_front() {
    let w = apply(&fresh_window(), &plan_window_update(&fresh_window(), LEVEL, false));
    assert_eq!(plan_window_update(&w, LEVEL, true), WindowUpdate { order_front: true, ..nothing() });
}

#[test]
fn sharing_names() {
    assert_eq!(sharing_type_name(0), "None");
    assert_eq!(sharing_type_name(1), "ReadOnly");
    assert_eq!(sharing_type_name(2), "ReadWrite");
    assert_eq!(sharing_type_name(9), "Unknown");
}

#[test]
fn flags_decoded() {
    let f = window_flags(&fresh_window());
    assert!(!f.can_join_all_spaces);
    assert!(!f.full_screen_auxiliary);
    assert!(!f.non_activating_panel);
    let mut w = fresh_window();
    w.collection_behavior = 0x101;
    w.style_mask = 0x80;
    let f = window_flags(&w);
    assert!(f.can_join_all_spaces && f.full_screen_auxiliary && f.non_activating_panel);
}

#[test]
fn diagnostics_every_twenty_ticks() {
    assert!(is_diagnostic_tick(20));
    assert!(is_diagnostic_tick(40));
    assert!(!is_diagnostic_tick(1));
    assert!(!is_diagnostic_tick(19));
}
