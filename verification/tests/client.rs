use hotline::client::{
    plan_plugin_update, reload_triggered, update_user_config_windows, PluginState,
};
use hotline::os::Rect;

#[test]
fn reload_triggers() {
    assert!(reload_triggered(PluginState::Idle, true));
    assert!(reload_triggered(PluginState::Reload, false));
    assert!(!reload_triggered(PluginState::Setup, false));
}

#[test]
fn idle_plugins_only_update() {
    let states = vec![PluginState::Idle, PluginState::Idle];
    let plan = plan_plugin_update(&states, None, false);
    assert_eq!(plan.unload, vec![false, false]);
    assert_eq!(plan.keep, vec![true, true]);
    assert_eq!(plan.reload, vec![false, false]);
    assert_eq!(plan.setup, vec![false, false]);
    assert!(plan.update);
    assert!(plan.next_states == vec![PluginState::Idle, PluginState::Idle]);
}

#[test]
fn a_reload_sets_up_every_plugin() {
    let states = vec![PluginState::Idle, PluginState::Idle, PluginState::Setup];
    let plan = plan_plugin_update(&states, Some(1), false);
    assert_eq!(plan.unload, vec![true, true, true]);
    assert_eq!(plan.keep, vec![true, true, true]);
    assert_eq!(plan.reload, vec![false, true, false]);
    assert_eq!(plan.setup, vec![true, true, true]);
    assert!(plan.next_states == vec![PluginState::Idle; 3]);
}

#[test]
fn unloaded_plugins_are_removed() {
    let states = vec![PluginState::Unload, PluginState::Setup, PluginState::Idle];
    let plan = plan_plugin_update(&states, None, true);
    assert_eq!(plan.unload, vec![true, true, false]);
    assert_eq!(plan.keep, vec![false, true, true]);
    assert_eq!(plan.setup, vec![false, true, false]);
    assert!(!plan.update);
    // paused: states carry over, set up plugins stay set up
    assert!(plan.next_states[1] == PluginState::Setup);
    assert!(plan.next_states[2] == PluginState::Idle);
}

fn rect(x: i32, y: i32, width: i32, height: i32) -> Rect<i32> {
    Rect { x, y, width, height }
}

#[test]
fn window_placement_changes_are_saved() {
    let stored = rect(10, 10, 100, 100);
    let (main, console, changed) = update_user_config_windows(stored, stored, Some(stored), stored);
    assert!(main == stored && console == Some(stored) && !changed);

    let moved = rect(20, 30, 100, 100);
    let (main, console, changed) = update_user_config_windows(stored, moved, None, moved);
    assert!(main == moved && console == Some(moved) && changed);

    // off screen positions are not recorded
    let off = rect(0, 30, 100, 100);
    let (main, console, changed) = update_user_config_windows(stored, off, None, off);
    assert!(main == stored && console.is_none() && !changed);
}
