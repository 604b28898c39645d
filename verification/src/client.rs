//! Decisions the client makes each frame: how hot reloaded plugins move through unload,
//! reload, setup and update, and when window placement changes are saved to the user config.

use vstd::prelude::*;

use crate::os::Rect;

verus! {

/// Serialisable plugin
#[derive(Clone)]
pub struct PluginInfo {
    pub path: String,
}

/// Tracks where a plugin is in its unload / reload / setup cycle.
#[derive(Copy, Clone, Debug, PartialEq, Eq, Structural)]
pub enum PluginState {
    /// Loaded and set up; only updated.
    Idle,
    /// Its library is to be reloaded.
    Reload,
    /// It is to be set up.
    Setup,
    /// It is to be unloaded and removed.
    Unload,
}

/// A plugin triggers a reload when its reloader reports a new build or a reload was requested.
pub open spec fn triggers_reload(state: PluginState, reload_available: bool) -> bool {
    reload_available || state == PluginState::Reload
}

/// Whether plugin state `state` with reloader report `reload_available` triggers the reload
/// of this frame. Plugins are checked in order and checking stops at the first trigger.
pub fn reload_triggered(state: PluginState, reload_available: bool) -> (triggered: bool)
    ensures
        triggered == triggers_reload(state, reload_available),
{
    reload_available || state == PluginState::Reload
}

/// State of plugin `i` once the reload of this frame (the plugin at `trigger`, if any) is
/// marked: the triggering plugin reloads and, when there is a reload, idle plugins set up again.
pub open spec fn marked_state(states: Seq<PluginState>, trigger: Option<usize>, i: int) -> PluginState {
    if trigger == Some(i as usize) {
        PluginState::Reload
    } else if trigger is Some && states[i] == PluginState::Idle {
        PluginState::Setup
    } else {
        states[i]
    }
}

/// State of a kept plugin after its library reload: reloaded plugins are set up.
pub open spec fn reloaded_state(state: PluginState) -> PluginState {
    if state == PluginState::Reload { PluginState::Setup } else { state }
}

/// What the client does with its plugins in one frame, plugin by plugin in their order.
pub struct PluginFramePlan {
    /// Call the plugin's `unload` (every plugin that is not idle).
    pub unload: Vec<bool>,
    /// Keep the plugin; the others are removed with their libraries and config entries.
    pub keep: Vec<bool>,
    /// Reload the plugin's library and create a new instance.
    pub reload: Vec<bool>,
    /// Call the plugin's `setup`.
    pub setup: Vec<bool>,
    /// Call `update` of every kept plugin.
    pub update: bool,
    /// State of each kept plugin for the next frame.
    pub next_states: Vec<PluginState>,
}

/// The plan is the one the client follows for plugins in `states`, the reload trigger
/// `trigger` and the `paused` flag.
pub open spec fn plans_frame(plan: PluginFramePlan, states: Seq<PluginState>, trigger: Option<usize>, paused: bool) -> bool {
    &&& plan.unload@.len() == states.len()
    &&& plan.keep@.len() == states.len()
    &&& plan.reload@.len() == states.len()
    &&& plan.setup@.len() == states.len()
    &&& plan.next_states@.len() == states.len()
    &&& plan.update == !paused
    &&& forall|i: int| 0 <= i < states.len() ==> #[trigger] plan_entry(
        plan.unload@, plan.keep@, plan.reload@, plan.setup@, plan.next_states@, states, trigger, paused, i)
}

/// Entry `i` of the plan vectors is what the client does with plugin `i`: unload it unless it is
/// idle, keep it unless it is unloading for good, reload it when marked for reload, set it up
/// when set to set up (reloads included), and leave it idle unless updates are paused.
pub open spec fn plan_entry(
    unload: Seq<bool>,
    keep: Seq<bool>,
    reload: Seq<bool>,
    setup: Seq<bool>,
    next_states: Seq<PluginState>,
    states: Seq<PluginState>,
    trigger: Option<usize>,
    paused: bool,
    i: int,
) -> bool {
    let m: PluginState = marked_state(states, trigger, i);
    let kept: bool = m != PluginState::Unload;
    &&& unload[i] == (m != PluginState::Idle)
    &&& keep[i] == kept
    &&& reload[i] == (kept && m == PluginState::Reload)
    &&& setup[i] == (kept && reloaded_state(m) == PluginState::Setup)
    &&& next_states[i] == (if paused { reloaded_state(m) } else { PluginState::Idle })
}

/// No plugin carries a pending reload into the next frame: a plugin whose library is reloaded
/// in a frame is set up in that frame and, when updates are paused, is left to be set up again
/// rather than reloaded again; with updates running every plugin ends the frame idle. A plugin
/// is reloaded only when it triggered the reload or was already waiting for one.
pub proof fn lemma_reloads_are_not_repeated(
    plan: PluginFramePlan,
    states: Seq<PluginState>,
    trigger: Option<usize>,
    paused: bool,
)
    requires
        plans_frame(plan, states, trigger, paused),
    ensures
        forall|i: int| 0 <= i < states.len() ==> #[trigger] plan.next_states@[i] != PluginState::Reload,
        forall|i: int| 0 <= i < states.len() && #[trigger] plan.reload@[i] ==> {
            &&& (trigger == Some(i as usize) || states[i] == PluginState::Reload)
            &&& plan.setup@[i]
            &&& plan.next_states@[i] == if paused { PluginState::Setup } else { PluginState::Idle }
        },
        !paused ==> forall|i: int| 0 <= i < states.len() ==> #[trigger] plan.next_states@[i] == PluginState::Idle,
{
    assert forall|i: int| 0 <= i < states.len() implies #[trigger] plan.next_states@[i] != PluginState::Reload by {
        assert(plan_entry(plan.unload@, plan.keep@, plan.reload@, plan.setup@, plan.next_states@, states, trigger, paused, i));
    }
    assert forall|i: int| 0 <= i < states.len() && #[trigger] plan.reload@[i] implies {
        &&& (trigger == Some(i as usize) || states[i] == PluginState::Reload)
        &&& plan.setup@[i]
        &&& plan.next_states@[i] == if paused { PluginState::Setup } else { PluginState::Idle }
    } by {
        assert(plan_entry(plan.unload@, plan.keep@, plan.reload@, plan.setup@, plan.next_states@, states, trigger, paused, i));
    }
    assert forall|i: int| !paused && 0 <= i < states.len() implies #[trigger] plan.next_states@[i] == PluginState::Idle by {
        assert(plan_entry(plan.unload@, plan.keep@, plan.reload@, plan.setup@, plan.next_states@, states, trigger, paused, i));
    }
}

/// Internal plugin update decisions: process reloads, setups and updates of hooked in plugins.
/// `trigger` is the first plugin whose reload was triggered this frame, if any.
pub fn plan_plugin_update(states: &Vec<PluginState>, trigger: Option<usize>, paused: bool) -> (plan: PluginFramePlan)
    ensures
        plans_frame(plan, states@, trigger, paused),
{
    let n: usize = states.len();
    let mut unload: Vec<bool> = Vec::new();
    let mut keep: Vec<bool> = Vec::new();
    let mut reload: Vec<bool> = Vec::new();
    let mut setup: Vec<bool> = Vec::new();
    let mut next_states: Vec<PluginState> = Vec::new();
    let mut i: usize = 0;
    while i < n
        invariant
            i <= n,
            n == states@.len(),
            unload@.len() == i,
            keep@.len() == i,
            reload@.len() == i,
            setup@.len() == i,
            next_states@.len() == i,
            forall|j: int| 0 <= j < i ==> #[trigger] plan_entry(
                unload@, keep@, reload@, setup@, next_states@, states@, trigger, paused, j),
        decreases n - i,
    {
        let current: PluginState = states[i];
        let marked: PluginState = match trigger {
            Some(t) => if t == i {
                PluginState::Reload
            } else if current == PluginState::Idle {
                PluginState::Setup
            } else {
                current
            },
            None => current,
        };
        assert(marked == marked_state(states@, trigger, i as int));
        let kept: bool = marked != PluginState::Unload;
        let after_reload: PluginState = if marked == PluginState::Reload { PluginState::Setup } else { marked };
        let ghost u0: Seq<bool> = unload@;
        let ghost k0: Seq<bool> = keep@;
        let ghost r0: Seq<bool> = reload@;
        let ghost s0: Seq<bool> = setup@;
        let ghost n0: Seq<PluginState> = next_states@;
        unload.push(marked != PluginState::Idle);
        keep.push(kept);
        reload.push(kept && marked == PluginState::Reload);
        setup.push(kept && after_reload == PluginState::Setup);
        next_states.push(if paused { after_reload } else { PluginState::Idle });
        assert(unload@[i as int] == (marked != PluginState::Idle));
        assert(keep@[i as int] == kept);
        assert(reload@[i as int] == (kept && marked == PluginState::Reload));
        assert(setup@[i as int] == (kept && reloaded_state(marked) == PluginState::Setup));
        assert(next_states@[i as int] == (if paused { reloaded_state(marked) } else { PluginState::Idle }));
        assert forall|j: int| 0 <= j < i + 1 implies #[trigger] plan_entry(
            unload@, keep@, reload@, setup@, next_states@, states@, trigger, paused, j) by {
            if j < i {
                assert(plan_entry(u0, k0, r0, s0, n0, states@, trigger, paused, j));
                assert(unload@[j] == u0[j]);
                assert(keep@[j] == k0[j]);
                assert(reload@[j] == r0[j]);
                assert(setup@[j] == s0[j]);
                assert(next_states@[j] == n0[j]);
            }
        }
        i = i + 1;
    }
    PluginFramePlan { unload, keep, reload, setup, update: !paused, next_states }
}

/// Frame plans keep the plugin life cycle: removed plugins are neither reloaded nor set up,
/// every plugin set up was unloaded first, a reload sets up every kept plugin again, and
/// unless updates are paused every kept plugin ends the frame idle.
pub proof fn lemma_plugin_frame_cycle(plan: PluginFramePlan, states: Seq<PluginState>, trigger: Option<usize>, paused: bool, i: int)
    requires
        plans_frame(plan, states, trigger, paused),
        0 <= i < states.len(),
    ensures
        !plan.keep@[i] ==> !plan.reload@[i] && !plan.setup@[i],
        plan.setup@[i] ==> plan.unload@[i],
        plan.reload@[i] ==> plan.setup@[i],
        trigger is Some && plan.keep@[i] ==> plan.setup@[i],
        plan.keep@[i] && !paused ==> plan.next_states@[i] == PluginState::Idle,
        plan.keep@[i] && states[i] == PluginState::Idle && trigger is None ==> !plan.unload@[i] && !plan.setup@[i],
{
    assert(plan_entry(plan.unload@, plan.keep@, plan.reload@, plan.setup@, plan.next_states@, states, trigger, paused, i));
}

/// A window placement is recorded when it is on screen (positive position) and differs from
/// the stored one.
pub open spec fn placement_changed(stored: Option<Rect<i32>>, current: Rect<i32>) -> bool {
    current.x > 0 && current.y > 0 && stored != Some(current)
}

/// Internal function to manage tracking user config values and changes: given the stored main and
/// console window rectangles and their current ones, returns the rectangles to store and whether
/// the config changed (and is to be written to disk).
pub fn update_user_config_windows(stored_main: Rect<i32>, current_main: Rect<i32>, stored_console: Option<Rect<i32>>, current_console: Rect<i32>)
    -> (update: (Rect<i32>, Option<Rect<i32>>, bool))
    ensures
        update.0 == (if placement_changed(Some(stored_main), current_main) { current_main } else { stored_main }),
        update.1 == (if placement_changed(stored_console, current_console) { Some(current_console) } else { stored_console }),
        update.2 == (placement_changed(Some(stored_main), current_main) || placement_changed(stored_console, current_console)),
{
    let mut invalidated: bool = false;
    let mut main: Rect<i32> = stored_main;
    if current_main.x > 0 && current_main.y > 0 && stored_main != current_main {
        main = current_main;
        invalidated = true;
    }
    let mut console: Option<Rect<i32>> = stored_console;
    match stored_console {
        Some(console_rect) => {
            if current_console.x > 0 && current_console.y > 0 && console_rect != current_console {
                console = Some(current_console);
                invalidated = true;
            }
        },
        None => {
            if current_console.x > 0 && current_console.y > 0 {
                console = Some(current_console);
                invalidated = true;
            }
        },
    }
    (main, console, invalidated)
}

} // verus!
