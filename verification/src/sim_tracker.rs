//! Simulation state tracking: the Running/Paused mode machine, the
//! per-feature debug visibility flags and the family of independent cooldown
//! gates that debounce pause requests, manual steps, debug toggles, spawn
//! permission and the physics-step cadence.
//!
//! A denied request is a normal, silently ignored outcome: every gated
//! operation reports `false` and leaves the state untouched when its gate is
//! still closed, and is safe to retry on the next frame.

use crate::cooldown::Cooldown;
use vstd::prelude::*;

verus! {

/// Visibility of one debug overlay feature.
#[derive(Clone, Copy, Debug, PartialEq, Eq, Structural)]
pub enum ShowDebug {
    Visible,
    Hidden,
}

impl Default for ShowDebug {
    /// A debug feature starts hidden unless the tracker says otherwise.
    fn default() -> (d: Self)
        ensures
            d == ShowDebug::Hidden,
    {
        ShowDebug::Hidden
    }
}

impl ShowDebug {
    /// The flag with its visibility flipped.
    pub open spec fn toggled(self) -> ShowDebug {
        match self {
            ShowDebug::Visible => ShowDebug::Hidden,
            ShowDebug::Hidden => ShowDebug::Visible,
        }
    }

    /// Flip the visibility of this flag.
    pub fn toggle(&mut self)
        ensures
            *final(self) == old(self).toggled(),
    {
        match self {
            ShowDebug::Visible => *self = ShowDebug::Hidden,
            ShowDebug::Hidden => *self = ShowDebug::Visible,
        }
    }
}

/// Whether the simulation advances on its own each tick or stands still.
#[derive(Clone, Copy, Debug, PartialEq, Eq, Structural)]
pub enum SimulationMode {
    Running,
    Paused,
}

impl Default for SimulationMode {
    /// A fresh simulation runs until a pause is requested.
    fn default() -> (m: Self)
        ensures
            m == SimulationMode::Running,
    {
        SimulationMode::Running
    }
}

impl SimulationMode {
    /// The mode after a pause/resume transition.
    pub open spec fn toggled(self) -> SimulationMode {
        match self {
            SimulationMode::Running => SimulationMode::Paused,
            SimulationMode::Paused => SimulationMode::Running,
        }
    }

    /// Switch between Running and Paused.
    pub fn toggle(&mut self)
        ensures
            *final(self) == old(self).toggled(),
    {
        match self {
            SimulationMode::Running => *self = SimulationMode::Paused,
            SimulationMode::Paused => *self = SimulationMode::Running,
        }
    }
}

/// Names one of the independent debug visibility switches. All four share a
/// single debounce gate, so rapid multi-key input registers at most one
/// toggle per debounce window.
#[derive(Clone, Copy, Debug, PartialEq, Eq, Structural)]
pub enum DebugFeature {
    Information,
    CollisionPoints,
    Hitboxes,
    Grid,
}

/// Default minimum interval between two debug-flag toggles, in microseconds.
pub const DEBUG_TIMEOUT_MICROS: u64 = 250_000;

/// Default minimum interval between two input-driven spawns, in microseconds.
pub const SPAWN_TIMEOUT_MICROS: u64 = 150_000;

/// Default minimum interval between two pause toggles, in microseconds.
pub const PAUSE_TIMEOUT_MICROS: u64 = 250_000;

/// Default minimum interval between two manual steps, in microseconds.
pub const UPDATE_TIMEOUT_MICROS: u64 = 250_000;

/// Default physics-step cadence (64 steps per second), in microseconds.
pub const TICK_TIMEOUT_MICROS: u64 = 15_625;

/// Per-frame bookkeeping of an interactive simulation: its mode, its debug
/// overlay flags, one cooldown gate per debounced action, and running
/// statistics over the applied physics steps.
pub struct SimulationState {
    /// Visibility of the information overlay.
    pub debug_information: ShowDebug,
    /// Visibility of the collision-point markers.
    pub collision_points: ShowDebug,
    /// Visibility of the hitbox outlines.
    pub hitboxes: ShowDebug,
    /// Visibility of the debug grid.
    pub debug_grid: ShowDebug,
    /// Whether the simulation advances on its own.
    pub simulation: SimulationMode,
    /// Shared gate for all debug-flag toggles.
    pub debug_cooldown: Cooldown,
    /// Gate for input-driven spawning.
    pub spawn_cooldown: Cooldown,
    /// Cadence gate for automatic physics steps.
    pub tick_cooldown: Cooldown,
    /// Gate for pause/resume toggling.
    pub pause_cooldown: Cooldown,
    /// Gate for manual single-stepping while paused.
    pub update_cooldown: Cooldown,
    /// Number of physics steps applied so far.
    pub nr_of_updates: u32,
    /// Largest observed cost of a single step, in microseconds.
    pub max_update_duration: u64,
}

impl SimulationState {
    /// The state a fresh tracker starts in: running, information overlay
    /// visible, every other flag hidden, every gate open, statistics zeroed.
    pub open spec fn initial(tick_timeout: u64) -> SimulationState {
        SimulationState {
            debug_information: ShowDebug::Visible,
            collision_points: ShowDebug::Hidden,
            hitboxes: ShowDebug::Hidden,
            debug_grid: ShowDebug::Hidden,
            simulation: SimulationMode::Running,
            debug_cooldown: Cooldown { last_fired: None, interval: DEBUG_TIMEOUT_MICROS },
            spawn_cooldown: Cooldown { last_fired: None, interval: SPAWN_TIMEOUT_MICROS },
            tick_cooldown: Cooldown { last_fired: None, interval: tick_timeout },
            pause_cooldown: Cooldown { last_fired: None, interval: PAUSE_TIMEOUT_MICROS },
            update_cooldown: Cooldown { last_fired: None, interval: UPDATE_TIMEOUT_MICROS },
            nr_of_updates: 0,
            max_update_duration: 0,
        }
    }

    /// A fresh tracker whose physics-step cadence is `tick_timeout`
    /// microseconds.
    pub fn new(tick_timeout: u64) -> (s: SimulationState)
        ensures
            s == SimulationState::initial(tick_timeout),
    {
        SimulationState {
            debug_information: ShowDebug::Visible,
            collision_points: ShowDebug::Hidden,
            hitboxes: ShowDebug::Hidden,
            debug_grid: ShowDebug::Hidden,
            simulation: SimulationMode::Running,
            debug_cooldown: Cooldown::new(DEBUG_TIMEOUT_MICROS),
            spawn_cooldown: Cooldown::new(SPAWN_TIMEOUT_MICROS),
            tick_cooldown: Cooldown::new(tick_timeout),
            pause_cooldown: Cooldown::new(PAUSE_TIMEOUT_MICROS),
            update_cooldown: Cooldown::new(UPDATE_TIMEOUT_MICROS),
            nr_of_updates: 0,
            max_update_duration: 0,
        }
    }
}

impl Default for SimulationState {
    /// A fresh tracker at the default 64 steps-per-second cadence.
    fn default() -> (s: Self)
        ensures
            s == SimulationState::initial(TICK_TIMEOUT_MICROS),
    {
        SimulationState::new(TICK_TIMEOUT_MICROS)
    }
}

impl SimulationState {
    /// The current visibility of the named debug feature.
    pub open spec fn flag_of(self, feature: DebugFeature) -> ShowDebug {
        match feature {
            DebugFeature::Information => self.debug_information,
            DebugFeature::CollisionPoints => self.collision_points,
            DebugFeature::Hitboxes => self.hitboxes,
            DebugFeature::Grid => self.debug_grid,
        }
    }

    /// The state with the named debug feature set to `v` and all else kept.
    pub open spec fn with_flag(self, feature: DebugFeature, v: ShowDebug) -> SimulationState {
        match feature {
            DebugFeature::Information => SimulationState { debug_information: v, ..self },
            DebugFeature::CollisionPoints => SimulationState { collision_points: v, ..self },
            DebugFeature::Hitboxes => SimulationState { hitboxes: v, ..self },
            DebugFeature::Grid => SimulationState { debug_grid: v, ..self },
        }
    }

    /// An automatic physics step is due: the simulation is running and the
    /// step cadence interval has elapsed since the last applied step.
    pub open spec fn step_due(self, now: u64) -> bool {
        self.simulation is Running && self.tick_cooldown.ready(now)
    }

    /// A manual single step may be granted: only while paused, and only once
    /// the manual-step gate is open.
    pub open spec fn manual_step_allowed(self, now: u64) -> bool {
        self.simulation is Paused && self.update_cooldown.ready(now)
    }

    /// The state after a granted pause toggle at `now`.
    pub open spec fn after_pause_toggle(self, now: u64) -> SimulationState {
        SimulationState {
            simulation: self.simulation.toggled(),
            pause_cooldown: self.pause_cooldown.fired(now),
            ..self
        }
    }

    /// One pause request: a toggle when the pause cooldown is open, a no-op
    /// otherwise.
    pub open spec fn pause_request_step(self, now: u64) -> SimulationState {
        if self.pause_cooldown.ready(now) {
            self.after_pause_toggle(now)
        } else {
            self
        }
    }

    /// The state after a granted debug toggle of `feature` at `now`.
    pub open spec fn after_debug_toggle(self, feature: DebugFeature, now: u64) -> SimulationState {
        let flipped = self.with_flag(feature, self.flag_of(feature).toggled());
        SimulationState { debug_cooldown: self.debug_cooldown.fired(now), ..flipped }
    }

    /// The state after one applied physics step of the given cost is
    /// recorded at `now`.
    pub open spec fn after_record_step(self, duration: u64, now: u64) -> SimulationState {
        SimulationState {
            nr_of_updates: (self.nr_of_updates + 1) as u32,
            max_update_duration: if duration > self.max_update_duration {
                duration
            } else {
                self.max_update_duration
            },
            tick_cooldown: self.tick_cooldown.fired(now),
            ..self
        }
    }

    /// May a pause toggle fire at `now`?
    pub fn is_pausable(&self, now: u64) -> (r: bool)
        ensures
            r == self.pause_cooldown.ready(now),
    {
        self.pause_cooldown.is_ready(now)
    }

    /// May an input-driven spawn fire at `now`?
    pub fn is_spawnable(&self, now: u64) -> (r: bool)
        ensures
            r == self.spawn_cooldown.ready(now),
    {
        self.spawn_cooldown.is_ready(now)
    }

    /// May a debug flag be toggled at `now`?
    pub fn debug_toggable(&self, now: u64) -> (r: bool)
        ensures
            r == self.debug_cooldown.ready(now),
    {
        self.debug_cooldown.is_ready(now)
    }

    /// Is an automatic physics step due at `now`? Pure query: the caller
    /// applies the step and then reports it through `record_step`.
    pub fn update_required(&self, now: u64) -> (r: bool)
        ensures
            r == self.step_due(now),
    {
        match self.simulation {
            SimulationMode::Running => self.tick_cooldown.is_ready(now),
            SimulationMode::Paused => false,
        }
    }

    /// Is the manual-step gate open at `now`? The mode is checked separately
    /// by `request_manual_step`.
    pub fn atomic_update_allowed(&self, now: u64) -> (r: bool)
        ensures
            r == self.update_cooldown.ready(now),
    {
        self.update_cooldown.is_ready(now)
    }

    /// Debounced pause/resume request. Flips the mode and arms the pause
    /// cooldown when it is open; otherwise reports `false` and leaves the
    /// state untouched, so at most one toggle fires per debounce window no
    /// matter how many consecutive frames assert the request.
    pub fn request_pause_toggle(&mut self, now: u64) -> (toggled: bool)
        ensures
            toggled == old(self).pause_cooldown.ready(now),
            *final(self) == old(self).pause_request_step(now),
            toggled ==> final(self).simulation == old(self).simulation.toggled(),
            !toggled ==> *final(self) == *old(self),
    {
        if self.pause_cooldown.is_ready(now) {
            self.simulation.toggle();
            self.pause_cooldown.fire(now);
            true
        } else {
            false
        }
    }

    /// Debounced manual-step request: granted only while paused and only
    /// once the manual-step gate is open, so stepping by hand is impossible
    /// while the simulation already advances on its own. On success the
    /// caller is authorized to apply exactly one physics step and must
    /// report it through `record_step`.
    pub fn request_manual_step(&mut self, now: u64) -> (granted: bool)
        ensures
            granted == old(self).manual_step_allowed(now),
            granted ==> *final(self) == (SimulationState {
                update_cooldown: old(self).update_cooldown.fired(now),
                ..*old(self)
            }),
            !granted ==> *final(self) == *old(self),
    {
        match self.simulation {
            SimulationMode::Paused => {
                if self.update_cooldown.is_ready(now) {
                    self.update_cooldown.fire(now);
                    true
                } else {
                    false
                }
            },
            SimulationMode::Running => false,
        }
    }

    /// Debounced debug toggle: flips exactly the named feature's visibility
    /// and arms the shared debug gate, or reports `false` and changes
    /// nothing. The debounce cooldown is shared across all features: rapid
    /// multi-key input cannot toggle several flags within one window.
    pub fn request_debug_toggle(&mut self, feature: DebugFeature, now: u64) -> (toggled: bool)
        ensures
            toggled == old(self).debug_cooldown.ready(now),
            toggled ==> *final(self) == old(self).after_debug_toggle(feature, now),
            !toggled ==> *final(self) == *old(self),
    {
        if self.debug_cooldown.is_ready(now) {
            match feature {
                DebugFeature::Information => self.debug_information.toggle(),
                DebugFeature::CollisionPoints => self.collision_points.toggle(),
                DebugFeature::Hitboxes => self.hitboxes.toggle(),
                DebugFeature::Grid => self.debug_grid.toggle(),
            }
            self.debug_cooldown.fire(now);
            true
        } else {
            false
        }
    }

    /// Account for one applied physics step: advance the step counter, fold
    /// the observed cost into the running maximum and restart the step
    /// cadence at `now`. Side effect only, no failure mode.
    pub fn record_step(&mut self, duration: u64, now: u64)
        requires
            old(self).nr_of_updates < u32::MAX,
        ensures
            *final(self) == old(self).after_record_step(duration, now),
            final(self).nr_of_updates == old(self).nr_of_updates + 1,
            final(self).max_update_duration >= old(self).max_update_duration,
            final(self).max_update_duration >= duration,
    {
        self.nr_of_updates = self.nr_of_updates + 1;
        if duration > self.max_update_duration {
            self.max_update_duration = duration;
        }
        self.tick_cooldown.fire(now);
    }

    /// Account for an input-driven spawn that actually occurred: restart the
    /// spawn gate at `now`.
    pub fn record_spawn(&mut self, now: u64)
        ensures
            *final(self) == (SimulationState {
                spawn_cooldown: old(self).spawn_cooldown.fired(now),
                ..*old(self)
            }),
    {
        self.spawn_cooldown.fire(now);
    }
}

/// The state after a whole run of pause requests, one per frame, at the
/// given times.
pub open spec fn after_pause_requests(s: SimulationState, ts: Seq<u64>) -> SimulationState
    decreases ts.len(),
{
    if ts.len() == 0 {
        s
    } else {
        after_pause_requests(s.pause_request_step(ts[0]), ts.drop_first())
    }
}

/// Helper for the debouncing law: a run of pause requests that all find the
/// gate closed changes nothing at all.
pub proof fn lemma_pause_requests_noop(s: SimulationState, ts: Seq<u64>)
    requires
        forall|i: int| 0 <= i < ts.len() ==> !s.pause_cooldown.ready(#[trigger] ts[i]),
    ensures
        after_pause_requests(s, ts) == s,
    decreases ts.len(),
{
    if ts.len() > 0 {
        assert(s.pause_request_step(ts[0]) == s);
        assert(forall|i: int|
            0 <= i < ts.drop_first().len() ==> !s.pause_cooldown.ready(
                #[trigger] ts.drop_first()[i],
            ));
        lemma_pause_requests_noop(s, ts.drop_first());
    }
}

/// Pause toggling is idempotent under rapid repeated requests: a run of
/// consecutive pause requests whose times all fall within one debounce
/// window of the first, which finds the pause cooldown open, toggles the
/// mode exactly once and re-arms the cooldown at the first request's time.
pub proof fn lemma_pause_requests_toggle_once(s: SimulationState, ts: Seq<u64>)
    requires
        ts.len() >= 1,
        s.pause_cooldown.ready(ts[0]),
        forall|i: int|
            0 <= i < ts.len() ==> ts[0] <= #[trigger] ts[i] < ts[0] + s.pause_cooldown.interval,
    ensures
        after_pause_requests(s, ts) == (SimulationState {
            simulation: s.simulation.toggled(),
            pause_cooldown: s.pause_cooldown.fired(ts[0]),
            ..s
        }),
{
    let s1 = s.pause_request_step(ts[0]);
    assert(s1 == s.after_pause_toggle(ts[0]));
    assert(forall|i: int|
        0 <= i < ts.drop_first().len() ==> !s1.pause_cooldown.ready(
            #[trigger] ts.drop_first()[i],
        ));
    lemma_pause_requests_noop(s1, ts.drop_first());
}

/// A manual step is allowed exactly when the simulation is paused and the
/// manual-step gate is open; in particular it is never allowed while the
/// simulation is running.
pub proof fn lemma_manual_step_only_when_paused(s: SimulationState, now: u64)
    ensures
        s.manual_step_allowed(now) <==> (s.simulation is Paused && s.update_cooldown.ready(now)),
        s.simulation is Running ==> !s.manual_step_allowed(now),
{
}

/// The state after a whole run of recorded steps, each a (duration, time)
/// pair, in order.
pub open spec fn after_record_steps(s: SimulationState, steps: Seq<(u64, u64)>) -> SimulationState
    decreases steps.len(),
{
    if steps.len() == 0 {
        s
    } else {
        after_record_steps(s.after_record_step(steps[0].0, steps[0].1), steps.drop_first())
    }
}

/// The running maximum of observed step costs never decreases, across any
/// sequence of recorded steps.
pub proof fn lemma_max_update_duration_monotone(s: SimulationState, steps: Seq<(u64, u64)>)
    ensures
        after_record_steps(s, steps).max_update_duration >= s.max_update_duration,
    decreases steps.len(),
{
    if steps.len() > 0 {
        lemma_max_update_duration_monotone(
            s.after_record_step(steps[0].0, steps[0].1),
            steps.drop_first(),
        );
    }
}

} // verus!
