//! Frame-loop scheduling for an interactive physics simulation: a simulation
//! state tracker whose debounced, cooldown-gated triggers decide once per
//! frame whether the simulation steps, whether a user request is acted on and
//! whether a pending spawn fires, together with timed spawners that emit a
//! finite supply of entities and then stay exhausted.
//!
//! Every gated operation takes the current timestamp as an explicit
//! parameter, so each decision is a pure function of state and time and can
//! be driven by any monotonic clock.

pub mod cooldown;
pub mod sim_tracker;
pub mod spawner;

pub use cooldown::Cooldown;
pub use sim_tracker::DebugFeature;
pub use sim_tracker::ShowDebug;
pub use sim_tracker::SimulationMode;
pub use sim_tracker::SimulationState;
pub use spawner::BodySpawner;
pub use spawner::SpawnedBody;
pub use spawner::SpawnerType;
