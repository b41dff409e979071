//! A small interactive-application runtime: an event-delivery core, a
//! fixed-timestep update/render scheduler, and a stack-based application-state
//! machine, composed through a builder that also loads ordered setup plugins.
//!
//! Every component carries a contract describing exactly what it does, and the
//! central laws of the runtime (FIFO event delivery, the terminal behaviour of
//! the event loop, the tick budget of the fixed-update scheduler, the stack
//! transition semantics, and the bracketing of user logic by stage callbacks)
//! are stated and proved alongside the code.

pub mod context;
pub mod engine;
pub mod event_loop;
pub mod events;
pub mod logging;
pub mod plugin;
pub mod schedulers;
pub mod stage;
pub mod state;
pub mod window;

pub use context::{Context, ContextBuilder, GameLoopContext};
pub use engine::{
    run_engine, run_engine_passes, DefaultEngineCore, Engine, EngineBuilder, EngineCore, WolfEngine, WolfEngineBuilder,
};
pub use event_loop::EventLoop;
pub use events::{Event, EventQueue, EventSender};
pub use logging::{LogLevel, LogTarget, Logger};
pub use plugin::{Plugin, PluginLoader, PluginResult};
pub use schedulers::{FixedUpdateScheduler, FixedUpdateSchedulerBuilder, Scheduler};
pub use stage::{EmptyCallback, Stage, StageCallback, StageCallbacks};
pub use state::{EmptyState, OptionalTransition, RenderResult, State, StateStack, Transition};
pub use window::{FullscreenMode, WindowSettings};
