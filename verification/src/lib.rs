//! Coordination core of a display-head agent: it turns bus commands into
//! launch, focus and terminate instructions and keeps one scene in front.
//!
//! The two state machines are [`app_manager::AppManager`], the orchestrator,
//! and [`mqtt_handler::MQTTHandler`], the bus session. Neither does any input
//! or output: the caller hands events in and carries the returned actions
//! out. [`sdl_manager::SDLManager`] is the registry of running scenes,
//! [`wire`] the bus's topics and bodies, [`debug_scene`] and [`idle_scene`]
//! what the built-in scenes show. [`focus`] and [`history`] hold what is
//! proved of the orchestrator over whole runs.

pub mod app_manager;
pub mod command;
pub mod debug_scene;
pub mod error;
pub mod focus;
pub mod history;
pub mod identity;
pub mod idle_scene;
pub mod json;
pub mod layout;
pub mod mqtt_handler;
pub mod sdl_manager;
pub mod text;
pub mod wire;
