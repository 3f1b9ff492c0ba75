//! A turn-based command assistant: the engine that classifies a backend's
//! suggestion, gates it behind confirmation, plans tool work and keeps the
//! conversation history, with every rule stated as a contract.

pub mod backend;
pub mod cli;
pub mod config;
pub mod error;
pub mod execution;
pub mod executor;
pub mod gate;
pub mod history;
pub mod interpreter;
pub mod io;
pub mod managers;
pub mod media;
pub mod params;
pub mod pattern;
pub mod plan;
pub mod plugin;
pub mod registry;
pub mod scan;
pub mod session;
pub mod settings;
pub mod sorting;
pub mod schema;
pub mod text;
pub mod theme;
pub mod tool;
pub mod tools;
