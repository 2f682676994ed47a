//! Live configuration core of a tiling window manager: the runtime settings
//! store, the identifier rule registry, the focus border overlay and the
//! reconciliation of a static configuration document with live state.

pub mod geometry;
pub mod rules;
pub mod patterns;
pub mod laws_rules;
pub mod registry;
pub mod options;
pub mod settings;
pub mod config;
pub mod manager;
pub mod reconcile;
pub mod border;
pub mod snapshot;
