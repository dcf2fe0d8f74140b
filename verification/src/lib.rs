//! A development loop for plugins of a terminal workspace.
//!
//! A shortcut starts the build of the plugin in the chosen directory; when
//! the build has succeeded, the host loads what it produced. The shortcut is
//! kept bound while the controller's tab is in focus, and the controller
//! closes when the pane that hosts the plugin does.
//!
//! Nothing in here talks to the host. Each handler takes what the host
//! reported as plain values and returns the [`instruction::Instruction`]s to
//! carry out.

pub mod controller_laws;
pub mod host;
pub mod instruction;
pub mod panel;
pub mod path_resolver;
pub mod request_correlator;
pub mod run_and_reload;
pub mod search;
pub mod shortcut;
pub mod state;
pub mod text;
pub mod update_workspace;
pub mod workspace_laws;
