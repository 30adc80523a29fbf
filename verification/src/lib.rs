//! The verified core of a multi-window terminal editor: plugin command
//! dispatch, workspace windows, terminal mouse routing and process groups.
//!
//! The core holds the editor's state as plain values. An operation that needs
//! the outside world (a PTY, a hook, a file) appends an effect to the
//! editor's outbox, or is split at that point into stages which the host runs
//! in turn.

pub mod action_run;
pub mod artifacts;
pub mod authority;
pub mod buffer_text;
pub mod command;
pub mod dispatch;
pub mod documents;
pub mod dormant;
pub mod editor;
pub mod editor_snapshot;
pub mod effects;
pub mod extraction;
pub mod extraction_run;
pub mod extraction_steps;
pub mod floating;
pub mod geometry;
pub mod handle_command;
pub mod ids;
pub mod json;
pub mod laws;
pub mod lists;
pub mod markers;
pub mod membership;
pub mod mouse;
pub mod notice;
pub mod panel_handlers;
pub mod permissions;
pub mod persistence;
pub mod plugin_lifecycle;
pub mod plugin_path;
pub mod popups;
pub mod process_group;
pub mod processes;
pub mod queries;
pub mod remote;
pub mod session_handlers;
pub mod snapshot;
pub mod terminal_create;
pub mod terminal_grid;
pub mod terminal_life;
pub mod terminal_mouse;
pub mod terminal_window;
pub mod terminals;
pub mod text;
pub mod text_map;
pub mod timers;
pub mod transfer;
pub mod ui_handlers;
pub mod variant_name;
pub mod virtual_buffer;
pub mod widgets;
pub mod window;
pub mod window_snapshot;
pub mod windows;
