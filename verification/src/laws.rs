//! What holds of the library as a whole: laws that relate several operations,
//! each proved from what the operations state.
pub mod actions;
pub mod commands;
pub mod dispatch;
pub mod extraction;
pub mod forwarding;
pub mod grids;
pub mod homes;
pub mod leaves;
pub mod lifecycle;
pub mod markers;
pub mod mouse;
pub mod panels;
pub mod placement;
pub mod privileges;
pub mod processes;
pub mod remote;
pub mod routes;
pub mod sessions;
pub mod snapshots;
pub mod timers;
pub mod transfer;
pub mod views;
pub mod windows;
