//! Identifiers. Each wraps one integer, which is also its key in a map.
use vstd::prelude::*;

verus! {

/// A buffer. Ids are unique across all windows of one editor.
#[derive(Clone, Copy, Debug, PartialEq, Eq, Hash, Structural)]
pub struct BufferId(pub u64);

/// A node of a split tree.
#[derive(Clone, Copy, Debug, PartialEq, Eq, Hash, Structural)]
pub struct SplitId(pub u64);

/// A split node that is known to be a leaf.
#[derive(Clone, Copy, Debug, PartialEq, Eq, Hash, Structural)]
pub struct LeafId(pub SplitId);

/// A terminal, unique within its window.
#[derive(Clone, Copy, Debug, PartialEq, Eq, Hash, Structural)]
pub struct TerminalId(pub u64);

/// A window (an editing session with its own root directory).
#[derive(Clone, Copy, Debug, PartialEq, Eq, Hash, Structural)]
pub struct WindowId(pub u64);

/// A terminal together with the window that owns it.
#[derive(Clone, Copy, Debug, PartialEq, Eq, Hash, Structural)]
pub struct WindowTerminalId {
    pub window: WindowId,
    pub terminal: TerminalId,
}

/// A pending promise in the plugin runtime.
#[derive(Clone, Copy, Debug, PartialEq, Eq, Hash, Structural)]
pub struct JsCallbackId(pub u64);

/// One load of one plugin.
#[derive(Clone, Copy, Debug, PartialEq, Eq, Hash, Structural)]
pub struct PluginInstanceId(pub u64);

/// The identity of a window's execution backend, new for every installed one.
#[derive(Clone, Copy, Debug, PartialEq, Eq, Hash, Structural)]
pub struct AuthorityStamp(pub u64);

impl WindowTerminalId {
    /// Names `terminal` of `window`.
    pub fn new(window: WindowId, terminal: TerminalId) -> (id: WindowTerminalId)
        ensures
            id == (WindowTerminalId { window, terminal }),
    {
        WindowTerminalId { window, terminal }
    }
}

} // verus!
