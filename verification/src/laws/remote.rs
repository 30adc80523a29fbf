//! Connections to other machines: how many there are, and for whom.
use std::sync::Arc;
use vstd::prelude::*;

use crate::authority::RemoteAgentSpec;
use crate::editor::EditorModel;
use crate::editor::RemoteModel;
use crate::effects::Effect;
use crate::effects::EffectModel;
use crate::effects::RemoteAttachOwner;
use crate::effects::RemoteInitialState;
use crate::ids::WindowId;

verus! {

/// Whether every attempt to connect has a number that was given out.
pub open spec fn attempts_are_numbered(remote: RemoteModel) -> bool {
    forall|k: u64| #[trigger] remote.attempts.contains_key(k) ==> k < remote.next_attempt
}

/// Every attempt to connect gets a number that no other has, so that what
/// becomes of one never reaches another.
pub proof fn an_attempt_has_a_number_of_its_own(
    editor: EditorModel,
    owner: RemoteAttachOwner,
    other: u64,
)
    requires
        attempts_are_numbered(editor.remote),
        editor.attempting(owner) is Some,
    ensures
        ({
            let (attempt, begun) = editor.attempting(owner)->0;
            &&& !editor.remote.attempts.contains_key(attempt)
            &&& begun.remote.attempts.contains_key(attempt)
            &&& begun.remote.attempts[attempt] == owner
            &&& editor.remote.attempts.contains_key(other) ==> begun.remote.attempts.contains_key(
                other,
            ) && begun.remote.attempts[other] == editor.remote.attempts[other]
            &&& attempts_are_numbered(begun.remote)
        }),
{
}

/// A window is reconnected once at a time, and can be reconnected again when
/// that was given up.
pub proof fn a_window_reconnects_once_at_a_time(editor: EditorModel, window: WindowId)
    ensures
        ({
            let owner = RemoteAttachOwner::Reconnect { window };
            &&& editor.attempting(owner) matches Some((attempt, begun))
                ==> begun.attempting(owner) is None
            &&& !editor.reconnect_cancelled(window).reconnect_inflight(window)
        }),
{
}

/// A session that claims an identity which cannot be checked is never
/// connected.
pub proof fn a_doubtful_identity_is_never_connected(
    editor: EditorModel,
    spec: Arc<RemoteAgentSpec>,
    owner: RemoteAttachOwner,
    activate: bool,
    initial_state: Option<RemoteInitialState>,
    i: int,
)
    requires
        spec.identity is Invalid,
        editor.outbox.len() <= i < editor.connecting(
            spec,
            owner,
            activate,
            initial_state,
        ).outbox.len(),
    ensures
        !(editor.connecting(spec, owner, activate, initial_state).outbox[i] matches
            EffectModel::Plain(Effect::Connect { .. })),
{
    reveal(EditorModel::connecting);
}

} // verus!
