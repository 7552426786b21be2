//! The decisions of the thread that sends pending changes to the MIDI output.
use crate::model::{
    spec_has_dirty, spec_retry, spec_take_next_message, DirtyKind, PendingMessage, State,
    StateView, PARAMETER_SLOTS,
};
use vstd::prelude::*;

verus! {

/// Milliseconds the sender waits after a delivered message, so that each instance sends at
/// most one message about every 25 ms.
pub const SENT_DELAY_MS: u64 = 25;

/// Milliseconds the sender waits after a failed send before trying again.
pub const RETRY_DELAY_MS: u64 = 5;

/// Milliseconds the sender waits when it has nothing to send.
pub const IDLE_DELAY_MS: u64 = 5;

/// What one poll of the sender gives: the output and the message taken, with the state and
/// round-robin position after taking it, when an output other than "None" that exists is
/// selected and a change is pending; nothing, with everything as it was, otherwise.
pub open spec fn spec_sender_poll(s: StateView, next: usize, output_count: usize) -> (
    Option<(usize, Seq<u8>, DirtyKind)>,
    StateView,
    usize,
) {
    let output = s.output_index;
    if 0 < output < output_count && spec_has_dirty(s) {
        let (message, t, n) = spec_take_next_message(s, next);
        (
            match message {
                Some((bytes, kind)) => Some((output, bytes, kind)),
                None => None,
            },
            t,
            n,
        )
    } else {
        (None, s, next)
    }
}

/// The state after a send of a message of kind `kind` finished, and how long the sender
/// waits: as it was and [`SENT_DELAY_MS`] when delivered; with the change pending again and
/// [`RETRY_DELAY_MS`] when not.
pub open spec fn spec_sender_complete(s: StateView, kind: DirtyKind, delivered: bool) -> (StateView, u64) {
    if delivered {
        (s, SENT_DELAY_MS)
    } else {
        (spec_retry(s, kind), RETRY_DELAY_MS)
    }
}

/// The next message to send and the output to send it to: only when an output other than
/// "None" that exists is selected and a change is pending. Nothing changes otherwise.
pub fn sender_poll(state: &mut State, next_parameter: &mut usize, output_count: usize) -> (r: Option<
    (usize, PendingMessage),
>)
    requires
        old(state)@.wf(),
    ensures
        final(state)@.wf(),
        ({
            let (polled, t, next) = spec_sender_poll(old(state)@, *old(next_parameter), output_count);
            &&& match r {
                Some((output, message)) => polled == Some((output, message.bytes@, message.kind)),
                None => polled is None,
            }
            &&& final(state)@ == t
            &&& *final(next_parameter) == next
        }),
{
    let output = state.output_index();
    if output > 0 && output < output_count && state.has_dirty() {
        match state.take_next_message(next_parameter) {
            Some(message) => Some((output, message)),
            None => None,
        }
    } else {
        None
    }
}

/// Finishes a send: a delivered message is done and the sender waits [`SENT_DELAY_MS`]; a
/// failed one makes its change pending again and the sender waits [`RETRY_DELAY_MS`].
pub fn sender_complete(state: &mut State, kind: DirtyKind, delivered: bool) -> (r: u64)
    requires
        old(state)@.wf(),
        kind matches DirtyKind::Parameter(index) ==> index < PARAMETER_SLOTS,
    ensures
        final(state)@.wf(),
        (final(state)@, r) == spec_sender_complete(old(state)@, kind, delivered),
{
    if delivered {
        SENT_DELAY_MS
    } else {
        state.retry(kind);
        RETRY_DELAY_MS
    }
}

} // verus!
