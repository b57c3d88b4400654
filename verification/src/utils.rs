//! The dispatcher.

use vstd::prelude::*;

use crate::transitions::{PracticeSessionState, SessionStates};
use crate::views::{Call, KEY_COUNT};

verus! {

/// Runs, once, the entry behaviour of the state that `state` is in.
///
/// `Waiting` and `Resting` have none. `RequestingNewKey` picks a key at
/// random. `Working` and `SkippingKey` change the repetitions of the current
/// key; when no key is current they leave the data as it is, and the machine
/// falls back to `RequestingNewKey`, so that the next run picks a key.
/// `Finishing` stores the receipt and then clears the session for reuse: the
/// receipt is all that survives, and the state tag stays `Finishing`.
pub fn match_states(state: &mut PracticeSessionState)
    requires
        old(state)@.wf(),
        old(state)@.counter_fits(),
    ensures
        exists|index: int|
            0 <= index < KEY_COUNT && final(state)@ == #[trigger] old(state)@.after(
                Call::Dispatch { index },
            ),
        final(state)@.wf(),
{
    match state.session_state {
        SessionStates::RequestingNewKey => {
            state.requesting_new_key();
            proof {
                let index = choose|index: int|
                    0 <= index < KEY_COUNT && state@ == #[trigger] old(state)@.requesting_new_key(
                        index,
                    );
                assert(state@ == old(state)@.after(Call::Dispatch { index }));
            }
        },
        SessionStates::SkippingKey => {
            state.skipping_key();
            assert(state@ == old(state)@.after(Call::Dispatch { index: 0 }));
        },
        SessionStates::Working => {
            state.working();
            assert(state@ == old(state)@.after(Call::Dispatch { index: 0 }));
        },
        SessionStates::Resting => {
            assert(state@ == old(state)@.after(Call::Dispatch { index: 0 }));
        },
        SessionStates::Finishing => {
            state.finishing();
            state.session_data = state.session_data.clone().reset();
            assert(state@ == old(state)@.after(Call::Dispatch { index: 0 }));
        },
        SessionStates::Waiting => {
            assert(state@ == old(state)@.after(Call::Dispatch { index: 0 }));
        },
    }
}

} // verus!
