//! The session's state machine.
//!
//! A transition (`to_...`) changes the state tag and, for the states whose
//! duration is measured, records the time of entry. It never runs the entry
//! behaviour of the state it leads to: that is the other half of the methods
//! here, and the dispatcher of [`crate::utils`] picks the one that belongs to
//! the current state.
//!
//! No transition looks at the state it is called in: whatever is called,
//! runs. Which requests make sense in which state is for the host to ask of
//! [`crate::controls`].

use vstd::prelude::*;

use crate::models::PracticeSessionData;
use crate::views::{
    note_names, Call, MachineView, FINISHING, KEY_COUNT, REQUESTING_NEW_KEY, RESTING, WORKING,
};

verus! {

/// Where the session is. Exactly one state is current at any time.
#[derive(Debug, Clone, Copy, PartialEq, Eq, Structural)]
pub enum SessionStates {
    /// Idle: no timer runs.
    Waiting,
    /// A new current key is about to be picked.
    RequestingNewKey,
    /// The current key is being given up.
    SkippingKey,
    /// The current key is being practised.
    Working,
    /// Practice is paused.
    Resting,
    /// The session is over and its receipt is due.
    Finishing,
}

/// The state machine: the state tag, the session data it governs, and the
/// display names of the twelve keys.
#[derive(Debug)]
pub struct PracticeSessionState {
    pub note_name_list: Vec<String>,
    pub session_state: SessionStates,
    pub session_data: PracticeSessionData,
}

impl View for PracticeSessionState {
    type V = MachineView;

    open spec fn view(&self) -> MachineView {
        MachineView {
            note_names: self.note_name_list.deep_view(),
            state: self.session_state,
            data: self.session_data@,
        }
    }
}

/// A copy of `names`.
fn clone_names(names: &Vec<String>) -> (copy: Vec<String>)
    ensures
        copy.deep_view() == names.deep_view(),
{
    let mut copy: Vec<String> = Vec::new();
    let mut i: usize = 0;
    while i < names.len()
        invariant
            i <= names@.len(),
            copy@.len() == i,
            forall|j: int| 0 <= j < i ==> (#[trigger] copy@[j])@ == names@[j]@,
        decreases names@.len() - i,
    {
        copy.push(names[i].clone());
        i += 1;
    }
    assert(copy.deep_view() =~= names.deep_view());
    copy
}

impl Clone for PracticeSessionState {
    fn clone(&self) -> (copy: PracticeSessionState)
        ensures
            copy@ == self@,
    {
        PracticeSessionState {
            note_name_list: clone_names(&self.note_name_list),
            session_state: self.session_state,
            session_data: self.session_data.clone(),
        }
    }
}

impl Default for PracticeSessionState {
    /// The machine before any transition: waiting, with the data of a fresh
    /// session.
    fn default() -> (machine: PracticeSessionState)
        ensures
            machine@ == MachineView::initial(),
            machine@.wf(),
    {
        let mut names: Vec<String> = Vec::new();
        names.push("C".to_owned());
        names.push("C#".to_owned());
        names.push("D".to_owned());
        names.push("Eb".to_owned());
        names.push("E".to_owned());
        names.push("F".to_owned());
        names.push("F#".to_owned());
        names.push("G".to_owned());
        names.push("Ab".to_owned());
        names.push("A".to_owned());
        names.push("Bb".to_owned());
        names.push("B".to_owned());
        assert(names.deep_view() =~= note_names());
        PracticeSessionState {
            note_name_list: names,
            session_state: SessionStates::Waiting,
            session_data: PracticeSessionData::new(),
        }
    }
}

impl PracticeSessionState {
    /// Whether the machine is valid and the dispatcher may run on it: the
    /// data is well formed, and the counter of the current key can take the
    /// change that the current state's entry behaviour makes to it.
    pub fn can_dispatch(&self) -> (ready: bool)
        ensures
            ready == (self@.wf() && self@.counter_fits()),
    {
        if !self.session_data.is_well_formed() {
            return false;
        }
        match self.session_state {
            SessionStates::Working => {
                !self.session_data.follows_key_request() || self.session_data.can_apply(1)
            },
            SessionStates::SkippingKey => self.session_data.can_apply(-1),
            _ => true,
        }
    }

    /// Moves to `state`, marks its entry under `name` with the current time,
    /// commits the marker to the history, and tells the time that was taken.
    pub(crate) fn enter(&mut self, state: SessionStates, name: &str) -> (time: Ghost<i64>)
        ensures
            final(self)@ == old(self)@.enter(state, name@, time@),
            old(self)@.wf() ==> final(self)@.wf(),
    {
        self.session_state = state;
        self.session_data.set_timestamp(name.to_owned());
        let ghost marked = self.session_data@;
        self.session_data.push_timestamp();
        Ghost(choose|time: i64| marked == #[trigger] old(self)@.data.mark(name@, time))
    }

    /// Transition to `RequestingNewKey`; its entry is recorded.
    pub fn to_requesting_new_key(&mut self)
        ensures
            exists|time: i64|
                final(self)@ == #[trigger] old(self)@.after(Call::ToRequestingNewKey { time }),
            old(self)@.wf() ==> final(self)@.wf(),
    {
        let time = self.enter(SessionStates::RequestingNewKey, REQUESTING_NEW_KEY);
        assert(self@ == old(self)@.after(Call::ToRequestingNewKey { time: time@ }));
    }

    /// Entry behaviour of `RequestingNewKey`: one of the twelve keys, picked
    /// at random, becomes the current key.
    pub fn requesting_new_key(&mut self)
        requires
            old(self)@.wf(),
        ensures
            exists|index: int|
                0 <= index < KEY_COUNT && final(self)@ == #[trigger] old(self)@.requesting_new_key(
                    index,
                ),
            final(self)@.wf(),
    {
        self.session_data.get_new_key();
        proof {
            let index = choose|index: int|
                0 <= index < KEY_COUNT && self.session_data@ == #[trigger] old(
                    self,
                )@.data.select_key(index);
            assert(self@ == old(self)@.requesting_new_key(index));
        }
    }

    /// Transition to `SkippingKey`. Nothing is recorded.
    pub fn to_skipping_key(&mut self)
        ensures
            final(self)@ == old(self)@.after(Call::ToSkippingKey),
            old(self)@.wf() ==> final(self)@.wf(),
    {
        self.session_state = SessionStates::SkippingKey;
    }

    /// Entry behaviour of `SkippingKey`: the current key loses a repetition,
    /// then the newest history entry is removed, so that the key request
    /// being given up leaves no trace in the history. Without a current key
    /// the machine falls back to `RequestingNewKey`; the entry is removed all
    /// the same.
    pub fn skipping_key(&mut self)
        requires
            old(self)@.wf(),
            old(self)@.data.can_apply(-1),
        ensures
            final(self)@ == old(self)@.skipping_key(),
            final(self)@.wf(),
    {
        self.decrement_key();
        self.session_data.drop_last_timestamp();
    }

    /// Transition to `Waiting`. Nothing is recorded.
    pub fn to_waiting(&mut self)
        ensures
            final(self)@ == old(self)@.after(Call::ToWaiting),
            old(self)@.wf() ==> final(self)@.wf(),
    {
        self.session_state = SessionStates::Waiting;
    }

    /// Transition to `Working`; its entry is recorded.
    pub fn to_working(&mut self)
        ensures
            exists|time: i64| final(self)@ == #[trigger] old(self)@.after(Call::ToWorking { time }),
            old(self)@.wf() ==> final(self)@.wf(),
    {
        let time = self.enter(SessionStates::Working, WORKING);
        assert(self@ == old(self)@.after(Call::ToWorking { time: time@ }));
    }

    /// Counts one more repetition of the current key. Without a current key
    /// the data stays as it is and the machine falls back to
    /// `RequestingNewKey`.
    fn increment_key(&mut self)
        requires
            old(self)@.wf(),
            old(self)@.data.can_apply(1),
        ensures
            final(self)@ == old(self)@.step_key(1),
            final(self)@.wf(),
    {
        match self.session_data.clone().increment_key_repetition() {
            Ok(data) => {
                self.session_data = data;
            },
            Err(_) => {
                self.session_state = SessionStates::RequestingNewKey;
            },
        }
    }

    /// Takes one repetition of the current key back. Without a current key
    /// the data stays as it is and the machine falls back to
    /// `RequestingNewKey`.
    pub fn decrement_key(&mut self)
        requires
            old(self)@.wf(),
            old(self)@.data.can_apply(-1),
        ensures
            final(self)@ == old(self)@.step_key(-1),
            final(self)@.wf(),
    {
        match self.session_data.clone().decrement_key_repetition() {
            Ok(data) => {
                self.session_data = data;
            },
            Err(_) => {
                self.session_state = SessionStates::RequestingNewKey;
            },
        }
    }

    /// Entry behaviour of `Working`. Work that follows a key request (the
    /// history entry two places before the end records one) counts as a
    /// repetition of the current key; work resumed after a rest does not, and
    /// neither does work entered with fewer than two entries in the history.
    pub fn working(&mut self)
        requires
            old(self)@.wf(),
            old(self)@.data.follows_key_request() ==> old(self)@.data.can_apply(1),
        ensures
            final(self)@ == old(self)@.working(),
            final(self)@.wf(),
    {
        if self.session_data.follows_key_request() {
            self.increment_key();
        }
    }

    /// Transition to `Resting`; its entry is recorded.
    pub fn to_resting(&mut self)
        ensures
            exists|time: i64| final(self)@ == #[trigger] old(self)@.after(Call::ToResting { time }),
            old(self)@.wf() ==> final(self)@.wf(),
    {
        let time = self.enter(SessionStates::Resting, RESTING);
        assert(self@ == old(self)@.after(Call::ToResting { time: time@ }));
    }

    /// Transition to `Finishing`; its entry is recorded.
    pub fn to_finishing(&mut self)
        ensures
            exists|time: i64|
                final(self)@ == #[trigger] old(self)@.after(Call::ToFinishing { time }),
            old(self)@.wf() ==> final(self)@.wf(),
    {
        let time = self.enter(SessionStates::Finishing, FINISHING);
        assert(self@ == old(self)@.after(Call::ToFinishing { time: time@ }));
    }

    /// Entry behaviour of `Finishing`: the receipt of the session as it is
    /// now is stored, replacing an earlier one.
    pub fn finishing(&mut self)
        ensures
            final(self)@ == old(self)@.finishing(),
            old(self)@.wf() ==> final(self)@.wf(),
    {
        let receipt = self.session_data.construct_receipt();
        self.session_data.receipt = Some(receipt);
    }
}

} // verus!
