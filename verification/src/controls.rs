//! What the person practising can ask of the session, and the calls on the
//! state machine that answer each request.

use vstd::prelude::*;

use crate::transitions::{PracticeSessionState, SessionStates};
use crate::utils::match_states;
use crate::views::{
    Call, MachineView, SessionView, FINISHING, KEY_COUNT, REQUESTING_NEW_KEY, RESTING, WORKING,
};

verus! {

/// A request of the person practising.
#[derive(Debug, Clone, Copy, PartialEq, Eq, Structural)]
pub enum Command {
    /// Pick a new key and start working on it.
    RequestNewKey,
    /// Give the current key up, pick another and start working on it.
    SkipKey,
    /// Pause the practice.
    Pause,
    /// Take the practice up again.
    Resume,
    /// End the session.
    EndSession,
}

impl SessionView {
    /// Whether every key can still take one more repetition.
    pub open spec fn all_below_max(self) -> bool {
        forall|i: int| 0 <= i < KEY_COUNT ==> (#[trigger] self.keys[i]).repetitions < i32::MAX
    }
}

impl MachineView {
    /// Whether `command` is on offer in the current state. A new key and
    /// the end of the session can always be asked for; a key can be skipped
    /// while working or resting; only work can be paused; and work can be
    /// resumed from a rest or after a key request.
    pub open spec fn offers(self, command: Command) -> bool {
        match command {
            Command::RequestNewKey => true,
            Command::SkipKey => self.state == SessionStates::Working || self.state
                == SessionStates::Resting,
            Command::Pause => self.state == SessionStates::Working,
            Command::Resume => self.state == SessionStates::RequestingNewKey || self.state
                == SessionStates::Resting,
            Command::EndSession => true,
        }
    }

    /// A key request made at `time` that picks the key at `index`, followed
    /// by work on it that starts at `later`: each transition with a run of
    /// the dispatcher right after it.
    pub open spec fn new_key(self, time: i64, index: int, later: i64) -> MachineView {
        self.after(Call::ToRequestingNewKey { time }).after(Call::Dispatch { index }).after(
            Call::ToWorking { time: later },
        ).after(Call::Dispatch { index })
    }

    /// The machine after `command`, asked for at `time`. A command that is not
    /// on offer changes nothing. `index` is the key picked and `later` the
    /// time at which work on it starts, for the commands that pick one.
    pub open spec fn performed(
        self,
        command: Command,
        time: i64,
        index: int,
        later: i64,
    ) -> MachineView {
        if !self.offers(command) {
            self
        } else {
            match command {
                Command::RequestNewKey => self.new_key(time, index, later),
                Command::SkipKey => self.after(Call::ToSkippingKey).after(
                    Call::Dispatch { index },
                ).new_key(time, index, later),
                Command::Pause => self.after(Call::ToResting { time }).after(
                    Call::Dispatch { index },
                ),
                Command::Resume => self.after(Call::ToWorking { time }).after(
                    Call::Dispatch { index },
                ),
                Command::EndSession => self.after(Call::ToFinishing { time }).after(
                    Call::Dispatch { index },
                ),
            }
        }
    }

    /// Whether the counters can take every change that `command` may make
    /// to them, whichever key is picked. Work on a newly picked key counts
    /// as a repetition of it; a skip takes one from the current key first;
    /// and work resumed right after a key request counts for the current
    /// key.
    pub open spec fn has_room_for(self, command: Command) -> bool {
        self.offers(command) ==> match command {
            Command::RequestNewKey => self.data.all_below_max(),
            Command::SkipKey => self.data.can_apply(-1) && self.step_key(-1).data.all_below_max(),
            Command::Resume => self.data.ends_with_key_request() ==> self.data.can_apply(1),
            Command::Pause => true,
            Command::EndSession => true,
        }
    }
}

impl PracticeSessionState {
    /// Whether `command` is on offer in the current state.
    pub fn offers(&self, command: Command) -> (offered: bool)
        ensures
            offered == self@.offers(command),
    {
        match command {
            Command::RequestNewKey => true,
            Command::SkipKey => self.session_state == SessionStates::Working || self.session_state
                == SessionStates::Resting,
            Command::Pause => self.session_state == SessionStates::Working,
            Command::Resume => self.session_state == SessionStates::RequestingNewKey
                || self.session_state == SessionStates::Resting,
            Command::EndSession => true,
        }
    }

    /// Whether every key but the one with id `spared` (none, if `spared` is
    /// no id) can take one more repetition.
    fn others_below_max(&self, spared: usize) -> (below: bool)
        requires
            self@.wf(),
        ensures
            below == (forall|i: int|
                0 <= i < KEY_COUNT && i != spared ==> (#[trigger] self@.data.keys[i]).repetitions
                    < i32::MAX),
    {
        let mut i: usize = 0;
        while i < KEY_COUNT
            invariant
                i <= KEY_COUNT,
                self@.wf(),
                forall|j: int|
                    0 <= j < i && j != spared ==> (#[trigger] self@.data.keys[j]).repetitions
                        < i32::MAX,
            decreases KEY_COUNT - i,
        {
            if i != spared && self.session_data.all_keys_map.0[i].repetitions == i32::MAX {
                return false;
            }
            i += 1;
        }
        true
    }

    /// Whether the counters can take every change that `command` may make to
    /// them.
    pub fn has_room_for(&self, command: Command) -> (room: bool)
        requires
            self@.wf(),
        ensures
            room == self@.has_room_for(command),
    {
        if !self.offers(command) {
            return true;
        }
        match command {
            Command::RequestNewKey => self.others_below_max(KEY_COUNT),
            Command::SkipKey => {
                match self.session_data.current_key_data {
                    Some(key) => {
                        let fits: bool = self.session_data.can_apply(-1);
                        let others: bool = self.others_below_max(key.nid);
                        proof {
                            let stepped = self@.step_key(-1).data;
                            if fits && others {
                                assert forall|i: int| 0 <= i < KEY_COUNT implies (
                                #[trigger] stepped.keys[i]).repetitions < i32::MAX by {
                                    if i != key.nid {
                                        assert(self@.data.keys[i].repetitions < i32::MAX);
                                    }
                                }
                            }
                            if fits && !others {
                                let i = choose|i: int|
                                    0 <= i < KEY_COUNT && i != key.nid && !((
                                    #[trigger] self@.data.keys[i]).repetitions < i32::MAX);
                                assert(stepped.keys[i].repetitions == i32::MAX);
                            }
                        }
                        fits && others
                    },
                    None => self.others_below_max(KEY_COUNT),
                }
            },
            Command::Resume => {
                !self.session_data.ends_with_key_request() || self.session_data.can_apply(1)
            },
            Command::Pause => true,
            Command::EndSession => true,
        }
    }

    /// Runs the dispatcher and tells which key it would have picked.
    fn dispatch_and_tell(&mut self) -> (index: Ghost<int>)
        requires
            old(self)@.wf(),
            old(self)@.counter_fits(),
        ensures
            0 <= index@ < KEY_COUNT,
            final(self)@ == old(self)@.after(Call::Dispatch { index: index@ }),
            final(self)@.wf(),
    {
        match_states(self);
        Ghost(
            choose|index: int|
                0 <= index < KEY_COUNT && self@ == #[trigger] old(self)@.after(
                    Call::Dispatch { index },
                ),
        )
    }

    /// Requests a new key and starts work on it.
    fn new_key(&mut self) -> (told: (Ghost<i64>, Ghost<int>, Ghost<i64>))
        requires
            old(self)@.wf(),
            old(self)@.data.all_below_max(),
        ensures
            0 <= told.1@ < KEY_COUNT,
            final(self)@ == old(self)@.new_key(told.0@, told.1@, told.2@),
            final(self)@.wf(),
    {
        let time = self.enter(SessionStates::RequestingNewKey, REQUESTING_NEW_KEY);
        let index = self.dispatch_and_tell();
        let later = self.enter(SessionStates::Working, WORKING);
        let _counted = self.dispatch_and_tell();
        (time, index, later)
    }

    /// Gives the current key up, then requests a new key and starts work on
    /// it.
    fn skip_key(&mut self) -> (told: (Ghost<i64>, Ghost<int>, Ghost<i64>))
        requires
            old(self)@.wf(),
            old(self)@.offers(Command::SkipKey),
            old(self)@.has_room_for(Command::SkipKey),
        ensures
            0 <= told.1@ < KEY_COUNT,
            final(self)@ == old(self)@.performed(Command::SkipKey, told.0@, told.1@, told.2@),
            final(self)@.wf(),
    {
        self.to_skipping_key();
        let skipped = self.dispatch_and_tell();
        assert(self@.data.keys == old(self)@.step_key(-1).data.keys);
        let told = self.new_key();
        assert(old(self)@.after(Call::ToSkippingKey).dispatch(skipped@) == old(self)@.after(
            Call::ToSkippingKey,
        ).dispatch(told.1@));
        told
    }

    /// Answers a command that calls for one transition: a pause, a
    /// resumption or the end of the session.
    fn change_state(&mut self, command: Command) -> (told: (Ghost<i64>, Ghost<int>))
        requires
            old(self)@.wf(),
            command == Command::Pause || command == Command::Resume || command
                == Command::EndSession,
            old(self)@.offers(command),
            old(self)@.has_room_for(command),
        ensures
            0 <= told.1@ < KEY_COUNT,
            forall|later: i64|
                final(self)@ == #[trigger] old(self)@.performed(command, told.0@, told.1@, later),
            final(self)@.wf(),
    {
        let time = match command {
            Command::Pause => self.enter(SessionStates::Resting, RESTING),
            Command::Resume => self.enter(SessionStates::Working, WORKING),
            _ => self.enter(SessionStates::Finishing, FINISHING),
        };
        let index = self.dispatch_and_tell();
        (time, index)
    }

    /// Does what `command` asks for, if it is on offer in the current state,
    /// and nothing otherwise. Every transition that the command calls for is
    /// followed at once by a run of the dispatcher.
    pub fn perform(&mut self, command: Command)
        requires
            old(self)@.wf(),
            old(self)@.has_room_for(command),
        ensures
            exists|time: i64, index: int, later: i64|
                0 <= index < KEY_COUNT && final(self)@ == #[trigger] old(self)@.performed(
                    command,
                    time,
                    index,
                    later,
                ),
            final(self)@.wf(),
    {
        if !self.offers(command) {
            assert(self@ == old(self)@.performed(command, 0, 0, 0));
            return;
        }
        match command {
            Command::RequestNewKey => {
                let told = self.new_key();
                assert(self@ == old(self)@.performed(command, told.0@, told.1@, told.2@));
            },
            Command::SkipKey => {
                let told = self.skip_key();
                assert(self@ == old(self)@.performed(command, told.0@, told.1@, told.2@));
            },
            _ => {
                let told = self.change_state(command);
                assert(self@ == old(self)@.performed(command, told.0@, told.1@, 0));
            },
        }
    }
}

} // verus!
