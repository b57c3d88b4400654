//! Mathematical models of the session types, and the session's operations
//! written as functions on those models.
//!
//! The executable types of [`crate::models`] and [`crate::transitions`] each
//! have a view into one of the types below, and the contract of every
//! operation equates the view after the call with one of these functions
//! applied to the view before it.

use vstd::prelude::*;

use crate::models::KeyData;
use crate::transitions::SessionStates;

verus! {

/// Number of keys in the catalog: one per chromatic pitch class.
pub const KEY_COUNT: usize = 12;

/// Selection weight that every key starts with.
pub const INITIAL_WEIGHT: i32 = 100;

/// Name under which entering `RequestingNewKey` is recorded.
pub const REQUESTING_NEW_KEY: &'static str = "Requesting New Key";

/// Name under which entering `Working` is recorded.
pub const WORKING: &'static str = "Working";

/// Name under which entering `Resting` is recorded.
pub const RESTING: &'static str = "Resting";

/// Name under which entering `Finishing` is recorded.
pub const FINISHING: &'static str = "Finishing";

/// A history entry: the name of a state and the Unix time, in seconds, at
/// which it was entered.
pub type TimeEntry = (Seq<char>, i64);

/// The catalog as created at session start: key `i` has id `i`, no
/// repetitions and the initial weight.
pub open spec fn initial_keys() -> Seq<KeyData> {
    Seq::new(
        KEY_COUNT as nat,
        |i: int| KeyData { nid: i as usize, repetitions: 0, weight: INITIAL_WEIGHT },
    )
}

/// A catalog has its fixed shape when it holds exactly `KEY_COUNT` keys and
/// the key at position `i` has id `i`.
pub open spec fn catalog_shape(keys: Seq<KeyData>) -> bool {
    &&& keys.len() == KEY_COUNT
    &&& forall|i: int| 0 <= i < keys.len() ==> (#[trigger] keys[i]).nid == i
}

/// Model of a receipt: the catalog and the history as they were when the
/// receipt was made.
#[verifier::ext_equal]
pub struct ReceiptView {
    pub key_data_archive: Option<Seq<KeyData>>,
    pub time_stamp_archive: Option<Seq<TimeEntry>>,
}

/// Model of the session data.
#[verifier::ext_equal]
pub struct SessionView {
    /// Every state entry committed so far, oldest first; `None` until the
    /// first commit.
    pub history: Option<Seq<TimeEntry>>,
    /// The key catalog, ordered by id.
    pub keys: Seq<KeyData>,
    /// Snapshot of the key being practised.
    pub current_key: Option<KeyData>,
    /// The marker of the state entered last, waiting to be committed.
    pub pending: Option<TimeEntry>,
    /// The receipt of the last finished session.
    pub receipt: Option<ReceiptView>,
}

impl SessionView {
    /// The data of a session that has just started.
    pub open spec fn initial() -> SessionView {
        SessionView {
            history: None,
            keys: initial_keys(),
            current_key: None,
            pending: None,
            receipt: None,
        }
    }

    /// Validity of the session data: the catalog has its fixed shape, and the
    /// current key, if there is one, is a copy of its catalog entry.
    pub open spec fn wf(self) -> bool {
        &&& catalog_shape(self.keys)
        &&& self.current_key matches Some(key) ==> {
            &&& key.nid < KEY_COUNT
            &&& self.keys[key.nid as int] == key
        }
    }

    /// Number of committed history entries.
    pub open spec fn history_len(self) -> nat {
        match self.history {
            Some(entries) => entries.len(),
            None => 0,
        }
    }

    /// The key at `index` becomes the current key.
    pub open spec fn select_key(self, index: int) -> SessionView {
        SessionView { current_key: Some(self.keys[index]), ..self }
    }

    /// Whether adding `delta` to the current key's repetitions stays within
    /// the counter's range. Holds trivially when there is no current key.
    pub open spec fn can_apply(self, delta: int) -> bool {
        self.current_key matches Some(key) ==> i32::MIN <= key.repetitions + delta <= i32::MAX
    }

    /// `delta` is added to the repetitions of the current key, and the
    /// updated key is written back to the catalog under its id. Meaningful
    /// only when there is a current key.
    pub open spec fn apply_repetition_delta(self, delta: int) -> SessionView
        recommends
            self.current_key is Some,
            self.can_apply(delta),
    {
        let key = self.current_key->0;
        let updated = KeyData { repetitions: (key.repetitions + delta) as i32, ..key };
        SessionView {
            keys: self.keys.update(key.nid as int, updated),
            current_key: Some(updated),
            ..self
        }
    }

    /// `(name, time)` becomes the pending marker.
    pub open spec fn mark(self, name: Seq<char>, time: i64) -> SessionView {
        SessionView { pending: Some((name, time)), ..self }
    }

    /// The pending marker, if there is one, is appended to the history.
    pub open spec fn commit(self) -> SessionView {
        match self.pending {
            None => self,
            Some(entry) => SessionView {
                history: Some(
                    match self.history {
                        None => seq![entry],
                        Some(entries) => entries.push(entry),
                    },
                ),
                ..self
            },
        }
    }

    /// The newest history entry, if there is one, is removed.
    pub open spec fn truncate_tail(self) -> SessionView {
        match self.history {
            Some(entries) if entries.len() > 0 => SessionView {
                history: Some(entries.drop_last()),
                ..self
            },
            _ => self,
        }
    }

    /// Whether the entry two positions before the end of the history records
    /// a key request. False when the history has fewer than two entries.
    pub open spec fn follows_key_request(self) -> bool {
        &&& self.history matches Some(entries)
        &&& entries.len() >= 2
        &&& entries[entries.len() - 2].0 == REQUESTING_NEW_KEY@
    }

    /// Whether the newest history entry records a key request.
    pub open spec fn ends_with_key_request(self) -> bool {
        &&& self.history matches Some(entries)
        &&& entries.len() >= 1
        &&& entries.last().0 == REQUESTING_NEW_KEY@
    }

    /// The receipt that describes the session as it is now.
    pub open spec fn snapshot(self) -> ReceiptView {
        ReceiptView { key_data_archive: Some(self.keys), time_stamp_archive: self.history }
    }

    /// The receipt of the session as it is now is stored.
    pub open spec fn archive(self) -> SessionView {
        SessionView { receipt: Some(self.snapshot()), ..self }
    }

    /// Everything but the receipt goes back to its initial value.
    pub open spec fn reset(self) -> SessionView {
        SessionView { receipt: self.receipt, ..SessionView::initial() }
    }
}

/// The names of the twelve keys, by id.
pub open spec fn note_names() -> Seq<Seq<char>> {
    seq![
        "C"@,
        "C#"@,
        "D"@,
        "Eb"@,
        "E"@,
        "F"@,
        "F#"@,
        "G"@,
        "Ab"@,
        "A"@,
        "Bb"@,
        "B"@,
    ]
}

/// Model of the state machine: the state tag, the session data, and the
/// display names of the keys.
#[verifier::ext_equal]
pub struct MachineView {
    pub note_names: Seq<Seq<char>>,
    pub state: SessionStates,
    pub data: SessionView,
}

impl MachineView {
    /// The machine before any transition: waiting, with fresh data.
    pub open spec fn initial() -> MachineView {
        MachineView {
            note_names: note_names(),
            state: SessionStates::Waiting,
            data: SessionView::initial(),
        }
    }

    /// Validity of the machine is that of its data.
    pub open spec fn wf(self) -> bool {
        self.data.wf()
    }

    /// The state tag becomes `state`; nothing is recorded.
    pub open spec fn switch(self, state: SessionStates) -> MachineView {
        MachineView { state, ..self }
    }

    /// The state tag becomes `state`, and its entry at `time` is marked under
    /// `name` and committed.
    pub open spec fn enter(self, state: SessionStates, name: Seq<char>, time: i64) -> MachineView {
        MachineView { state, data: self.data.mark(name, time).commit(), ..self }
    }

    /// Entry behaviour of `RequestingNewKey`, when the key at `index` is the
    /// one picked.
    pub open spec fn requesting_new_key(self, index: int) -> MachineView {
        MachineView { data: self.data.select_key(index), ..self }
    }

    /// `delta` is applied to the current key. Without a current key the data
    /// stays as it is and the machine falls back to `RequestingNewKey`.
    pub open spec fn step_key(self, delta: int) -> MachineView {
        if self.data.current_key is Some {
            MachineView { data: self.data.apply_repetition_delta(delta), ..self }
        } else {
            self.switch(SessionStates::RequestingNewKey)
        }
    }

    /// Entry behaviour of `Working`: the current key gains a repetition when
    /// work follows a key request, and nothing happens when it is resumed.
    pub open spec fn working(self) -> MachineView {
        if self.data.follows_key_request() {
            self.step_key(1)
        } else {
            self
        }
    }

    /// Entry behaviour of `SkippingKey`: the current key loses a repetition,
    /// then the newest history entry is removed.
    pub open spec fn skipping_key(self) -> MachineView {
        let stepped = self.step_key(-1);
        MachineView { data: stepped.data.truncate_tail(), ..stepped }
    }

    /// Entry behaviour of `Finishing`: the receipt is stored.
    pub open spec fn finishing(self) -> MachineView {
        MachineView { data: self.data.archive(), ..self }
    }

    /// Whether the counter of the current key can take the change that the
    /// entry behaviour of the current state makes to it.
    pub open spec fn counter_fits(self) -> bool {
        match self.state {
            SessionStates::Working => self.data.follows_key_request() ==> self.data.can_apply(1),
            SessionStates::SkippingKey => self.data.can_apply(-1),
            _ => true,
        }
    }

    /// One run of the dispatcher: the entry behaviour of the current state,
    /// where `index` is the key picked should the state ask for one. After
    /// `Finishing` the data is reset and only the receipt survives.
    pub open spec fn dispatch(self, index: int) -> MachineView {
        match self.state {
            SessionStates::Waiting => self,
            SessionStates::RequestingNewKey => self.requesting_new_key(index),
            SessionStates::SkippingKey => self.skipping_key(),
            SessionStates::Working => self.working(),
            SessionStates::Resting => self,
            SessionStates::Finishing => {
                let finished = self.finishing();
                MachineView { data: finished.data.reset(), ..finished }
            },
        }
    }

    /// The machine after `call`.
    pub open spec fn after(self, call: Call) -> MachineView {
        match call {
            Call::ToRequestingNewKey { time } => self.enter(
                SessionStates::RequestingNewKey,
                REQUESTING_NEW_KEY@,
                time,
            ),
            Call::ToSkippingKey => self.switch(SessionStates::SkippingKey),
            Call::ToWaiting => self.switch(SessionStates::Waiting),
            Call::ToWorking { time } => self.enter(SessionStates::Working, WORKING@, time),
            Call::ToResting { time } => self.enter(SessionStates::Resting, RESTING@, time),
            Call::ToFinishing { time } => self.enter(SessionStates::Finishing, FINISHING@, time),
            Call::Dispatch { index } => self.dispatch(index),
        }
    }
}

/// One call that a host can make on the machine: a transition, with the time
/// at which it is made where the transition records it, or a run of the
/// dispatcher, with the key that is picked should the state ask for one.
pub enum Call {
    ToRequestingNewKey { time: i64 },
    ToSkippingKey,
    ToWaiting,
    ToWorking { time: i64 },
    ToResting { time: i64 },
    ToFinishing { time: i64 },
    Dispatch { index: int },
}

impl Call {
    /// A dispatcher run picks one of the twelve keys.
    pub open spec fn wf(self) -> bool {
        self matches Call::Dispatch { index } ==> 0 <= index < KEY_COUNT
    }

    /// Whether `call`, made on `machine`, runs the entry behaviour of
    /// `state`.
    pub open spec fn dispatches(self, machine: MachineView, state: SessionStates) -> bool {
        self is Dispatch && machine.state == state
    }
}

} // verus!
