//! The practice facts of one session and the operations that change them.

use vstd::prelude::*;

use crate::system::{random_below, unix_time_now};
use crate::views::{
    initial_keys, ReceiptView, SessionView, INITIAL_WEIGHT, KEY_COUNT, REQUESTING_NEW_KEY,
};

verus! {

/// A state name and the Unix time, in seconds, at which the state was
/// entered.
pub type TimeCode = (String, i64);

/// The one way in which a session operation can fail.
#[derive(Debug, Clone, Copy, PartialEq, Eq, Structural)]
pub enum SessionError {
    /// A repetition count was to be changed while no key was current.
    NoCurrentKey,
}

/// One of the twelve keys: its id, how often it has been practised, and its
/// selection weight.
#[derive(Debug, Clone, Copy, PartialEq, Eq, Structural)]
pub struct KeyData {
    pub nid: usize,
    pub repetitions: i32,
    pub weight: i32,
}

/// The key catalog, ordered by id.
#[derive(Debug)]
pub struct KeysMap(pub Vec<KeyData>);

impl View for KeysMap {
    type V = Seq<KeyData>;

    open spec fn view(&self) -> Seq<KeyData> {
        self.0@
    }
}

impl Clone for KeysMap {
    fn clone(&self) -> (copy: KeysMap)
        ensures
            copy@ == self@,
    {
        let mut keys: Vec<KeyData> = Vec::new();
        let mut i: usize = 0;
        while i < self.0.len()
            invariant
                i <= self.0@.len(),
                keys@ == self.0@.take(i as int),
            decreases self.0@.len() - i,
        {
            keys.push(self.0[i]);
            i += 1;
        }
        KeysMap(keys)
    }
}

impl KeysMap {
    /// The catalog of a fresh session.
    pub fn new() -> (keys: KeysMap)
        ensures
            keys@ == initial_keys(),
    {
        let mut keys: Vec<KeyData> = Vec::new();
        let mut id: usize = 0;
        while id < KEY_COUNT
            invariant
                id <= KEY_COUNT,
                keys@ == initial_keys().take(id as int),
            decreases KEY_COUNT - id,
        {
            keys.push(KeyData { nid: id, repetitions: 0, weight: INITIAL_WEIGHT });
            id += 1;
        }
        KeysMap(keys)
    }
}

/// A copy of `entries` with the same names and times.
fn clone_history(entries: &Vec<TimeCode>) -> (copy: Vec<TimeCode>)
    ensures
        copy.deep_view() == entries.deep_view(),
{
    let mut copy: Vec<TimeCode> = Vec::new();
    let mut i: usize = 0;
    while i < entries.len()
        invariant
            i <= entries@.len(),
            copy@.len() == i,
            forall|j: int|
                0 <= j < i ==> (#[trigger] copy@[j]).deep_view() == entries@[j].deep_view(),
        decreases entries@.len() - i,
    {
        copy.push((entries[i].0.clone(), entries[i].1));
        i += 1;
    }
    assert(copy.deep_view() =~= entries.deep_view());
    copy
}

/// A copy of `history` with the same names and times.
fn clone_optional_history(history: &Option<Vec<TimeCode>>) -> (copy: Option<Vec<TimeCode>>)
    ensures
        copy.deep_view() == history.deep_view(),
{
    match history {
        Some(entries) => Some(clone_history(entries)),
        None => None,
    }
}

/// The record of a finished session: the catalog and the history as they
/// were when the receipt was made.
#[derive(Debug)]
pub struct Receipt {
    pub key_data_archive: Option<KeysMap>,
    pub time_stamp_archive: Option<Vec<TimeCode>>,
}

impl View for Receipt {
    type V = ReceiptView;

    open spec fn view(&self) -> ReceiptView {
        ReceiptView {
            key_data_archive: match self.key_data_archive {
                Some(keys) => Some(keys@),
                None => None,
            },
            time_stamp_archive: self.time_stamp_archive.deep_view(),
        }
    }
}

impl Clone for Receipt {
    fn clone(&self) -> (copy: Receipt)
        ensures
            copy@ == self@,
    {
        Receipt {
            key_data_archive: match &self.key_data_archive {
                Some(keys) => Some(keys.clone()),
                None => None,
            },
            time_stamp_archive: clone_optional_history(&self.time_stamp_archive),
        }
    }
}

/// Model of an optional receipt.
pub open spec fn receipt_view(receipt: Option<Receipt>) -> Option<ReceiptView> {
    match receipt {
        Some(receipt) => Some(receipt@),
        None => None,
    }
}

/// Everything that is known of one practice session.
#[derive(Debug)]
pub struct PracticeSessionData {
    /// Every state entry committed so far, oldest first.
    pub practice_session_history: Option<Vec<TimeCode>>,
    /// The key catalog.
    pub all_keys_map: KeysMap,
    /// Snapshot of the key being practised.
    pub current_key_data: Option<KeyData>,
    /// Marker of the state entered last, waiting to be committed.
    pub start_timestamp: Option<TimeCode>,
    /// Receipt of the last finished session.
    pub receipt: Option<Receipt>,
}

impl View for PracticeSessionData {
    type V = SessionView;

    open spec fn view(&self) -> SessionView {
        SessionView {
            history: self.practice_session_history.deep_view(),
            keys: self.all_keys_map@,
            current_key: self.current_key_data,
            pending: self.start_timestamp.deep_view(),
            receipt: receipt_view(self.receipt),
        }
    }
}

impl Clone for PracticeSessionData {
    fn clone(&self) -> (copy: PracticeSessionData)
        ensures
            copy@ == self@,
    {
        PracticeSessionData {
            practice_session_history: clone_optional_history(&self.practice_session_history),
            all_keys_map: self.all_keys_map.clone(),
            current_key_data: self.current_key_data,
            start_timestamp: match &self.start_timestamp {
                Some(marker) => Some((marker.0.clone(), marker.1)),
                None => None,
            },
            receipt: match &self.receipt {
                Some(receipt) => Some(receipt.clone()),
                None => None,
            },
        }
    }
}

impl PracticeSessionData {
    /// The data of a session that has just started: the twelve keys with no
    /// repetitions, and nothing else.
    pub fn new() -> (data: PracticeSessionData)
        ensures
            data@ == SessionView::initial(),
            data@.wf(),
    {
        PracticeSessionData {
            practice_session_history: None,
            all_keys_map: KeysMap::new(),
            current_key_data: None,
            start_timestamp: None,
            receipt: None,
        }
    }

    /// Whether the data is valid: twelve keys with ids 0 to 11 in order, and
    /// a current key, if any, that is a copy of its catalog entry.
    pub fn is_well_formed(&self) -> (valid: bool)
        ensures
            valid == self@.wf(),
    {
        if self.all_keys_map.0.len() != KEY_COUNT {
            return false;
        }
        let mut i: usize = 0;
        while i < KEY_COUNT
            invariant
                i <= KEY_COUNT,
                self.all_keys_map@.len() == KEY_COUNT,
                forall|j: int| 0 <= j < i ==> (#[trigger] self.all_keys_map@[j]).nid == j,
            decreases KEY_COUNT - i,
        {
            if self.all_keys_map.0[i].nid != i {
                return false;
            }
            i += 1;
        }
        match self.current_key_data {
            Some(key) => key.nid < KEY_COUNT && self.all_keys_map.0[key.nid] == key,
            None => true,
        }
    }

    /// Makes the key at `index` the current key.
    pub fn select_key(&mut self, index: usize)
        requires
            old(self)@.wf(),
            index < KEY_COUNT,
        ensures
            final(self)@ == old(self)@.select_key(index as int),
            final(self)@.wf(),
    {
        self.current_key_data = Some(self.all_keys_map.0[index]);
    }

    /// Picks one of the twelve keys at random, each as likely as the others,
    /// and makes it the current key.
    pub fn get_new_key(&mut self)
        requires
            old(self)@.wf(),
        ensures
            exists|index: int|
                0 <= index < KEY_COUNT && final(self)@ == #[trigger] old(self)@.select_key(index),
            final(self)@.wf(),
    {
        let index: usize = random_below(KEY_COUNT);
        self.select_key(index);
    }

    /// Whether `delta` can be added to the repetitions of the current key
    /// without leaving the counter's range. True when no key is current.
    pub fn can_apply(&self, delta: i32) -> (fits: bool)
        ensures
            fits == self@.can_apply(delta as int),
    {
        match self.current_key_data {
            Some(key) => {
                if delta >= 0 {
                    key.repetitions <= i32::MAX - delta
                } else {
                    key.repetitions >= i32::MIN - delta
                }
            },
            None => true,
        }
    }

    /// Adds `delta` to the repetitions of the current key and writes the
    /// updated key back to the catalog under its id. Fails exactly when no
    /// key is current. The data is taken by value, so a failure changes
    /// nothing that the caller still holds.
    pub fn apply_repetition_delta(self, delta: i32) -> (result: Result<
        PracticeSessionData,
        SessionError,
    >)
        requires
            self@.wf(),
            self@.can_apply(delta as int),
        ensures
            match result {
                Ok(data) => {
                    &&& self@.current_key is Some
                    &&& data@ == self@.apply_repetition_delta(delta as int)
                    &&& data@.wf()
                },
                Err(error) => self@.current_key is None && error == SessionError::NoCurrentKey,
            },
    {
        let mut data = self;
        match data.current_key_data {
            Some(key) => {
                let updated = KeyData { repetitions: key.repetitions + delta, ..key };
                data.all_keys_map.0.set(key.nid, updated);
                data.current_key_data = Some(updated);
                Ok(data)
            },
            None => Err(SessionError::NoCurrentKey),
        }
    }

    /// Counts one more repetition of the current key.
    pub fn increment_key_repetition(self) -> (result: Result<PracticeSessionData, SessionError>)
        requires
            self@.wf(),
            self@.can_apply(1),
        ensures
            match result {
                Ok(data) => {
                    &&& self@.current_key is Some
                    &&& data@ == self@.apply_repetition_delta(1)
                    &&& data@.wf()
                },
                Err(error) => self@.current_key is None && error == SessionError::NoCurrentKey,
            },
    {
        self.apply_repetition_delta(1)
    }

    /// Takes one repetition of the current key back. The count may go below
    /// zero.
    pub fn decrement_key_repetition(self) -> (result: Result<PracticeSessionData, SessionError>)
        requires
            self@.wf(),
            self@.can_apply(-1),
        ensures
            match result {
                Ok(data) => {
                    &&& self@.current_key is Some
                    &&& data@ == self@.apply_repetition_delta(-1)
                    &&& data@.wf()
                },
                Err(error) => self@.current_key is None && error == SessionError::NoCurrentKey,
            },
    {
        self.apply_repetition_delta(-1)
    }

    /// Whether the history entry two places before the end records a key
    /// request. False when the history has fewer than two entries.
    pub fn follows_key_request(&self) -> (follows: bool)
        ensures
            follows == self@.follows_key_request(),
    {
        match &self.practice_session_history {
            None => false,
            Some(entries) => {
                let length: usize = entries.len();
                if length < 2 {
                    false
                } else {
                    let wanted: String = REQUESTING_NEW_KEY.to_owned();
                    entries[length - 2].0 == wanted
                }
            },
        }
    }

    /// Whether the newest history entry records a key request.
    pub fn ends_with_key_request(&self) -> (ends: bool)
        ensures
            ends == self@.ends_with_key_request(),
    {
        match &self.practice_session_history {
            None => false,
            Some(entries) => {
                let length: usize = entries.len();
                if length < 1 {
                    false
                } else {
                    let wanted: String = REQUESTING_NEW_KEY.to_owned();
                    entries[length - 1].0 == wanted
                }
            },
        }
    }

    /// Makes `(state_name, timestamp)` the pending marker.
    pub fn set_timestamp_at(&mut self, state_name: String, timestamp: i64)
        ensures
            final(self)@ == old(self)@.mark(state_name@, timestamp),
            old(self)@.wf() ==> final(self)@.wf(),
    {
        self.start_timestamp = Some((state_name, timestamp));
    }

    /// Makes `state_name`, with the current time, the pending marker.
    pub fn set_timestamp(&mut self, state_name: String)
        ensures
            exists|time: i64| final(self)@ == #[trigger] old(self)@.mark(state_name@, time),
            old(self)@.wf() ==> final(self)@.wf(),
    {
        let timestamp: i64 = unix_time_now();
        self.set_timestamp_at(state_name, timestamp);
    }

    /// Appends the pending marker, if there is one, to the history.
    pub fn push_timestamp(&mut self)
        ensures
            final(self)@ == old(self)@.commit(),
            old(self)@.wf() ==> final(self)@.wf(),
    {
        match &self.start_timestamp {
            None => {},
            Some(marker) => {
                let entry: TimeCode = (marker.0.clone(), marker.1);
                match &mut self.practice_session_history {
                    None => {
                        let mut entries: Vec<TimeCode> = Vec::new();
                        entries.push(entry);
                        self.practice_session_history = Some(entries);
                    },
                    Some(entries) => {
                        entries.push(entry);
                    },
                }
            },
        }
    }

    /// Removes the newest history entry, if there is one.
    pub fn drop_last_timestamp(&mut self)
        ensures
            final(self)@ == old(self)@.truncate_tail(),
            old(self)@.wf() ==> final(self)@.wf(),
    {
        match &mut self.practice_session_history {
            None => {},
            Some(entries) => {
                entries.pop();
            },
        }
    }

    /// The receipt that describes the session as it is now: a copy of the
    /// catalog and a copy of the history.
    pub fn construct_receipt(&self) -> (receipt: Receipt)
        ensures
            receipt@ == self@.snapshot(),
    {
        Receipt {
            key_data_archive: Some(self.all_keys_map.clone()),
            time_stamp_archive: clone_optional_history(&self.practice_session_history),
        }
    }

    /// Clears the session for reuse: everything goes back to its initial
    /// value but the receipt, which is kept.
    pub fn reset(self) -> (fresh: PracticeSessionData)
        ensures
            fresh@ == self@.reset(),
            fresh@.wf(),
    {
        PracticeSessionData {
            practice_session_history: None,
            all_keys_map: KeysMap::new(),
            current_key_data: None,
            start_timestamp: None,
            receipt: self.receipt,
        }
    }
}

} // verus!
