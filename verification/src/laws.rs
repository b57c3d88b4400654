//! What holds of every session, proved from the models of [`crate::views`].
//!
//! The contracts of the executable operations equate the session after a call
//! with a model function applied to the session before it, so each statement
//! below holds of the executable session as well.

use vstd::prelude::*;

use crate::models::KeyData;
use crate::transitions::SessionStates;
use crate::views::{
    catalog_shape, Call, MachineView, ReceiptView, SessionView, KEY_COUNT, REQUESTING_NEW_KEY,
    RESTING,
};

verus! {

/// A fresh session has the twelve keys with ids 0 to 11, none of them
/// practised.
pub proof fn initial_catalog_is_complete()
    ensures
        MachineView::initial().wf(),
        catalog_shape(SessionView::initial().keys),
        SessionView::initial().keys.len() == 12,
        forall|i: int|
            0 <= i < 12 ==> {
                &&& (#[trigger] SessionView::initial().keys[i]).nid == i
                &&& SessionView::initial().keys[i].repetitions == 0
            },
{
}

/// No call adds a key to the catalog, removes one or changes an id: a valid
/// machine stays valid, and key `i` keeps id `i`.
pub proof fn catalog_keeps_its_shape(machine: MachineView, call: Call)
    requires
        machine.wf(),
        call.wf(),
    ensures
        machine.after(call).wf(),
        machine.after(call).data.keys.len() == machine.data.keys.len() == 12,
        forall|i: int|
            0 <= i < 12 ==> (#[trigger] machine.after(call).data.keys[i]).nid
                == machine.data.keys[i].nid == i,
{
}

/// A change of repetitions that finds no current key changes nothing in the
/// data, the catalog included, and sends the machine back to
/// `RequestingNewKey`.
pub proof fn no_current_key_changes_nothing(machine: MachineView, delta: int)
    requires
        machine.data.current_key is None,
    ensures
        machine.step_key(delta).data == machine.data,
        machine.step_key(delta).state == SessionStates::RequestingNewKey,
{
}

/// Selecting a key, counting a repetition and taking it back leaves the
/// session as it was right after the selection: the key has the repetitions
/// it had before, in the catalog and in the current-key snapshot.
pub proof fn increment_then_decrement_restores(data: SessionView, index: int)
    requires
        data.wf(),
        0 <= index < KEY_COUNT,
        data.keys[index].repetitions < i32::MAX,
    ensures
        ({
            let selected = data.select_key(index);
            let counted = selected.apply_repetition_delta(1);
            let restored = counted.apply_repetition_delta(-1);
            &&& counted.keys[index].repetitions == data.keys[index].repetitions + 1
            &&& restored.keys[index].repetitions == data.keys[index].repetitions
            &&& restored == selected
        }),
{
    let selected = data.select_key(index);
    let restored = selected.apply_repetition_delta(1).apply_repetition_delta(-1);
    assert(restored.keys =~= selected.keys);
}

/// The history never loses an entry, except where the dispatcher runs the
/// entry behaviour of `SkippingKey` (see `skip_removes_the_newest_entry`) or
/// of `Finishing`, which clears the session once the receipt holds the
/// history. After any other call the old history is the beginning of the new
/// one.
pub proof fn history_only_grows(machine: MachineView, call: Call)
    requires
        !call.dispatches(machine, SessionStates::SkippingKey),
        !call.dispatches(machine, SessionStates::Finishing),
    ensures
        machine.after(call).data.history_len() >= machine.data.history_len(),
        machine.data.history matches Some(before) ==> {
            &&& machine.after(call).data.history matches Some(after)
            &&& before =~= after.take(before.len() as int)
        },
{
}

/// The entry behaviour of `SkippingKey` removes exactly one history entry,
/// the newest, when the history has one, and none otherwise.
pub proof fn skip_removes_the_newest_entry(machine: MachineView)
    ensures
        machine.data.history_len() > 0 ==> {
            &&& machine.skipping_key().data.history_len() == machine.data.history_len() - 1
            &&& machine.skipping_key().data.history == Some(
                machine.data.history->0.drop_last(),
            )
        },
        machine.data.history_len() == 0 ==> machine.skipping_key().data.history
            == machine.data.history,
{
}

/// The receipt stored by the entry behaviour of `Finishing` holds the
/// catalog and the history of that moment. It is a copy: whatever a later
/// call does to the catalog or the history, the stored receipt stays as it
/// is, until the dispatcher runs the entry behaviour of `Finishing` again.
pub proof fn receipt_is_a_snapshot(machine: MachineView, call: Call)
    requires
        !call.dispatches(machine, SessionStates::Finishing),
    ensures
        machine.finishing().data.receipt == Some(
            ReceiptView {
                key_data_archive: Some(machine.data.keys),
                time_stamp_archive: machine.data.history,
            },
        ),
        machine.after(call).data.receipt == machine.data.receipt,
{
}

/// When the dispatcher runs the entry behaviour of `Finishing`, the receipt
/// that it leaves holds the catalog and the history that the session had
/// when the dispatcher was called, and the rest of the data is that of a
/// fresh session.
pub proof fn finishing_keeps_only_the_receipt(machine: MachineView, index: int)
    requires
        machine.state == SessionStates::Finishing,
    ensures
        machine.dispatch(index).data == (SessionView {
            receipt: Some(
                ReceiptView {
                    key_data_archive: Some(machine.data.keys),
                    time_stamp_archive: machine.data.history,
                },
            ),
            ..SessionView::initial()
        }),
        machine.dispatch(index).state == SessionStates::Finishing,
{
}

/// A key request followed by work ends in `Working` with the picked key as
/// the current key, counted once: its repetitions are one more than they
/// were, in the snapshot and in the catalog, and no other key has changed.
/// The history has gained the two entries.
pub proof fn new_key_counts_once(machine: MachineView, time: i64, index: int, later: i64)
    requires
        machine.wf(),
        0 <= index < KEY_COUNT,
        machine.data.keys[index].repetitions < i32::MAX,
    ensures
        ({
            let picked = machine.data.keys[index];
            let counted = KeyData { repetitions: (picked.repetitions + 1) as i32, ..picked };
            let after = machine.new_key(time, index, later);
            &&& after.state == SessionStates::Working
            &&& after.data.current_key == Some(counted)
            &&& after.data.keys == machine.data.keys.update(index, counted)
            &&& after.data.history_len() == machine.data.history_len() + 2
        }),
{
    let requested = machine.after(Call::ToRequestingNewKey { time });
    let picked = requested.after(Call::Dispatch { index });
    let started = picked.after(Call::ToWorking { time: later });
    assert(started.data.follows_key_request());
}

/// Work that is taken up again after a rest is not counted a second time:
/// a rest and the work that follows it leave every key as it was.
pub proof fn resumed_work_is_not_counted(
    machine: MachineView,
    rested: i64,
    resumed: i64,
    index: int,
)
    ensures
        ({
            let after = machine.after(Call::ToResting { time: rested }).after(
                Call::Dispatch { index },
            ).after(Call::ToWorking { time: resumed }).after(Call::Dispatch { index });
            &&& after.state == SessionStates::Working
            &&& after.data.keys == machine.data.keys
            &&& after.data.current_key == machine.data.current_key
        }),
{
    assert(RESTING@ != REQUESTING_NEW_KEY@) by {
        reveal_strlit("Resting");
        reveal_strlit("Requesting New Key");
        assert(RESTING@.len() == 7);
        assert(REQUESTING_NEW_KEY@.len() == 18);
    }
    let resting = machine.after(Call::ToResting { time: rested }).after(Call::Dispatch { index });
    let working = resting.after(Call::ToWorking { time: resumed });
    assert(!working.data.follows_key_request());
}

} // verus!
