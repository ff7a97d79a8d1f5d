//! What the values that go in and out hold, when calls may be made, and what is asked of a
//! recorder.
use crate::action::{Action, ActionModel};
use crate::leader::{leader_slot_fits, opt_nat};
use crate::state::{Flusher, RecorderState};
use crate::types::{entries_model, Entry, PohEntry};
use vstd::prelude::*;

verus! {

/// The content of an entry is the entry's own number of hashes, hash and transactions, and it is
/// a tick exactly when it has no transactions.
pub proof fn law_entry_content(entry: Entry)
    ensures
        entry@.num_hashes == entry.num_hashes,
        entry@.hash == entry.hash,
        entry@.transactions == entry.transactions@,
        entry@.tick() <==> entry.transactions@.len() == 0,
{
}

/// The content of a list of entries is that of each of them, in order and with its height.
pub proof fn law_entries_content(entries: Seq<(Entry, u64)>)
    ensures
        entries_model(entries).len() == entries.len(),
        forall|i: int|
            0 <= i < entries.len() ==> {
                &&& (#[trigger] entries_model(entries)[i]).1 == entries[i].1
                &&& entries_model(entries)[i].0.num_hashes == entries[i].0.num_hashes
                &&& entries_model(entries)[i].0.hash == entries[i].0.hash
                &&& entries_model(entries)[i].0.transactions == entries[i].0.transactions@
            },
{
}

/// The content of an action is all that the action holds.
pub proof fn law_action_content(action: Action)
    ensures
        match action {
            Action::Flush { bank, entries } => {
                &&& action@ is Flush
                &&& action@->Flush_bank == bank
                &&& action@->Flush_entries.len() == entries@.len()
                &&& forall|i: int|
                    0 <= i < entries@.len() ==> (#[trigger] action@->Flush_entries[i]) == (
                        entries@[i].0@,
                        entries@[i].1,
                    )
            },
            Action::Send { bank, entries } => {
                &&& action@ is Send
                &&& action@->Send_bank == bank
                &&& action@->Send_entries.len() == entries@.len()
                &&& forall|i: int|
                    0 <= i < entries@.len() ==> (#[trigger] action@->Send_entries[i]) == (
                        entries@[i].0@,
                        entries@[i].1,
                    )
            },
            Action::ClearBank { id, given_up, signal } => action@ == (ActionModel::ClearBank {
                id,
                given_up,
                signal,
            }),
            Action::TickPoh => action@ is TickPoh,
            Action::RecordPoh { mixin } => action@ == (ActionModel::RecordPoh { mixin }),
            Action::ResetPoh(start) => action@ == ActionModel::ResetPoh(start),
            Action::Done(result) => action@ == ActionModel::Done(result),
        },
{
}

/// A slot that may be missing stands for the same slot as a natural number.
pub proof fn law_slot_content(slot: Option<u64>)
    ensures
        opt_nat(slot) is None <==> slot is None,
        slot matches Some(n) ==> opt_nat(slot) == Some(n as nat),
{
}

/// A slot to lead can be taken over exactly when its ticks can be counted in 64 bits; likewise
/// the slot after which a reset goes on.
pub proof fn law_slots_are_accepted(
    s: RecorderState,
    start_slot: u64,
    next_leader_slot: Option<u64>,
    ticks_per_slot: nat,
    grace_ticks: nat,
)
    ensures
        leader_slot_fits(next_leader_slot, ticks_per_slot, grace_ticks) <==> (
        next_leader_slot matches Some(slot) ==> {
            &&& 0 < ticks_per_slot
            &&& (slot + 1) * ticks_per_slot <= u64::MAX
            &&& slot * ticks_per_slot + grace_ticks <= u64::MAX
        }),
        s.can_restart(start_slot, next_leader_slot) <==> {
            &&& 0 < s.ticks_per_slot
            &&& (start_slot + 1) * s.ticks_per_slot <= u64::MAX
            &&& next_leader_slot matches Some(slot) ==> {
                &&& (slot + 1) * s.ticks_per_slot <= u64::MAX
                &&& slot * s.ticks_per_slot + s.grace_ticks <= u64::MAX
            }
        },
{
}

/// A record, a tick or a tick of PoH within a record may come whenever the heights that it leads
/// to can be counted in 64 bits.
pub proof fn law_ticks_are_accepted(s: RecorderState, poh_entry: PohEntry)
    ensures
        ({
            let w = s.working_bank->0;
            let next_slot_counts = {
                &&& 0 < s.ticks_per_slot
                &&& (w.max_tick_height as nat / s.ticks_per_slot + 1) * s.ticks_per_slot
                    <= u64::MAX
            };
            &&& s.idle() <==> s.stage is Idle
            &&& s.flush_fits(false) <==> {
                ||| s.working_bank is None
                ||| s.tick_height < w.min_tick_height
                ||| s.tick_height < w.max_tick_height
                ||| next_slot_counts
            }
            &&& s.tick_fits(None, Flusher::Tick)
            &&& s.tick_fits(None, Flusher::RecordTick)
            &&& s.tick_fits(Some(poh_entry), Flusher::Tick) <==> s.tick_height < u64::MAX && {
                ||| s.start_leader_at_tick is None
                ||| s.working_bank is None
                ||| s.tick_height + 1 <= w.min_tick_height
                ||| s.tick_height + 1 < w.max_tick_height
                ||| next_slot_counts
            }
            &&& s.tick_fits(Some(poh_entry), Flusher::RecordTick) <==> s.tick_height < u64::MAX && {
                ||| s.working_bank is None
                ||| s.tick_height + 1 < w.min_tick_height
                ||| s.tick_height + 1 < w.max_tick_height
                ||| next_slot_counts
            }
        }),
{
}

/// What can be relied on of every recorder: the cache holds ticks only, with rising heights that
/// the recorder has reached; half a slot is grace; the bank's slots are as long as the
/// recorder's; and what was asked to be recorded is kept from the first call of a record until
/// its entry is made, and at no other time.
pub proof fn law_recorder_is_sound(s: RecorderState)
    requires
        s.inv(),
    ensures
        s.tick_height <= u64::MAX,
        s.grace_ticks == s.ticks_per_slot / 2,
        forall|i: int, j: int|
            0 <= i < j < s.tick_cache.len() ==> (#[trigger] s.tick_cache[i]).1 < (
            #[trigger] s.tick_cache[j]).1,
        forall|i: int|
            0 <= i < s.tick_cache.len() ==> {
                &&& (#[trigger] s.tick_cache[i]).1 <= s.tick_height
                &&& s.tick_cache[i].0.transactions.len() == 0
            },
        s.working_bank matches Some(w) ==> w.bank.ticks_per_slot == s.ticks_per_slot,
        s.stage is Idle ==> s.request is None,
        s.stage is SendingEntry ==> s.request is None,
        s.request matches Some(r) ==> r.transactions.len() > 0,
        s.stage is RecordingPoh || s.stage is TickingPoh ==> {
            &&& s.request is Some
            &&& s.working_bank is Some
            &&& s.working_bank->0.min_tick_height <= s.tick_height
            &&& s.tick_height < s.working_bank->0.max_tick_height
            &&& s.working_bank->0.bank.slot == s.request->0.bank_slot
            &&& s.tick_cache.len() == 0
        },
{
}

/// The bank that a recorder hands out is that of its working bank.
pub proof fn law_bank_is_handed_out(s: RecorderState)
    ensures
        s.working_bank is None ==> s.bank() is None,
        s.working_bank matches Some(w) ==> s.bank() == Some(w.bank),
{
}

/// The leader tick is reached when the next tick is not before it, or when the recorder's first
/// tick is the grace ticks before it; the ticks afforded are those from the slot's first tick up
/// to the next one, none before that and none while the leader tick is not reached.
pub proof fn law_leader_tick_query(s: RecorderState)
    ensures
        s.in_step() <==> s.start_tick <= s.tick_height + 1,
        s.start_leader_at_tick is None ==> !s.leader_tick_reached(),
        s.start_leader_at_tick matches Some(leader_tick) ==> (s.leader_tick_reached() <==> {
            ||| leader_tick <= s.tick_height + 1
            ||| leader_tick == s.start_tick + s.grace_ticks
        }),
        !s.leader_tick_reached() ==> s.grace_ticks_afforded() == 0,
        s.start_leader_at_tick matches Some(leader_tick) ==> s.leader_tick_reached() ==> {
            &&& leader_tick <= s.grace_ticks ==> s.grace_ticks_afforded() == s.tick_height + 1
            &&& leader_tick > s.grace_ticks && s.tick_height + 1 + s.grace_ticks >= leader_tick
                ==> s.grace_ticks_afforded() + leader_tick == s.tick_height + 1 + s.grace_ticks
            &&& s.tick_height + 1 + s.grace_ticks < leader_tick ==> s.grace_ticks_afforded() == 0
        },
{
}

/// The recorder would lead with a bank, or when its slot to lead is not over and begins within
/// the ticks that are asked about.
pub proof fn law_would_be_leader_query(s: RecorderState, within_next_n_ticks: nat)
    ensures
        s.working_bank is Some ==> s.would_be_leader(within_next_n_ticks),
        s.working_bank is None && s.start_leader_at_tick is None ==> !s.would_be_leader(
            within_next_n_ticks,
        ),
        s.working_bank is None ==> (s.start_leader_at_tick matches Some(leader_tick) ==> (
        s.would_be_leader(within_next_n_ticks) <==> {
            &&& s.tick_height <= s.last_leader_tick
            &&& leader_tick <= s.tick_height + within_next_n_ticks + s.grace_ticks
        })),
{
}

} // verus!
