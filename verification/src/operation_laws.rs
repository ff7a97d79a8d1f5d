//! What an operation comes to from its first call to its end.
use crate::action::ActionModel;
use crate::leader::{lemma_slot_bounds, opt_nat};
use crate::preservation::{lemma_split, lemma_with_tick_inv};
use crate::state::{ticks_past, RecorderState, RequestModel, Stage};
use crate::types::{entry_of, EntryModel, Error, PohEntry, PohRecorderError, PohStart, WorkingBank};
use vstd::prelude::*;

verus! {

/// While the recorder is not past the end of the bank's range, all of a cache is due.
proof fn lemma_all_due(s: RecorderState)
    requires
        s.cache_ordered(),
        s.tick_height <= s.working_bank->0.max_tick_height,
    ensures
        s.due_ticks() == s.tick_cache,
        ticks_past(s.tick_cache, s.working_bank->0.max_tick_height) == Seq::<
            (EntryModel, u64),
        >::empty(),
{
    let n = s.tick_cache.len() as int;
    lemma_split(s.tick_cache, s.working_bank->0.max_tick_height, n);
    assert(s.tick_cache.take(n) =~= s.tick_cache);
    assert(s.tick_cache.skip(n) =~= Seq::empty());
}

/// The recorder with an empty cache.
pub open spec fn emptied(s: RecorderState) -> RecorderState {
    RecorderState { tick_cache: Seq::empty(), ..s }
}

/// What a record is answered with at first, case by case.
pub proof fn law_record_answers(s: RecorderState, request: RequestModel)
    requires
        s.inv(),
        s.idle(),
    ensures
        ({
            let action = s.record(request).1;
            let w = s.working_bank->0;
            let begun = s.working_bank is Some && w.min_tick_height <= s.tick_height;
            let due = s.due_ticks().len() > 0;
            let meant = w.bank.slot == request.bank_slot;
            &&& action is Flush <==> begun && due
            &&& action is ClearBank <==> begun && !due && s.bank_full()
            &&& action is RecordPoh <==> begun && !due && !s.bank_full() && meant
            &&& action == ActionModel::Done(
                Err(Error::PohRecorderError(PohRecorderError::MinHeightNotReached)),
            ) <==> s.working_bank is Some && !begun
            &&& action == ActionModel::Done(
                Err(Error::PohRecorderError(PohRecorderError::MaxHeightReached)),
            ) <==> s.working_bank is None || (begun && !due && !s.bank_full() && !meant)
        }),
{
}

/// What a tick that PoH produced is answered with at first, case by case.
pub proof fn law_tick_answers(s: RecorderState, poh_entry: PohEntry)
    requires
        s.inv(),
        s.idle(),
        s.tick_height < u64::MAX,
    ensures
        ({
            let action = s.tick(Some(poh_entry)).1;
            let ticked = s.with_tick(poh_entry);
            let w = s.working_bank->0;
            let begun = s.start_leader_at_tick is Some && s.working_bank is Some
                && w.min_tick_height < s.tick_height + 1;
            let due = ticked.due_ticks().len() > 0;
            &&& action is Flush <==> begun && due
            &&& action is ClearBank <==> begun && !due
            &&& action == ActionModel::Done(Ok(())) <==> !begun
        }),
{
    let ticked = s.with_tick(poh_entry);
    lemma_with_tick_inv(s, poh_entry);
    if s.working_bank is Some && ticked.tick_height <= s.working_bank->0.max_tick_height {
        lemma_all_due(ticked);
    }
}

/// Recording for the working bank, within its range of heights: the cached ticks are
/// flushed if there are any, PoH records the mixin, and the entry that it returns is sent
/// with the transactions at the current height. That done, the recorder is as it was, with
/// an empty cache.
pub proof fn law_record_passes(s: RecorderState, request: RequestModel, poh_entry: PohEntry)
    requires
        s.inv(),
        s.idle(),
        request.transactions.len() > 0,
        s.working_bank matches Some(w) && w.min_tick_height <= s.tick_height < w.max_tick_height
            && w.bank.slot == request.bank_slot,
    ensures
        ({
            let bank = s.working_bank->0.bank;
            let (s1, a1) = s.record(request);
            let (s2, a2) = if s.tick_cache.len() > 0 {
                s1.flushed(true)
            } else {
                (s1, a1)
            };
            let (s3, a3) = s2.poh_recorded(Some(poh_entry));
            let (s4, a4) = s3.entry_sent(true);
            &&& s.tick_cache.len() > 0 ==> s1.stage is Flushing
            &&& s.tick_cache.len() > 0 ==> a1 == (ActionModel::Flush {
                bank,
                entries: s.tick_cache,
            })
            &&& s2.stage is RecordingPoh
            &&& a2 == (ActionModel::RecordPoh { mixin: request.mixin })
            &&& s3.stage is SendingEntry
            &&& a3 == (ActionModel::Send {
                bank,
                entries: seq![(entry_of(poh_entry, request.transactions), s.tick_height as u64)],
            })
            &&& a4 == ActionModel::Done(Ok(()))
            &&& s4 == emptied(s)
        }),
{
    lemma_all_due(s);
    assert(s.tick_cache.len() == 0 ==> s.tick_cache == Seq::<(EntryModel, u64)>::empty());
}

/// When PoH cannot record because its next hash needs to be a tick, it is ticked, and the
/// tick is treated as any other: counted, and sent if a slot to lead is known. While the
/// bank's range goes on PoH is asked again; with the last tick of the range the bank is
/// given up and the record is refused.
pub proof fn law_record_after_tick(
    s: RecorderState,
    poh_entry: PohEntry,
    next_leader_slot: Option<u64>,
)
    requires
        s.inv(),
        s.stage is RecordingPoh,
    ensures
        ({
            let w = s.working_bank->0;
            let ticked = s.with_tick(poh_entry);
            let sends = s.start_leader_at_tick is Some;
            let (s1, a1) = s.poh_recorded(None);
            let (s2, a2) = s1.poh_ticked(Some(poh_entry));
            let (s3, a3) = if sends {
                s2.flushed(true)
            } else {
                (s2, a2)
            };
            let (s4, a4) = s3.bank_cleared(next_leader_slot);
            &&& a1 is TickPoh
            &&& s1.poh_ticked(None) == (s, ActionModel::RecordPoh { mixin: s.request->0.mixin })
            &&& sends ==> a2 == (ActionModel::Flush {
                bank: w.bank,
                entries: seq![(entry_of(poh_entry, Seq::empty()), (s.tick_height + 1) as u64)],
            })
            &&& s.tick_height + 1 < w.max_tick_height ==> {
                &&& a3 == (ActionModel::RecordPoh { mixin: s.request->0.mixin })
                &&& s3 == emptied(ticked)
                &&& s3.stage is RecordingPoh
            }
            &&& s.tick_height + 1 == w.max_tick_height ==> {
                &&& a3 == (ActionModel::ClearBank {
                    id: s.id,
                    given_up: Some(w.bank),
                    signal: s.clear_bank_signal,
                })
                &&& a4 == ActionModel::Done(
                    Err(Error::PohRecorderError(PohRecorderError::MaxHeightReached)),
                )
                &&& s4.working_bank is None
                &&& s4.tick_cache.len() == 0
                &&& s4.tick_height == s.tick_height + 1
            }
        }),
{
    let ticked = s.with_tick(poh_entry);
    lemma_with_tick_inv(s, poh_entry);
    lemma_all_due(s);
    lemma_all_due(ticked);
    assert(s.tick_cache =~= Seq::empty());
    assert(emptied(ticked).tick_cache =~= Seq::empty());
    let one = seq![(entry_of(poh_entry, Seq::empty()), (s.tick_height + 1) as u64)];
    assert(s.start_leader_at_tick is Some ==> ticked.tick_cache =~= one);
    lemma_all_due(emptied(ticked));
}

/// An entry that PoH has recorded but that nobody receives makes the record fail, and
/// changes nothing else.
pub proof fn law_record_without_receiver(s: RecorderState)
    requires
        s.inv(),
        s.stage is SendingEntry,
    ensures
        s.entry_sent(false).1 == ActionModel::Done(Err(Error::SendError)),
        s.entry_sent(false).0 == s.entry_sent(true).0,
        s.entry_sent(false).0 == (RecorderState { stage: Stage::Idle, ..s }),
{
}

/// Before the bank's range begins a record is refused, and nothing changes.
pub proof fn law_record_too_early(s: RecorderState, request: RequestModel)
    requires
        s.inv(),
        s.idle(),
        s.working_bank matches Some(w) && s.tick_height < w.min_tick_height,
    ensures
        s.record(request) == s.refused(PohRecorderError::MinHeightNotReached),
        s.record(request).0 == s,
{
}

/// Without a bank a record is refused, and nothing changes.
pub proof fn law_record_without_bank(s: RecorderState, request: RequestModel)
    requires
        s.inv(),
        s.idle(),
        s.working_bank is None,
    ensures
        s.record(request) == s.refused(PohRecorderError::MaxHeightReached),
        s.record(request).0 == s,
{
}

/// A record for another slot than the bank's is refused. Of the cached ticks the ones that
/// are due are sent before that.
pub proof fn law_record_for_other_slot(s: RecorderState, request: RequestModel)
    requires
        s.inv(),
        s.idle(),
        s.working_bank matches Some(w) && w.min_tick_height <= s.tick_height < w.max_tick_height
            && w.bank.slot != request.bank_slot,
    ensures
        ({
            let (s1, a1) = s.record(request);
            let (s2, a2) = if s.tick_cache.len() > 0 {
                s1.flushed(true)
            } else {
                (s1, a1)
            };
            &&& s.tick_cache.len() > 0 ==> a1 == (ActionModel::Flush {
                bank: s.working_bank->0.bank,
                entries: s.tick_cache,
            })
            &&& (s2, a2) == emptied(s).refused(PohRecorderError::MaxHeightReached)
            &&& s2 == emptied(s)
        }),
{
    lemma_all_due(s);
    assert(s.tick_cache.len() == 0 ==> s.tick_cache == Seq::<(EntryModel, u64)>::empty());
}

/// At the end of the bank's range a record is refused. The ticks that are due are sent, the
/// bank is given up, and the recorder goes on after the slot of the range's last tick.
pub proof fn law_record_at_end(
    s: RecorderState,
    request: RequestModel,
    next_leader_slot: Option<u64>,
)
    requires
        s.inv(),
        s.idle(),
        s.bank_full(),
        s.working_bank->0.min_tick_height <= s.tick_height,
    ensures
        ({
            let w = s.working_bank->0;
            let (s1, a1) = s.record(request);
            let (s2, a2) = if s.due_ticks().len() > 0 {
                s1.flushed(true)
            } else {
                (s1, a1)
            };
            let (s3, a3) = s2.bank_cleared(next_leader_slot);
            &&& s.due_ticks().len() > 0 ==> a1 == (ActionModel::Flush {
                bank: w.bank,
                entries: s.due_ticks(),
            })
            &&& s2.stage is FlushClearing
            &&& a2 == (ActionModel::ClearBank {
                id: s.id,
                given_up: Some(w.bank),
                signal: s.clear_bank_signal,
            })
            &&& a3 == ActionModel::Done(
                Err(Error::PohRecorderError(PohRecorderError::MaxHeightReached)),
            )
            &&& s3 == (RecorderState {
                working_bank: None,
                tick_cache: ticks_past(s.tick_cache, w.max_tick_height),
                ..s.starting_after(w.max_tick_height as nat / s.ticks_per_slot).with_leader_slot(
                    opt_nat(next_leader_slot),
                )
            })
        }),
{
}

/// When PoH has no tick to give, a tick changes nothing.
pub proof fn law_no_tick(s: RecorderState)
    requires
        s.inv(),
        s.idle(),
    ensures
        s.tick(None) == s.finished(Ok(())),
        s.tick(None).0 == s,
{
}

/// A tick is counted and cached, and no more, while the recorder has no bank or has not gone
/// past the start of its range; without a slot to lead it is only counted.
pub proof fn law_tick_waits(s: RecorderState, poh_entry: PohEntry)
    requires
        s.inv(),
        s.idle(),
        s.start_leader_at_tick is None || s.working_bank is None || s.tick_height + 1
            <= s.working_bank->0.min_tick_height,
    ensures
        s.tick(Some(poh_entry)) == s.with_tick(poh_entry).finished(Ok(())),
        s.tick(Some(poh_entry)).0 == s.with_tick(poh_entry),
        s.start_leader_at_tick is None ==> s.with_tick(poh_entry).tick_cache == s.tick_cache,
{
}

/// A tick within the bank's range is sent together with all ticks cached before it. Within
/// the range the recorder keeps the bank; with the last tick of the range it gives the
/// bank up and goes on after the slot of that tick.
pub proof fn law_tick_is_sent(
    s: RecorderState,
    poh_entry: PohEntry,
    next_leader_slot: Option<u64>,
)
    requires
        s.inv(),
        s.idle(),
        s.tick_height < u64::MAX,
        s.start_leader_at_tick is Some,
        s.working_bank matches Some(w) && w.min_tick_height < s.tick_height + 1
            <= w.max_tick_height,
    ensures
        ({
            let w = s.working_bank->0;
            let ticked = s.with_tick(poh_entry);
            let (s1, a1) = s.tick(Some(poh_entry));
            let (s2, a2) = s1.flushed(true);
            let (s3, a3) = s2.bank_cleared(next_leader_slot);
            &&& s1.stage is Flushing
            &&& a1 == (ActionModel::Flush {
                bank: w.bank,
                entries: s.tick_cache.push(
                    (entry_of(poh_entry, Seq::empty()), (s.tick_height + 1) as u64),
                ),
            })
            &&& s.tick_height + 1 < w.max_tick_height ==> {
                &&& a2 == ActionModel::Done(Ok(()))
                &&& s2 == emptied(ticked)
            }
            &&& s.tick_height + 1 == w.max_tick_height ==> {
                &&& s2.stage is FlushClearing
                &&& a2 == (ActionModel::ClearBank {
                    id: s.id,
                    given_up: Some(w.bank),
                    signal: s.clear_bank_signal,
                })
                &&& a3 == ActionModel::Done(Ok(()))
                &&& s3 == (RecorderState {
                    working_bank: None,
                    tick_cache: Seq::empty(),
                    ..ticked.starting_after(
                        w.max_tick_height as nat / s.ticks_per_slot,
                    ).with_leader_slot(opt_nat(next_leader_slot))
                })
            }
        }),
{
    let ticked = s.with_tick(poh_entry);
    lemma_with_tick_inv(s, poh_entry);
    lemma_all_due(ticked);
    assert(ticked.due_ticks().len() > 0);
}

/// When the ticks of a flush cannot be sent, they stay in the cache and the bank is given
/// up: a tick ends there, a record is refused.
pub proof fn law_flush_without_receiver(s: RecorderState, next_leader_slot: Option<u64>)
    requires
        s.inv(),
        s.stage is Flushing,
    ensures
        ({
            let by = s.stage->Flushing_by;
            let (s1, a1) = s.flushed(false);
            let (s2, a2) = s1.bank_cleared(next_leader_slot);
            let (s3, a3) = if s.bank_full() && s.clear_bank_signal {
                s2.bank_cleared(None)
            } else {
                (s2, a2)
            };
            &&& a1 == (ActionModel::ClearBank {
                id: s.id,
                given_up: Some(s.working_bank->0.bank),
                signal: s.clear_bank_signal,
            })
            &&& s.bank_full() && s.clear_bank_signal ==> a2 == (ActionModel::ClearBank {
                id: s.id,
                given_up: None,
                signal: true,
            })
            &&& s3.tick_cache == s.tick_cache
            &&& s3.tick_height == s.tick_height
            &&& s3.working_bank is None
            &&& s3.idle()
            &&& s3.leader_ticks_of(opt_nat(next_leader_slot))
            &&& by is Tick ==> a3 == ActionModel::Done(Ok(()))
            &&& !(by is Tick) ==> a3 == ActionModel::Done(
                Err(Error::PohRecorderError(PohRecorderError::MaxHeightReached)),
            )
        }),
{
}

/// Clearing gives the bank up, leaves the ticks as they are, and takes the next slot to lead
/// from the schedule if there was a bank. It is signalled if and only if the recorder was
/// made with a signal.
pub proof fn law_clear(s: RecorderState, next_leader_slot: Option<u64>)
    requires
        s.inv(),
        s.idle(),
    ensures
        ({
            let (s1, a1) = s.clear_bank();
            let (s2, a2) = if s1.idle() {
                (s1, a1)
            } else {
                s1.bank_cleared(next_leader_slot)
            };
            &&& s1.idle() <==> s.working_bank is None && !s.clear_bank_signal
            &&& !s1.idle() ==> a1 == (ActionModel::ClearBank {
                id: s.id,
                given_up: s.bank(),
                signal: s.clear_bank_signal,
            })
            &&& a2 == ActionModel::Done(Ok(()))
            &&& s2 == s.cleared(opt_nat(next_leader_slot))
            &&& s2.working_bank is None
            &&& s2.tick_cache == s.tick_cache
            &&& s2.tick_height == s.tick_height
        }),
{
}

/// A reset makes the recorder what a new one would be at the last tick of `start_slot`:
/// without a bank, with an empty cache, and with `next_leader_slot` to lead. PoH starts
/// over from `blockhash`. What came before makes no difference, nor does the slot that
/// was found for a bank that was given up.
pub proof fn law_reset(
    s: RecorderState,
    blockhash: solana_sdk::hash::Hash,
    start_slot: u64,
    next_leader_slot: Option<u64>,
    found: Option<u64>,
)
    requires
        s.inv(),
        s.idle(),
        s.can_restart(start_slot, next_leader_slot),
    ensures
        ({
            let (s1, a1) = s.reset(blockhash, start_slot, next_leader_slot);
            let (s2, a2) = if s.clear_asks() {
                s1.bank_cleared(found)
            } else {
                (s1, a1)
            };
            &&& s.clear_asks() ==> a1 == (ActionModel::ClearBank {
                id: s.id,
                given_up: s.bank(),
                signal: s.clear_bank_signal,
            })
            &&& a2 == ActionModel::ResetPoh(
                PohStart { hash: blockhash, hashes_per_tick: s.hashes_per_tick },
            )
            &&& s2.idle()
            &&& s2 == RecorderState::initial(
                ((start_slot + 1) * s.ticks_per_slot - 1) as nat,
                start_slot as nat,
                opt_nat(next_leader_slot),
                s.ticks_per_slot,
                s.id,
                s.clear_bank_signal,
                s.hashes_per_tick,
            )
        }),
{
    lemma_slot_bounds(start_slot as nat, s.ticks_per_slot);
}

/// A bank that is set is the recorder's, which counts as leading from then on.
pub proof fn law_bank_is_set(s: RecorderState, w: WorkingBank)
    requires
        s.inv(),
        s.idle(),
    ensures
        s.set_working_bank(w).bank() == Some(w.bank),
        forall|n: nat| s.set_working_bank(w).would_be_leader(n),
{
}

} // verus!
