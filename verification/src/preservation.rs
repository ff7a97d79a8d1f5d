//! Every operation keeps the invariant of the recorder.
use crate::leader::{lemma_slot_bounds, opt_nat};
use crate::state::{heights_rise, ticks_past, ticks_up_to, Flusher, RecorderState, Stage};
use crate::types::{EntryModel, PohEntry};
use vstd::prelude::*;

verus! {

/// A cache that is cut in two at height `max` falls into the ticks up to that height
/// and the ticks past it.
pub proof fn lemma_split(cache: Seq<(EntryModel, u64)>, max: u64, n: int)
    requires
        0 <= n <= cache.len(),
        forall|i: int| 0 <= i < n ==> (#[trigger] cache[i]).1 <= max,
        forall|i: int| n <= i < cache.len() ==> (#[trigger] cache[i]).1 > max,
    ensures
        ticks_up_to(cache, max) == cache.take(n),
        ticks_past(cache, max) == cache.skip(n),
    decreases cache.len(),
{
    reveal(Seq::filter);
    if cache.len() > 0 {
        let rest = cache.drop_last();
        if n == cache.len() {
            lemma_split(rest, max, n - 1);
            assert(rest.take(n - 1).push(cache.last()) =~= cache.take(n));
            assert(rest.skip(n - 1) =~= cache.skip(n));
        } else {
            lemma_split(rest, max, n);
            assert(rest.take(n) =~= cache.take(n));
            assert(rest.skip(n).push(cache.last()) =~= cache.skip(n));
        }
    } else {
        assert(cache.take(n) =~= cache);
        assert(cache.skip(n) =~= cache);
    }
}

/// Where a cache with rising heights is to be cut at height `max`.
pub proof fn lemma_cut(cache: Seq<(EntryModel, u64)>, max: u64) -> (n: int)
    requires
        heights_rise(cache),
    ensures
        0 <= n <= cache.len(),
        forall|i: int| 0 <= i < n ==> (#[trigger] cache[i]).1 <= max,
        forall|i: int| n <= i < cache.len() ==> (#[trigger] cache[i]).1 > max,
        ticks_up_to(cache, max) == cache.take(n),
        ticks_past(cache, max) == cache.skip(n),
    decreases cache.len(),
{
    let n: int = if cache.len() == 0 {
        0
    } else if cache.last().1 <= max {
        cache.len() as int
    } else {
        lemma_cut(cache.drop_last(), max)
    };
    assert forall|i: int| 0 <= i < n implies (#[trigger] cache[i]).1 <= max by {
        if n < cache.len() {
            assert(cache.drop_last()[i] == cache[i]);
        }
    }
    assert forall|i: int| n <= i < cache.len() implies (#[trigger] cache[i]).1 > max by {
        if i < cache.len() - 1 {
            assert(cache.drop_last()[i] == cache[i]);
        }
    }
    lemma_split(cache, max, n);
    n
}

/// What the request holds while `by` flushes.
pub open spec fn request_of(s: RecorderState, by: Flusher) -> bool {
    &&& s.request is Some <==> !(by is Tick)
    &&& s.request matches Some(r) ==> r.transactions.len() > 0
}

/// The recorder has no bank, or one that takes entries at the current height.
pub open spec fn bank_in_range(s: RecorderState) -> bool {
    s.working_bank matches Some(w) ==> {
        &&& w.min_tick_height <= s.tick_height < w.max_tick_height
        &&& s.tick_cache.len() == 0
    }
}

/// A flush that has heard about its ticks waits for the bank to be cleared, or is over with
/// an empty cache and with a bank that takes entries.
pub proof fn lemma_flush_sent_inv(s: RecorderState, by: Flusher, sent: bool)
    requires
        s.core_inv(),
        request_of(s, by),
        s.flush_error(!(by is Record)) is None,
        s.end_fits(),
    ensures
        ({
            let (t, action) = s.flush_sent(by, sent);
            &&& t.core_inv()
            &&& action is Some ==> t.inv()
            &&& action is None ==> {
                &&& t == (RecorderState { tick_cache: Seq::empty(), ..s })
                &&& bank_in_range(t)
                &&& !t.bank_full()
            }
        }),
{
    let max = s.working_bank->0.max_tick_height;
    let n = lemma_cut(s.tick_cache, max);
    let (t, action) = s.flush_sent(by, sent);
    let next = choose|next: Option<nat>| #[trigger] s.leader_ticks_of(next);
    assert(t.leader_ticks_of(next));
    if !s.bank_full() && sent {
        assert(n == s.tick_cache.len()) by {
            if n < s.tick_cache.len() {
                assert(s.tick_cache[n].1 > max);
            }
        }
        assert(t.tick_cache =~= Seq::empty());
    }
}

/// A flush is refused, or waits for an answer, or is over with an empty cache and with a bank
/// that takes entries.
pub proof fn lemma_flush_cache_inv(s: RecorderState, tick: bool, by: Flusher)
    requires
        s.core_inv(),
        request_of(s, by),
        tick == !(by is Record),
        s.flush_fits(tick),
    ensures
        ({
            let (t, result) = s.flush_cache(tick, by);
            match result {
                Err(_) => t == s,
                Ok(Some(_)) => t.inv(),
                Ok(None) => {
                    &&& t == (RecorderState { tick_cache: Seq::empty(), ..s })
                    &&& t.core_inv()
                    &&& bank_in_range(t)
                    &&& !t.bank_full()
                },
            }
        }),
{
    let (t, result) = s.flush_cache(tick, by);
    if s.flush_error(tick) is None {
        if s.due_ticks().len() > 0 {
            let next = choose|next: Option<nat>| #[trigger] s.leader_ticks_of(next);
            assert(t.leader_ticks_of(next));
        } else {
            lemma_flush_sent_inv(s, by, true);
        }
    }
}

/// Only the stage and the request differ.
proof fn lemma_staged(s: RecorderState, t: RecorderState)
    requires
        s.core_inv(),
        t == (RecorderState { stage: t.stage, request: t.request, ..s }),
    ensures
        t.core_inv(),
{
    let next = choose|next: Option<nat>| #[trigger] s.leader_ticks_of(next);
    assert(t.leader_ticks_of(next));
}

/// PoH is asked to record only while the bank takes entries.
pub proof fn lemma_record_poh_inv(s: RecorderState)
    requires
        s.core_inv(),
        request_of(s, Flusher::Record),
        bank_in_range(s),
    ensures
        s.record_poh().0.inv(),
{
    lemma_staged(s, s.record_poh().0);
}

/// An attempt to record keeps the invariant.
pub proof fn lemma_try_record_inv(s: RecorderState)
    requires
        s.core_inv(),
        request_of(s, Flusher::Record),
        s.flush_fits(false),
    ensures
        s.try_record().0.inv(),
{
    lemma_flush_cache_inv(s, false, Flusher::Record);
    let (t, result) = s.flush_cache(false, Flusher::Record);
    match result {
        Err(error) => lemma_staged(s, s.try_record().0),
        Ok(Some(_)) => {},
        Ok(None) => lemma_record_poh_inv(t),
    }
}

/// What follows a flush keeps the invariant.
pub proof fn lemma_after_flush_inv(s: RecorderState, by: Flusher)
    requires
        s.core_inv(),
        request_of(s, by),
        by is Record ==> bank_in_range(s),
        by is RecordTick ==> s.flush_fits(false),
    ensures
        s.after_flush(by).0.inv(),
{
    match by {
        Flusher::Tick => lemma_staged(s, s.after_flush(by).0),
        Flusher::Record => lemma_record_poh_inv(s),
        Flusher::RecordTick => lemma_try_record_inv(s),
    }
}

/// `flushed` keeps the invariant.
pub proof fn lemma_flushed_inv(s: RecorderState, sent: bool)
    requires
        s.inv(),
        s.stage is Flushing,
    ensures
        s.flushed(sent).0.inv(),
{
    let by = s.stage->Flushing_by;
    lemma_flush_sent_inv(s, by, sent);
    match s.flush_sent(by, sent) {
        (t, Some(_)) => {},
        (t, None) => lemma_after_flush_inv(t, by),
    }
}

/// A tick that is counted and cached stands above all others.
pub proof fn lemma_with_tick_inv(s: RecorderState, entry: PohEntry)
    requires
        s.core_inv(),
        s.tick_height < u64::MAX,
    ensures
        s.with_tick(entry).core_inv(),
{
    let t = s.with_tick(entry);
    let next = choose|next: Option<nat>| #[trigger] s.leader_ticks_of(next);
    assert(t.leader_ticks_of(next));
}

/// A tick of PoH keeps the invariant.
pub proof fn lemma_poh_tick_inv(s: RecorderState, poh_entry: Option<PohEntry>, by: Flusher)
    requires
        s.core_inv(),
        request_of(s, by),
        !(by is Record),
        s.tick_fits(poh_entry, by),
        by is RecordTick && poh_entry is None ==> s.flush_fits(false),
    ensures
        s.poh_tick(poh_entry, by).0.inv(),
{
    match poh_entry {
        None => lemma_after_flush_inv(s, by),
        Some(entry) => {
            let ticked = s.with_tick(entry);
            lemma_with_tick_inv(s, entry);
            if ticked.start_leader_at_tick is None {
                lemma_after_flush_inv(ticked, by);
            } else {
                lemma_flush_cache_inv(ticked, true, by);
                match ticked.flush_cache(true, by) {
                    (t, Ok(Some(_))) => {},
                    (t, _) => lemma_after_flush_inv(t, by),
                }
            }
        },
    }
}

/// A recorder whose bank is gone has the leader ticks of the slot that was found.
pub proof fn lemma_cleared_inv(s: RecorderState, next_leader_slot: Option<nat>)
    requires
        s.core_inv(),
    ensures
        s.cleared(next_leader_slot).core_inv(),
        s.cleared(next_leader_slot).working_bank is None,
{
    if s.working_bank is Some {
        assert(s.cleared(next_leader_slot).leader_ticks_of(next_leader_slot));
    }
}

/// A restart establishes the invariant.
proof fn lemma_restarted_inv(
    s: RecorderState,
    blockhash: solana_sdk::hash::Hash,
    start_slot: u64,
    next_leader_slot: Option<u64>,
)
    requires
        s.core_inv(),
        s.can_restart(start_slot, next_leader_slot),
    ensures
        s.restarted(blockhash, start_slot, next_leader_slot).0.inv(),
{
    let t = s.restarted(blockhash, start_slot, next_leader_slot).0;
    lemma_slot_bounds(start_slot as nat, s.ticks_per_slot);
    assert(t.leader_ticks_of(opt_nat(next_leader_slot)));
}

/// `reset` keeps the invariant.
pub proof fn lemma_reset_inv(
    s: RecorderState,
    blockhash: solana_sdk::hash::Hash,
    start_slot: u64,
    next_leader_slot: Option<u64>,
)
    requires
        s.inv(),
        s.idle(),
        s.can_restart(start_slot, next_leader_slot),
    ensures
        s.reset(blockhash, start_slot, next_leader_slot).0.inv(),
{
    if s.clear_asks() {
        lemma_staged(s, s.reset(blockhash, start_slot, next_leader_slot).0);
    } else {
        lemma_restarted_inv(s, blockhash, start_slot, next_leader_slot);
    }
}

/// `clear_bank` keeps the invariant.
pub proof fn lemma_clear_bank_inv(s: RecorderState)
    requires
        s.inv(),
        s.idle(),
    ensures
        s.clear_bank().0.inv(),
{
    lemma_staged(s, s.clear_bank().0);
}

/// `bank_cleared` keeps the invariant.
pub proof fn lemma_bank_cleared_inv(s: RecorderState, next_leader_slot: Option<u64>)
    requires
        s.inv(),
        s.stage is Clearing || s.stage is Resetting || s.stage is FlushClearing,
    ensures
        s.bank_cleared(next_leader_slot).0.inv(),
{
    let t = s.cleared(opt_nat(next_leader_slot));
    lemma_cleared_inv(s, opt_nat(next_leader_slot));
    match s.stage {
        Stage::Clearing => lemma_staged(t, s.bank_cleared(next_leader_slot).0),
        Stage::Resetting { blockhash, start_slot, next_leader_slot } => {
            lemma_restarted_inv(t, blockhash, start_slot, next_leader_slot);
        },
        Stage::FlushClearing { by, again } => {
            if again && s.clear_bank_signal {
                lemma_staged(t, s.bank_cleared(next_leader_slot).0);
            } else {
                lemma_after_flush_inv(t, by);
            }
        },
        _ => {},
    }
}

/// `poh_recorded` keeps the invariant.
pub proof fn lemma_poh_recorded_inv(s: RecorderState, poh_entry: Option<PohEntry>)
    requires
        s.inv(),
        s.stage is RecordingPoh,
    ensures
        s.poh_recorded(poh_entry).0.inv(),
{
    lemma_staged(s, s.poh_recorded(poh_entry).0);
}

/// `entry_sent` keeps the invariant.
pub proof fn lemma_entry_sent_inv(s: RecorderState, sent: bool)
    requires
        s.inv(),
        s.stage is SendingEntry,
    ensures
        s.entry_sent(sent).0.inv(),
{
    lemma_staged(s, s.entry_sent(sent).0);
}

} // verus!
