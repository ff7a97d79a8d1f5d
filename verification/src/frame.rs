//! What the steps of an operation leave as it is.
use crate::preservation::{lemma_cut, lemma_flush_sent_inv, lemma_with_tick_inv};
use crate::state::{heights_rise, ticks_past, ticks_up_to, Flusher, RecorderState};
use crate::types::{EntryModel, PohEntry};
use vstd::prelude::*;

verus! {

/// The two recorders were set up alike.
pub open spec fn same_setup(s: RecorderState, t: RecorderState) -> bool {
    &&& t.id == s.id
    &&& t.ticks_per_slot == s.ticks_per_slot
    &&& t.grace_ticks == s.grace_ticks
    &&& t.hashes_per_tick == s.hashes_per_tick
    &&& t.clear_bank_signal == s.clear_bank_signal
}

/// The second recorder goes on from the slot that the first one goes on from, or from the
/// slot of the last tick of its bank, which is complete.
pub open spec fn same_start(s: RecorderState, t: RecorderState) -> bool {
    let next = s.starting_after(s.working_bank->0.max_tick_height as nat / s.ticks_per_slot);
    ||| t.start_slot == s.start_slot && t.start_tick == s.start_tick
    ||| s.bank_full() && t.start_slot == next.start_slot && t.start_tick == next.start_tick
}

/// The two recorders are alike but for the stage, the request and, at the end of a bank,
/// the slot that they go on from.
pub open spec fn same_ticks(s: RecorderState, t: RecorderState) -> bool {
    &&& same_setup(s, t)
    &&& t.tick_height == s.tick_height
    &&& t.tick_cache == s.tick_cache
    &&& t.working_bank == s.working_bank
    &&& t.start_leader_at_tick == s.start_leader_at_tick
    &&& t.last_leader_tick == s.last_leader_tick
    &&& same_start(s, t)
}

/// Flushing the cache hands ticks out, and changes nothing else that is counted.
pub proof fn lemma_flush_cache_frame(s: RecorderState, tick: bool, by: Flusher)
    requires
        s.cache_ordered(),
    ensures
        same_ticks(s, s.flush_cache(tick, by).0),
{
    if s.flush_error(tick) is None && s.due_ticks().len() == 0 {
        let n = lemma_cut(s.tick_cache, s.working_bank->0.max_tick_height);
        assert(s.tick_cache.skip(0) =~= s.tick_cache);
    }
}

/// What follows a flush changes nothing that is counted, and keeps the request or ends it.
pub proof fn lemma_after_flush_frame(s: RecorderState, by: Flusher)
    requires
        s.cache_ordered(),
    ensures
        same_ticks(s, s.after_flush(by).0),
        s.after_flush(by).0.request is Some ==> s.after_flush(by).0.request == s.request,
{
    if by is RecordTick {
        lemma_flush_cache_frame(s, false, Flusher::Record);
    }
}

/// A tick of PoH is counted and cached, and changes nothing else that is counted.
pub proof fn lemma_poh_tick_frame(s: RecorderState, poh_entry: Option<PohEntry>, by: Flusher)
    requires
        s.core_inv(),
        s.tick_fits(poh_entry, by),
    ensures
        poh_entry is None ==> same_ticks(s, s.poh_tick(poh_entry, by).0),
        s.poh_tick(poh_entry, by).0.request is Some ==> s.poh_tick(poh_entry, by).0.request
            == s.request,
        poh_entry matches Some(entry) ==> same_ticks(
            s.with_tick(entry),
            s.poh_tick(poh_entry, by).0,
        ),
{
    match poh_entry {
        None => lemma_after_flush_frame(s, by),
        Some(entry) => {
            let ticked = s.with_tick(entry);
            lemma_with_tick_inv(s, entry);
            lemma_flush_cache_frame(ticked, true, by);
            lemma_after_flush_frame(ticked, by);
            lemma_after_flush_frame(ticked.flush_cache(true, by).0, by);
        },
    }
}

/// The ticks up to a height, followed by those past it, make up the cache.
pub proof fn lemma_cache_parts(cache: Seq<(EntryModel, u64)>, max: u64)
    requires
        heights_rise(cache),
    ensures
        cache == ticks_up_to(cache, max) + ticks_past(cache, max),
{
    let n = lemma_cut(cache, max);
    assert(cache =~= cache.take(n) + cache.skip(n));
}

/// Of a flush whose ticks were sent the ticks past the bank's range are left.
pub proof fn lemma_flush_sent_frame(s: RecorderState, by: Flusher, sent: bool)
    ensures
        s.flush_sent(by, sent).0.tick_height == s.tick_height,
        s.flush_sent(by, sent).0.working_bank == s.working_bank,
        same_setup(s, s.flush_sent(by, sent).0),
        same_start(s, s.flush_sent(by, sent).0),
        sent ==> s.flush_sent(by, sent).0.tick_cache == ticks_past(
            s.tick_cache,
            s.working_bank->0.max_tick_height,
        ),
        !sent ==> s.flush_sent(by, sent).0.tick_cache == s.tick_cache,
{
}

/// The ticks and the setup after a flush are those after its ticks were sent.
pub proof fn lemma_flushed_frame(s: RecorderState, sent: bool)
    requires
        s.inv(),
        s.stage is Flushing,
    ensures
        same_setup(s, s.flushed(sent).0),
        same_start(s, s.flushed(sent).0),
        s.flushed(sent).0.tick_height == s.tick_height,
        s.flushed(sent).0.working_bank == s.working_bank,
        s.flushed(sent).0.tick_cache == s.flush_sent(s.stage->Flushing_by, sent).0.tick_cache,
{
    let by = s.stage->Flushing_by;
    lemma_flush_sent_inv(s, by, sent);
    lemma_flush_sent_frame(s, by, sent);
    match s.flush_sent(by, sent) {
        (t, Some(action)) => {},
        (t, None) => lemma_after_flush_frame(t, by),
    }
}

} // verus!
