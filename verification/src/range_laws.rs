//! What calls come to when they follow each other: ticks over a bank's range, what a bank that is
//! given up leaves behind, and what a reset leads to.
use crate::action::ActionModel;
use crate::call_laws::{
    law_clearing_goes_on, law_clearing_takes_the_answer, law_flush_commits, law_flush_goes_on,
    law_reset_ends, law_tick_asks, law_tick_counts_and_caches,
};
use crate::content_laws::{law_leader_tick_query, law_would_be_leader_query};
use crate::preservation::{lemma_bank_cleared_inv, lemma_flushed_inv, lemma_poh_tick_inv};
use crate::state::{Flusher, RecorderState};
use crate::types::{Bank, EntryModel, PohEntry, WorkingBank};
use vstd::arithmetic::div_mod::lemma_div_multiples_vanish;
use vstd::prelude::*;

verus! {

/// A recorder that was ticked with each of `poh_entries` in turn, all that was flushed having
/// been sent.
pub open spec fn after_ticks(s: RecorderState, poh_entries: Seq<PohEntry>) -> RecorderState
    decreases poh_entries.len(),
{
    if poh_entries.len() == 0 {
        s
    } else {
        let t = after_ticks(s, poh_entries.drop_last()).tick(Some(poh_entries.last())).0;
        if t.stage is Flushing {
            t.flushed(true).0
        } else {
            t
        }
    }
}

/// The ticks that were flushed to `bank` meanwhile.
pub open spec fn flushed_to(s: RecorderState, poh_entries: Seq<PohEntry>, bank: Bank) -> Seq<
    (EntryModel, u64),
>
    decreases poh_entries.len(),
{
    if poh_entries.len() == 0 {
        Seq::empty()
    } else {
        let rest = poh_entries.drop_last();
        let before = flushed_to(s, rest, bank);
        match after_ticks(s, rest).tick(Some(poh_entries.last())).1 {
            ActionModel::Flush { bank: b, entries } if b == bank => before + entries,
            _ => before,
        }
    }
}

/// One tick within the range of the bank: it is sent with all that was cached.
proof fn lemma_tick_in_range(s: RecorderState, w: WorkingBank, poh_entry: PohEntry)
    requires
        s.inv(),
        s.stage is Idle,
        s.start_leader_at_tick is Some,
        s.working_bank == Some(w),
        w.min_tick_height <= s.tick_height < w.max_tick_height,
        s.tick_height + 1 == w.max_tick_height ==> s.tick_fits(Some(poh_entry), Flusher::Tick),
    ensures
        ({
            let (t, action) = s.tick(Some(poh_entry));
            let (u, end) = t.flushed(true);
            let tick = (
                EntryModel {
                    num_hashes: poh_entry.num_hashes,
                    hash: poh_entry.hash,
                    transactions: Seq::empty(),
                },
                (s.tick_height + 1) as u64,
            );
            &&& t.stage is Flushing
            &&& action == (ActionModel::Flush { bank: w.bank, entries: s.tick_cache.push(tick) })
            &&& u.inv()
            &&& s.tick_height + 1 < w.max_tick_height ==> {
                &&& u == (RecorderState {
                    tick_height: s.tick_height + 1,
                    tick_cache: Seq::empty(),
                    ..s
                })
                &&& end == ActionModel::Done(Ok(()))
            }
            &&& s.tick_height + 1 == w.max_tick_height ==> {
                &&& u.stage is FlushClearing
                &&& u.request is None
                &&& !u.stage->again
                &&& u.tick_height == s.tick_height + 1
                &&& u.tick_cache.len() == 0
                &&& u.working_bank == s.working_bank
                &&& u.ticks_per_slot == s.ticks_per_slot
                &&& u.start_slot == w.max_tick_height as nat / s.ticks_per_slot
                &&& end == (ActionModel::ClearBank {
                    id: s.id,
                    given_up: Some(w.bank),
                    signal: s.clear_bank_signal,
                })
            }
        }),
{
    let (t, action) = s.tick(Some(poh_entry));
    let entries = action->Flush_entries;
    law_tick_counts_and_caches(s, poh_entry);
    law_tick_asks(s, poh_entry);
    assert(t.tick_cache =~= s.tick_cache.push(t.tick_cache.last()));
    assert forall|i: int| 0 <= i < t.tick_cache.len() implies (#[trigger] t.tick_cache[i]).1
        <= w.max_tick_height by {
        if i < s.tick_cache.len() {
            assert(t.tick_cache[i] == s.tick_cache[i]);
        }
    }
    assert(t.tick_cache[0].1 <= w.max_tick_height);
    assert(entries.len() == t.tick_cache.len()) by {
        let last = t.tick_cache.len() - 1;
        assert(t.tick_cache[last].1 <= w.max_tick_height);
    }
    assert(entries =~= t.tick_cache);
    lemma_poh_tick_inv(s, Some(poh_entry), Flusher::Tick);
    lemma_flushed_inv(t, true);
    law_flush_commits(t, true);
    law_flush_goes_on(t, true);
    let u = t.flushed(true).0;
    assert(u.tick_cache.len() == 0) by {
        if u.tick_cache.len() > 0 {
            let last = t.tick_cache.len() - 1;
            assert(t.tick_cache[last].1 <= w.max_tick_height);
        }
    }
    assert(u.tick_cache =~= Seq::empty());
}

/// A bank gets every tick of its range. While a slot to lead is known, `n` ticks from within the
/// range of the working bank on are all sent to that bank, one for each height, in order and each
/// with what PoH answered, after the ticks that were cached before. Until the range is complete
/// nothing changes but the height and the cache. With the last tick of the range the bank is given
/// up, and the recorder goes on from the slot of that tick.
pub proof fn law_bank_gets_its_range(
    s: RecorderState,
    w: WorkingBank,
    poh_entries: Seq<PohEntry>,
    next_leader_slot: Option<u64>,
)
    requires
        s.inv(),
        s.stage is Idle,
        s.start_leader_at_tick is Some,
        s.working_bank == Some(w),
        w.min_tick_height <= s.tick_height,
        0 < poh_entries.len() <= w.max_tick_height - s.tick_height,
        0 < s.ticks_per_slot,
        (w.max_tick_height as nat / s.ticks_per_slot + 1) * s.ticks_per_slot <= u64::MAX,
    ensures
        ({
            let n = poh_entries.len();
            let t = after_ticks(s, poh_entries);
            let sent = flushed_to(s, poh_entries, w.bank);
            let (u, end) = t.bank_cleared(next_leader_slot);
            let cached = s.tick_cache.len() as int;
            &&& sent.len() == cached + n
            &&& forall|i: int| 0 <= i < cached ==> #[trigger] sent[i] == s.tick_cache[i]
            &&& forall|i: int|
                cached <= i < cached + n ==> {
                    &&& (#[trigger] sent[i]).1 == s.tick_height + 1 + i - cached
                    &&& sent[i].0.num_hashes == poh_entries[i - cached].num_hashes
                    &&& sent[i].0.hash == poh_entries[i - cached].hash
                    &&& sent[i].0.transactions.len() == 0
                }
            &&& t.inv()
            &&& t.tick_height == s.tick_height + n
            &&& t.tick_cache.len() == 0
            &&& s.tick_height + n < w.max_tick_height ==> t == (RecorderState {
                tick_height: s.tick_height + n,
                tick_cache: Seq::empty(),
                ..s
            })
            &&& s.tick_height + n == w.max_tick_height ==> {
                &&& t.working_bank == Some(w)
                &&& t.stage is FlushClearing
                &&& t.ticks_per_slot == s.ticks_per_slot
                &&& t.start_slot == w.max_tick_height as nat / s.ticks_per_slot
                &&& u.working_bank is None
                &&& u.start_slot == w.max_tick_height as nat / s.ticks_per_slot
                &&& u.stage is Idle
                &&& end == ActionModel::Done(Ok(()))
            }
        }),
    decreases poh_entries.len(),
{
    let rest = poh_entries.drop_last();
    let n = poh_entries.len();
    let r = after_ticks(s, rest);
    let before = flushed_to(s, rest, w.bank);
    if n > 1 {
        law_bank_gets_its_range(s, w, rest, next_leader_slot);
    }
    let poh_entry = poh_entries.last();
    lemma_tick_in_range(r, w, poh_entry);
    let t = after_ticks(s, poh_entries);
    let sent = flushed_to(s, poh_entries, w.bank);
    assert(t == r.tick(Some(poh_entry)).0.flushed(true).0);
    let entries = r.tick(Some(poh_entry)).1->Flush_entries;
    assert(sent == before + entries);
    assert(t.tick_cache =~= Seq::empty());
    if s.tick_height + n == w.max_tick_height {
        law_clearing_goes_on(t, next_leader_slot);
        law_clearing_takes_the_answer(t, next_leader_slot);
    }
}

/// What a bank that is given up leaves behind, be it complete, cut off from its receiver or
/// cleared on demand, once the operation has ended. With `slot` as the schedule's answer for the
/// bank, the recorder would lead within `n` ticks exactly when the slot begins within them and is
/// not over, its leader tick is reached after the slot's grace ticks or at once if it starts with
/// that slot, and the tick that follows is cached. With no slot for an answer it leads at no time,
/// and the tick that follows is counted only.
pub proof fn law_next_slot_is_led(
    s: RecorderState,
    next_leader_slot: Option<u64>,
    n: nat,
    poh_entry: PohEntry,
)
    requires
        s.inv(),
        s.stage is Clearing || s.stage is FlushClearing,
        s.working_bank is Some,
        s.tick_height < u64::MAX,
        s.ticks_per_slot > 0,
    ensures
        ({
            let t = s.bank_cleared(next_leader_slot).0;
            let u = if t.stage is Idle {
                t
            } else {
                t.bank_cleared(None).0
            };
            &&& u.stage is Idle
            &&& u.working_bank is None
            &&& next_leader_slot is None ==> {
                &&& !u.would_be_leader(n)
                &&& !u.leader_tick_reached()
                &&& u.tick(Some(poh_entry)).0.tick_cache == s.tick_cache
            }
            &&& next_leader_slot matches Some(slot) ==> {
                &&& u.would_be_leader(n) <==> {
                    &&& slot * s.ticks_per_slot <= s.tick_height + n
                    &&& s.tick_height < (slot + 1) * s.ticks_per_slot
                }
                &&& u.leader_tick_reached() <==> {
                    ||| slot * s.ticks_per_slot + s.grace_ticks <= s.tick_height + 1
                    ||| slot * s.ticks_per_slot == s.start_tick
                }
                &&& u.tick(Some(poh_entry)).0.tick_cache.len() == s.tick_cache.len() + 1
            }
        }),
{
    let t = s.bank_cleared(next_leader_slot).0;
    law_clearing_takes_the_answer(s, next_leader_slot);
    law_clearing_goes_on(s, next_leader_slot);
    lemma_bank_cleared_inv(s, next_leader_slot);
    let u = if t.stage is Idle {
        t
    } else {
        t.bank_cleared(None).0
    };
    if !(t.stage is Idle) {
        law_clearing_takes_the_answer(t, None);
        law_clearing_goes_on(t, None);
        lemma_bank_cleared_inv(t, None);
    }
    law_would_be_leader_query(u, n);
    law_leader_tick_query(u);
    law_tick_counts_and_caches(u, poh_entry);
    if let Some(slot) = next_leader_slot {
        let tps = s.ticks_per_slot;
        assert((slot + 1) * tps == slot * tps + tps) by (nonlinear_arith);
        assert(slot * tps >= 0) by (nonlinear_arith);
    }
}

/// What a reset leads to. The recorder hands out the parent slot that it was reset to, the next
/// tick is the first of the slot after it, and the leader tick is reached exactly when the slot to
/// lead is not later than that slot. The recorder would lead within `n` ticks exactly when the
/// slot to lead begins within them and is not over.
pub proof fn law_reset_leads(
    s: RecorderState,
    blockhash: solana_sdk::hash::Hash,
    start_slot: u64,
    leader_slot: u64,
    found: Option<u64>,
    n: nat,
)
    requires
        s.inv(),
        s.stage is Idle,
        s.ticks_per_slot > 0,
    ensures
        ({
            let (s1, a1) = s.reset(blockhash, start_slot, Some(leader_slot));
            let t = if s.working_bank is Some || s.clear_bank_signal {
                s1.bank_cleared(found).0
            } else {
                s1
            };
            &&& t.start_slot == start_slot
            &&& (t.tick_height + 1) / t.ticks_per_slot == start_slot + 1
            &&& t.in_step()
            &&& t.leader_tick_reached() <==> leader_slot <= start_slot + 1
            &&& leader_slot == start_slot + 1 ==> t.grace_ticks_afforded() == 0
            &&& t.would_be_leader(n) <==> start_slot < leader_slot + 1 && leader_slot
                * s.ticks_per_slot <= (start_slot + 1) * s.ticks_per_slot - 1 + n
        }),
{
    let (s1, a1) = s.reset(blockhash, start_slot, Some(leader_slot));
    let t = if s.working_bank is Some || s.clear_bank_signal {
        s1.bank_cleared(found).0
    } else {
        s1
    };
    let tps = s.ticks_per_slot;
    law_reset_ends(s, blockhash, start_slot, Some(leader_slot), found);
    law_leader_tick_query(t);
    law_would_be_leader_query(t, n);
    lemma_div_multiples_vanish((start_slot + 1) as int, tps as int);
    assert((start_slot + 1) * tps == tps * (start_slot + 1)) by (nonlinear_arith);
    assert((leader_slot + 1) * tps == leader_slot * tps + tps) by (nonlinear_arith);
    assert((start_slot + 2) * tps == (start_slot + 1) * tps + tps) by (nonlinear_arith);
    assert(leader_slot * tps >= 0) by (nonlinear_arith);
    if leader_slot <= start_slot {
        assert((leader_slot + 1) * tps <= (start_slot + 1) * tps) by (nonlinear_arith)
            requires
                leader_slot <= start_slot,
        ;
    }
    if leader_slot < start_slot {
        assert((leader_slot + 2) * tps <= (start_slot + 1) * tps) by (nonlinear_arith)
            requires
                leader_slot < start_slot,
        ;
        assert((leader_slot + 2) * tps == (leader_slot + 1) * tps + tps) by (nonlinear_arith);
    }
    if leader_slot >= start_slot + 2 {
        assert(leader_slot * tps >= (start_slot + 2) * tps) by (nonlinear_arith)
            requires
                leader_slot >= start_slot + 2,
        ;
    }
    if leader_slot >= start_slot {
        assert((leader_slot + 1) * tps >= (start_slot + 1) * tps) by (nonlinear_arith)
            requires
                leader_slot >= start_slot,
        ;
    }
}

} // verus!
