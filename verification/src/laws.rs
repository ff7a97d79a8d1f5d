//! What holds of every recorder and over every run of it.
use crate::action::ActionModel;
use crate::frame::{
    lemma_after_flush_frame, lemma_cache_parts, lemma_flush_cache_frame, lemma_flush_sent_frame,
    lemma_flushed_frame, lemma_poh_tick_frame, same_setup,
};
use crate::leader::opt_nat;
use crate::preservation::{
    lemma_bank_cleared_inv, lemma_clear_bank_inv, lemma_cut, lemma_entry_sent_inv,
    lemma_flush_sent_inv, lemma_flushed_inv, lemma_poh_recorded_inv, lemma_poh_tick_inv,
    lemma_reset_inv, lemma_try_record_inv,
};
use crate::run::Input;
use crate::state::{heights_rise, Flusher, RecorderState, Stage};
use crate::types::{entry_of, EntryModel};
use vstd::prelude::*;

verus! {

/// Every call keeps the recorder's invariant.
pub proof fn law_inv_is_kept(s: RecorderState, input: Input)
    requires
        s.inv(),
        s.accepts(input),
    ensures
        s.after(input).inv(),
{
    reveal(RecorderState::accepts);
    reveal(RecorderState::after);
    match input {
        Input::ClearBank => lemma_clear_bank_inv(s),
        Input::BankCleared(next_leader_slot) => lemma_bank_cleared_inv(s, next_leader_slot),
        Input::Reset { blockhash, start_slot, next_leader_slot } => lemma_reset_inv(
            s,
            blockhash,
            start_slot,
            next_leader_slot,
        ),
        Input::SetWorkingBank(w) => {
            let next = choose|next: Option<nat>| #[trigger] s.leader_ticks_of(next);
            assert(s.set_working_bank(w).leader_ticks_of(next));
        },
        Input::Tick(poh_entry) => lemma_poh_tick_inv(s, poh_entry, Flusher::Tick),
        Input::Flushed(sent) => lemma_flushed_inv(s, sent),
        Input::Record(request) => {
            let t = RecorderState { request: Some(request), ..s };
            let next = choose|next: Option<nat>| #[trigger] s.leader_ticks_of(next);
            assert(t.leader_ticks_of(next));
            lemma_try_record_inv(t);
        },
        Input::PohRecorded(poh_entry) => lemma_poh_recorded_inv(s, poh_entry),
        Input::PohTicked(poh_entry) => lemma_poh_tick_inv(s, poh_entry, Flusher::RecordTick),
        Input::EntrySent(sent) => lemma_entry_sent_inv(s, sent),
    }
}

/// Every run keeps the recorder's invariant.
pub proof fn law_run_keeps_inv(s: RecorderState, inputs: Seq<Input>)
    requires
        s.inv(),
        s.accepts_run(inputs),
    ensures
        s.after_run(inputs).inv(),
    decreases inputs.len(),
{
    if inputs.len() > 0 {
        law_inv_is_kept(s, inputs[0]);
        law_run_keeps_inv(s.after(inputs[0]), inputs.drop_first());
    }
}

/// No call changes how the recorder was set up.
pub proof fn law_setup_is_kept(s: RecorderState, input: Input)
    requires
        s.inv(),
        s.accepts(input),
    ensures
        same_setup(s, s.after(input)),
{
    reveal(RecorderState::accepts);
    reveal(RecorderState::after);
    match input {
        Input::BankCleared(next_leader_slot) => {
            let t = s.cleared(opt_nat(next_leader_slot));
            if s.stage is FlushClearing {
                lemma_after_flush_frame(t, s.stage->FlushClearing_by);
            }
        },
        Input::Tick(poh_entry) => lemma_poh_tick_frame(s, poh_entry, Flusher::Tick),
        Input::Flushed(sent) => lemma_flushed_frame(s, sent),
        Input::Record(request) => {
            lemma_flush_cache_frame(
                RecorderState { request: Some(request), ..s },
                false,
                Flusher::Record,
            );
        },
        Input::PohTicked(poh_entry) => lemma_poh_tick_frame(s, poh_entry, Flusher::RecordTick),
        _ => {},
    }
}

/// The tick height goes up by one with every tick that PoH produces, and stays where it
/// is with every other call but a restart.
pub proof fn law_tick_height_counts_ticks(s: RecorderState, input: Input)
    requires
        s.inv(),
        s.accepts(input),
        !s.restarts(input),
    ensures
        s.after(input).tick_height == s.tick_height + if s.tick_of(input) is Some {
            1nat
        } else {
            0
        },
{
    reveal(RecorderState::accepts);
    reveal(RecorderState::after);
    match input {
        Input::BankCleared(next_leader_slot) => {
            if s.stage is FlushClearing {
                lemma_after_flush_frame(
                    s.cleared(opt_nat(next_leader_slot)),
                    s.stage->FlushClearing_by,
                );
            }
        },
        Input::Tick(poh_entry) => lemma_poh_tick_frame(s, poh_entry, Flusher::Tick),
        Input::Flushed(sent) => lemma_flushed_frame(s, sent),
        Input::Record(request) => {
            lemma_flush_cache_frame(
                RecorderState { request: Some(request), ..s },
                false,
                Flusher::Record,
            );
        },
        Input::PohTicked(poh_entry) => lemma_poh_tick_frame(s, poh_entry, Flusher::RecordTick),
        _ => {},
    }
}

/// No call loses a tick or sends one twice: what was cached before, followed by what the
/// call caches, is what it reports as sent, followed by what is cached after it. A
/// restart empties the cache.
pub proof fn law_ticks_are_conserved(s: RecorderState, input: Input)
    requires
        s.inv(),
        s.accepts(input),
    ensures
        s.restarts(input) ==> s.after(input).tick_cache.len() == 0,
        !s.restarts(input) ==> s.tick_cache + s.ticks_cached(input) == s.ticks_sent(input)
            + s.after(input).tick_cache,
{
    reveal(RecorderState::accepts);
    reveal(RecorderState::after);
    reveal(RecorderState::ticks_cached);
    reveal(RecorderState::ticks_sent);
    let t = s.after(input);
    assert(s.tick_cache + Seq::empty() =~= s.tick_cache);
    assert(Seq::empty() + t.tick_cache =~= t.tick_cache);
    match input {
        Input::BankCleared(next_leader_slot) => {
            if s.stage is FlushClearing {
                lemma_after_flush_frame(
                    s.cleared(opt_nat(next_leader_slot)),
                    s.stage->FlushClearing_by,
                );
            }
        },
        Input::Flushed(sent) => {
            lemma_flushed_frame(s, sent);
            lemma_flush_sent_frame(s, s.stage->Flushing_by, sent);
            lemma_cache_parts(s.tick_cache, s.working_bank->0.max_tick_height);
        },
        Input::Record(request) => {
            lemma_flush_cache_frame(
                RecorderState { request: Some(request), ..s },
                false,
                Flusher::Record,
            );
        },
        Input::Tick(poh_entry) => {
            lemma_poh_tick_frame(s, poh_entry, Flusher::Tick);
            lemma_tick_conserves(s, t, input);
        },
        Input::PohTicked(poh_entry) => {
            lemma_poh_tick_frame(s, poh_entry, Flusher::RecordTick);
            lemma_tick_conserves(s, t, input);
        },
        _ => {},
    }
}

/// A tick that goes to the cache, or is not kept, is conserved.
proof fn lemma_tick_conserves(s: RecorderState, t: RecorderState, input: Input)
    requires
        input is Tick || input is PohTicked,
        s.tick_of(input) matches Some(entry) ==> t.tick_cache == s.with_tick(entry).tick_cache,
        s.tick_of(input) is None ==> t.tick_cache == s.tick_cache,
    ensures
        s.tick_cache + s.ticks_cached(input) == s.ticks_sent(input) + t.tick_cache,
{
    reveal(RecorderState::ticks_cached);
    reveal(RecorderState::ticks_sent);
    assert(s.tick_cache + s.ticks_cached(input) =~= s.ticks_sent(input) + t.tick_cache);
}

/// Over any run without a restart, the ticks that were sent, followed by those still
/// cached, are the ticks that were cached at its start, followed by those that came in,
/// each once and in the order in which they came.
pub proof fn law_run_conserves_ticks(s: RecorderState, inputs: Seq<Input>)
    requires
        s.inv(),
        s.accepts_run(inputs),
        !s.restarts_in_run(inputs),
    ensures
        s.tick_cache + s.run_ticks_cached(inputs) == s.run_ticks_sent(inputs) + s.after_run(
            inputs,
        ).tick_cache,
    decreases inputs.len(),
{
    if inputs.len() > 0 {
        let input = inputs[0];
        let rest = inputs.drop_first();
        let t = s.after(input);
        law_inv_is_kept(s, input);
        law_ticks_are_conserved(s, input);
        law_run_conserves_ticks(t, rest);
        assert(s.tick_cache + s.run_ticks_cached(inputs) =~= (s.tick_cache + s.ticks_cached(input))
            + t.run_ticks_cached(rest));
        assert((s.ticks_sent(input) + t.tick_cache) + t.run_ticks_cached(rest)
            =~= s.ticks_sent(input) + (t.tick_cache + t.run_ticks_cached(rest)));
        assert(s.ticks_sent(input) + (t.run_ticks_sent(rest) + t.after_run(rest).tick_cache)
            =~= s.run_ticks_sent(inputs) + t.after_run(rest).tick_cache);
    } else {
        assert(s.tick_cache + Seq::empty() =~= Seq::empty() + s.tick_cache);
    }
}

/// The recorder waits for the answer to `action`, or for none when the operation ended.
pub open spec fn waits_for(s: RecorderState, action: ActionModel) -> bool {
    match s.stage {
        Stage::Idle => action is Done || action is ResetPoh,
        Stage::Flushing { by } => action == (ActionModel::Flush {
            bank: s.working_bank->0.bank,
            entries: s.due_ticks(),
        }),
        Stage::RecordingPoh => action == (ActionModel::RecordPoh { mixin: s.request->0.mixin }),
        Stage::TickingPoh => action is TickPoh,
        Stage::SendingEntry => action is Send,
        _ => action == (ActionModel::ClearBank {
            id: s.id,
            given_up: s.bank(),
            signal: s.clear_bank_signal,
        }),
    }
}

/// What follows a flush leaves the recorder waiting for the action that it returned.
proof fn lemma_after_flush_waits(s: RecorderState, by: Flusher)
    ensures
        waits_for(s.after_flush(by).0, s.after_flush(by).1),
        waits_for(s.try_record().0, s.try_record().1),
{
}

/// Every call leaves the recorder waiting for the answer to the very action that it
/// returned; when it returned the end of the operation, the recorder is ready for the
/// next one.
pub proof fn law_waits_for_its_action(s: RecorderState, input: Input)
    requires
        s.inv(),
        s.accepts(input),
        s.action(input) is Some,
    ensures
        waits_for(s.after(input), s.action(input)->0),
{
    reveal(RecorderState::accepts);
    reveal(RecorderState::after);
    reveal(RecorderState::action);
    match input {
        Input::BankCleared(next_leader_slot) => {
            if s.stage is FlushClearing {
                lemma_after_flush_waits(
                    s.cleared(opt_nat(next_leader_slot)),
                    s.stage->FlushClearing_by,
                );
            }
        },
        Input::Tick(Some(entry)) => {
            let ticked = s.with_tick(entry);
            lemma_after_flush_waits(ticked, Flusher::Tick);
            lemma_after_flush_waits(ticked.flush_cache(true, Flusher::Tick).0, Flusher::Tick);
        },
        Input::Flushed(sent) => {
            let by = s.stage->Flushing_by;
            lemma_after_flush_waits(s.flush_sent(by, sent).0, by);
        },
        Input::Record(request) => {
            lemma_after_flush_waits(
                RecorderState { request: Some(request), ..s },
                Flusher::Record,
            );
        },
        Input::PohTicked(Some(entry)) => {
            let ticked = s.with_tick(entry);
            let by = Flusher::RecordTick;
            lemma_after_flush_waits(ticked, by);
            lemma_after_flush_waits(ticked.flush_cache(true, by).0, by);
        },
        Input::PohTicked(None) => lemma_after_flush_waits(s, Flusher::RecordTick),
        _ => {},
    }
}

/// A `Flush` action comes only when the recorder has reached the range of its bank: past
/// the start of it when a tick flushes, on the start or past it when a record does. It
/// names that bank and holds the cached ticks that are not past the end of its range,
/// at least one, with rising heights.
pub proof fn law_ticks_within_range(s: RecorderState, input: Input)
    requires
        s.inv(),
        s.accepts(input),
        s.action(input) matches Some(ActionModel::Flush { .. }),
    ensures
        ({
            let t = s.after(input);
            let w = t.working_bank->0;
            let entries = s.action(input)->0->Flush_entries;
            &&& t.stage is Flushing
            &&& t.working_bank is Some
            &&& s.action(input)->0->Flush_bank == w.bank
            &&& w.min_tick_height <= t.tick_height
            &&& !(t.stage->Flushing_by is Record) ==> w.min_tick_height < t.tick_height
            &&& entries == t.due_ticks()
            &&& entries.len() > 0
            &&& heights_rise(entries)
            &&& forall|i: int|
                0 <= i < entries.len() ==> {
                    &&& (#[trigger] entries[i]).1 <= w.max_tick_height
                    &&& entries[i].1 <= t.tick_height
                    &&& entries[i].0.tick()
                }
        }),
{
    law_inv_is_kept(s, input);
    let t = s.after(input);
    law_waits_for_its_action(s, input);
    let n = lemma_cut(t.tick_cache, t.working_bank->0.max_tick_height);
    assert forall|i: int| 0 <= i < n implies t.due_ticks()[i] == #[trigger] t.tick_cache[i] by {}
}

/// A `Send` action comes only when PoH has recorded, while the recorder is within the range
/// of its bank: on the start of it or past it, and before its end. It names that bank,
/// which is the one that was asked for, and holds one entry, with the transactions that
/// were asked to be recorded, at the current height, after every earlier tick has been
/// sent.
pub proof fn law_entries_within_range(s: RecorderState, input: Input)
    requires
        s.inv(),
        s.accepts(input),
        s.action(input) matches Some(ActionModel::Send { .. }),
    ensures
        ({
            let w = s.working_bank->0;
            let request = s.request->0;
            &&& input matches Input::PohRecorded(Some(poh_entry))
            &&& s.working_bank is Some
            &&& s.request is Some
            &&& w.min_tick_height <= s.tick_height < w.max_tick_height
            &&& w.bank.slot == request.bank_slot
            &&& s.tick_cache.len() == 0
            &&& s.action(input)->0 == (ActionModel::Send {
                bank: w.bank,
                entries: seq![(entry_of(poh_entry, request.transactions), s.tick_height as u64)],
            })
            &&& !entry_of(poh_entry, request.transactions).tick()
        }),
{
    reveal(RecorderState::accepts);
    reveal(RecorderState::after);
    reveal(RecorderState::action);
    law_inv_is_kept(s, input);
    law_waits_for_its_action(s, input);
    lemma_only_poh_makes_entries(s, input);
}

/// No call but `poh_recorded` hands out an entry.
proof fn lemma_only_poh_makes_entries(s: RecorderState, input: Input)
    requires
        s.inv(),
        s.accepts(input),
        s.after(input).stage is SendingEntry,
    ensures
        input matches Input::PohRecorded(Some(poh_entry)),
{
    reveal(RecorderState::accepts);
    reveal(RecorderState::after);
}

/// As long as a record has not made its entry it keeps what it was asked to record, however
/// often PoH has to tick in between.
pub proof fn law_request_is_kept(s: RecorderState, input: Input)
    requires
        s.inv(),
        s.accepts(input),
        s.recording(),
        s.after(input).recording(),
    ensures
        s.after(input).request == s.request,
{
    reveal(RecorderState::accepts);
    reveal(RecorderState::after);
    law_inv_is_kept(s, input);
    match input {
        Input::BankCleared(next_leader_slot) => {
            lemma_after_flush_frame(
                s.cleared(opt_nat(next_leader_slot)),
                s.stage->FlushClearing_by,
            );
        },
        Input::Flushed(sent) => {
            let by = s.stage->Flushing_by;
            lemma_flush_sent_inv(s, by, sent);
            lemma_after_flush_frame(s.flush_sent(by, sent).0, by);
        },
        Input::PohTicked(poh_entry) => lemma_poh_tick_frame(s, poh_entry, Flusher::RecordTick),
        _ => {},
    }
}

/// A record ends well only when its entry was sent: before the entry is made there is no
/// good end, and after that the answer decides.
pub proof fn law_record_ends_well_when_sent(s: RecorderState, input: Input)
    requires
        s.inv(),
        s.accepts(input),
        s.recording() || s.stage is SendingEntry,
        s.action(input) == Some(ActionModel::Done(Ok(()))),
    ensures
        s.stage is SendingEntry,
        input == Input::EntrySent(true),
{
    reveal(RecorderState::accepts);
    reveal(RecorderState::action);
    match input {
        Input::BankCleared(next_leader_slot) => {
            lemma_record_end(
                s.cleared(opt_nat(next_leader_slot)),
                s.stage->FlushClearing_by,
            );
        },
        Input::Flushed(sent) => {
            let by = s.stage->Flushing_by;
            lemma_record_end(s.flush_sent(by, sent).0, by);
        },
        Input::PohTicked(poh_entry) => {
            let by = Flusher::RecordTick;
            lemma_record_end(s, by);
            if let Some(entry) = poh_entry {
                lemma_record_end(s.with_tick(entry), by);
                lemma_record_end(s.with_tick(entry).flush_cache(true, by).0, by);
            }
        },
        _ => {},
    }
}

/// What follows the flush of a record is not a good end.
proof fn lemma_record_end(s: RecorderState, by: Flusher)
    requires
        !(by is Tick),
    ensures
        s.after_flush(by).1 != ActionModel::Done(Ok(())),
{
}

/// The ledger in order: heights never fall, and a tick stands above all that precedes it.
pub open spec fn ledger_ordered(ledger: Seq<(EntryModel, u64)>) -> bool {
    forall|i: int, j: int|
        0 <= i < j < ledger.len() ==> {
            &&& (#[trigger] ledger[i]).1 <= (#[trigger] ledger[j]).1
            &&& ledger[j].0.tick() ==> ledger[i].1 < ledger[j].1
        }
}

/// The ledger goes on from height `last`: nothing stands below it, and every tick above it.
pub open spec fn ledger_goes_on(ledger: Seq<(EntryModel, u64)>, last: nat) -> bool {
    &&& ledger_ordered(ledger)
    &&& forall|i: int|
        0 <= i < ledger.len() ==> {
            &&& last <= (#[trigger] ledger[i]).1
            &&& ledger[i].0.tick() ==> last < ledger[i].1
        }
}

/// The height at which a ledger ends that started from height `last`.
pub open spec fn ledger_end(ledger: Seq<(EntryModel, u64)>, last: nat) -> nat {
    if ledger.len() > 0 {
        ledger.last().1 as nat
    } else {
        last
    }
}

/// The ledger has come to height `last`: the recorder is not behind it, and all ticks that
/// are cached stand above it.
pub open spec fn ledger_at(s: RecorderState, last: nat) -> bool {
    &&& last <= s.tick_height
    &&& forall|i: int| 0 <= i < s.tick_cache.len() ==> (#[trigger] s.tick_cache[i]).1 > last
}

/// What a call sends goes on from what was sent before.
pub proof fn law_ledger_goes_on(s: RecorderState, input: Input, last: nat)
    requires
        s.inv(),
        s.accepts(input),
        !s.restarts(input),
        ledger_at(s, last),
    ensures
        ledger_goes_on(s.ledger(input), last),
        ledger_at(s.after(input), ledger_end(s.ledger(input), last)),
{
    let t = s.after(input);
    let ledger = s.ledger(input);
    let sent = s.ticks_sent(input);
    law_inv_is_kept(s, input);
    law_ticks_are_conserved(s, input);
    law_tick_height_counts_ticks(s, input);
    let before = s.tick_cache + s.ticks_cached(input);
    assert forall|i: int| 0 <= i < before.len() implies (#[trigger] before[i]).1 > last by {
        reveal(RecorderState::ticks_cached);
        reveal(RecorderState::accepts);
    }
    assert(heights_rise(before)) by {
        reveal(RecorderState::ticks_cached);
        reveal(RecorderState::accepts);
    }
    assert forall|i: int| 0 <= i < before.len() implies (#[trigger] before[i]).0.tick() by {
        reveal(RecorderState::ticks_cached);
    }
    assert forall|i: int| 0 <= i < sent.len() implies before[i] == #[trigger] sent[i] by {}
    assert forall|i: int| 0 <= i < t.tick_cache.len() implies before[sent.len() + i]
        == #[trigger] t.tick_cache[i] by {}
    if s.action(input) matches Some(ActionModel::Send { .. }) {
        law_entries_within_range(s, input);
        assert(sent =~= Seq::empty() && s.ticks_cached(input) =~= Seq::empty()) by {
            reveal(RecorderState::ticks_cached);
            reveal(RecorderState::ticks_sent);
        }
        assert(t.tick_cache.len() == 0);
        assert(ledger.len() == 1);
        assert(ledger[0].1 == s.tick_height);
    } else {
        assert(ledger == sent);
        assert forall|i: int| 0 <= i < ledger.len() implies (#[trigger] ledger[i]).1
            <= s.tick_height by {
            reveal(RecorderState::ticks_cached);
            reveal(RecorderState::ticks_sent);
            assert(before[i] == ledger[i]);
        }
    }
}

/// Over any run without a restart, the ledger is in order.
pub proof fn law_run_keeps_ledger_order(s: RecorderState, inputs: Seq<Input>, last: nat)
    requires
        s.inv(),
        s.accepts_run(inputs),
        !s.restarts_in_run(inputs),
        ledger_at(s, last),
    ensures
        ledger_goes_on(s.run_ledger(inputs), last),
        ledger_at(s.after_run(inputs), ledger_end(s.run_ledger(inputs), last)),
    decreases inputs.len(),
{
    if inputs.len() > 0 {
        let input = inputs[0];
        let rest = inputs.drop_first();
        let t = s.after(input);
        let first = s.ledger(input);
        let next = ledger_end(first, last);
        law_inv_is_kept(s, input);
        law_ledger_goes_on(s, input, last);
        law_run_keeps_ledger_order(t, rest, next);
        let more = t.run_ledger(rest);
        let ledger = first + more;
        assert(s.run_ledger(inputs) == ledger);
        assert forall|i: int| 0 <= i < first.len() implies (#[trigger] first[i]).1 <= next by {
            if i < first.len() - 1 {
                assert(first[i].1 <= first[first.len() - 1].1);
            }
        }
        assert(ledger_goes_on(ledger, last)) by {
            assert forall|i: int, j: int| 0 <= i < j < ledger.len() implies {
                &&& (#[trigger] ledger[i]).1 <= (#[trigger] ledger[j]).1
                &&& ledger[j].0.tick() ==> ledger[i].1 < ledger[j].1
            } by {
                if j < first.len() {
                    assert(ledger[i] == first[i] && ledger[j] == first[j]);
                } else if i < first.len() {
                    assert(ledger[i] == first[i]);
                    assert(ledger[j] == more[j - first.len()]);
                } else {
                    assert(ledger[i] == more[i - first.len()]);
                    assert(ledger[j] == more[j - first.len()]);
                }
            }
            assert forall|i: int| 0 <= i < ledger.len() implies {
                &&& last <= (#[trigger] ledger[i]).1
                &&& ledger[i].0.tick() ==> last < ledger[i].1
            } by {
                if i < first.len() {
                    assert(ledger[i] == first[i]);
                } else {
                    assert(ledger[i] == more[i - first.len()]);
                }
            }
        }
    }
}

/// Whatever is done with a new recorder, short of a restart: the ticks that came in while a
/// slot to lead was known were sent or are still cached, each once and in their order, and
/// the ledger goes on from the height at which the recorder started.
pub proof fn law_run_from_start(start: RecorderState, inputs: Seq<Input>)
    requires
        start.inv(),
        start.tick_cache.len() == 0,
        start.accepts_run(inputs),
        !start.restarts_in_run(inputs),
    ensures
        start.run_ticks_cached(inputs) == start.run_ticks_sent(inputs) + start.after_run(
            inputs,
        ).tick_cache,
        ledger_goes_on(start.run_ledger(inputs), start.tick_height),
{
    law_run_conserves_ticks(start, inputs);
    law_run_keeps_ledger_order(start, inputs, start.tick_height);
    assert(start.tick_cache + start.run_ticks_cached(inputs) =~= start.run_ticks_cached(inputs));
}

} // verus!
