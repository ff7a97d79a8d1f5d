//! When a recorder leads, and how its ticks lie in the slots.
use crate::frame::{
    lemma_after_flush_frame, lemma_flushed_frame, lemma_poh_tick_frame, same_setup, same_start,
};
use crate::laws::{law_inv_is_kept, law_setup_is_kept};
use crate::leader::{lemma_slot_bounds, opt_nat};
use crate::run::Input;
use crate::state::{Flusher, RecorderState, Stage};
use crate::types::PohEntry;
use vstd::arithmetic::div_mod::{lemma_div_multiples_vanish, lemma_fundamental_div_mod_converse};
use vstd::prelude::*;

verus! {

/// The leader tick of slot `slot` is reached when the grace ticks after the slot's first tick
/// have passed, or at once when the recorder starts with that slot. The ticks afforded are
/// counted from the slot's first tick.
pub proof fn law_leader_tick(s: RecorderState, slot: nat)
    requires
        s.leader_ticks_of(Some(slot)),
    ensures
        s.leader_tick_reached() <==> {
            ||| s.tick_height + 1 >= slot * s.ticks_per_slot + s.grace_ticks
            ||| s.start_tick == slot * s.ticks_per_slot
        },
        s.leader_tick_reached() && s.tick_height + 1 >= slot * s.ticks_per_slot
            ==> s.grace_ticks_afforded() == s.tick_height + 1 - slot * s.ticks_per_slot,
        s.tick_height + 1 < slot * s.ticks_per_slot ==> s.grace_ticks_afforded() == 0,
        !s.leader_tick_reached() ==> s.grace_ticks_afforded() == 0,
{
    assert(slot * s.ticks_per_slot >= 0) by (nonlinear_arith);
}

/// Without a slot to lead the leader tick is never reached, and the recorder would lead only
/// with a bank.
pub proof fn law_no_leader_slot(s: RecorderState, n: nat)
    requires
        s.leader_ticks_of(None),
    ensures
        !s.leader_tick_reached(),
        s.would_be_leader(n) <==> s.working_bank is Some,
{
}

/// Without a bank the recorder would lead within `n` ticks when the slot to lead begins
/// within that many ticks, and until that slot ends.
pub proof fn law_would_be_leader(s: RecorderState, slot: nat, n: nat)
    requires
        s.leader_ticks_of(Some(slot)),
        s.ticks_per_slot > 0,
        s.working_bank is None,
    ensures
        s.would_be_leader(n) <==> {
            &&& slot * s.ticks_per_slot <= s.tick_height + n
            &&& s.tick_height < (slot + 1) * s.ticks_per_slot
        },
{
    let tps = s.ticks_per_slot;
    assert(slot * tps >= 0) by (nonlinear_arith);
    assert((slot + 1) * tps == slot * tps + tps) by (nonlinear_arith);
}

/// A recorder that would lead within `n` ticks would lead within any more.
pub proof fn law_would_be_leader_grows(s: RecorderState, n: nat, m: nat)
    requires
        n <= m,
        s.would_be_leader(n),
    ensures
        s.would_be_leader(m),
{
}

/// Once the leader tick is reached, and until the slot to lead is over, the recorder would
/// lead within one tick.
pub proof fn law_reached_would_be_leader(s: RecorderState)
    requires
        s.inv(),
        s.leader_tick_reached(),
        s.in_step(),
        s.tick_height <= s.last_leader_tick,
    ensures
        s.would_be_leader(1),
{
}

/// Reset to run right up to its slot, the recorder leads at once, with no grace ticks used.
/// Reset to an earlier slot, it has to wait. In both cases the next tick is the first of the
/// slot after `start_slot`.
pub proof fn law_reset_leader(
    s: RecorderState,
    blockhash: solana_sdk::hash::Hash,
    start_slot: u64,
    leader_slot: u64,
)
    requires
        s.inv(),
        s.can_restart(start_slot, Some(leader_slot)),
    ensures
        ({
            let t = s.restarted(blockhash, start_slot, Some(leader_slot)).0;
            &&& t.in_step()
            &&& (t.tick_height + 1) / t.ticks_per_slot == start_slot + 1
            &&& leader_slot == start_slot + 1 ==> {
                &&& t.leader_tick_reached()
                &&& t.grace_ticks_afforded() == 0
            }
            &&& leader_slot > start_slot + 1 ==> !t.leader_tick_reached()
        }),
{
    let t = s.restarted(blockhash, start_slot, Some(leader_slot)).0;
    let tps = s.ticks_per_slot;
    lemma_slot_bounds(start_slot as nat, tps);
    lemma_slot_bounds(leader_slot as nat, tps);
    lemma_div_multiples_vanish((start_slot + 1) as int, tps as int);
    assert((start_slot + 1) * tps == tps * (start_slot + 1)) by (nonlinear_arith);
    assert(t.leader_ticks_of(Some(leader_slot as nat)));
    law_leader_tick(t, leader_slot as nat);
    assert(t.tick_height + 1 == (start_slot + 1) * tps);
    if leader_slot > start_slot + 1 {
        assert(leader_slot * tps >= (start_slot + 2) * tps) by (nonlinear_arith)
            requires
                leader_slot >= start_slot + 2,
        ;
        assert((start_slot + 2) * tps == (start_slot + 1) * tps + tps) by (nonlinear_arith);
    }
}

/// Without a bank, ticks never take a leader tick back that was reached.
pub proof fn law_leader_tick_stays(s: RecorderState, poh_entry: Option<PohEntry>)
    requires
        s.inv(),
        s.idle(),
        s.working_bank is None,
        s.leader_tick_reached(),
    ensures
        s.tick(poh_entry).0.leader_tick_reached(),
{
}

/// The range of the working bank, if there is one, ends with the last tick of a slot.
pub open spec fn bank_ends_slot(s: RecorderState) -> bool {
    s.working_bank matches Some(w) ==> s.ticks_per_slot > 0 && (w.max_tick_height as nat + 1)
        % s.ticks_per_slot == 0
}

/// A range whose last tick is the last one of slot `slot` leaves the recorder at the end of
/// that slot, from which the next slot's ticks follow.
pub proof fn law_end_of_slot(slot: nat, ticks_per_slot: nat)
    requires
        ticks_per_slot > 0,
    ensures
        ((slot + 1) * ticks_per_slot - 1) as nat / ticks_per_slot == slot,
        ((slot + 1) * ticks_per_slot) % ticks_per_slot == 0,
{
    let last = (slot + 1) * ticks_per_slot - 1;
    assert(last == slot * ticks_per_slot + (ticks_per_slot - 1)) by (nonlinear_arith)
        requires
            last == (slot + 1) * ticks_per_slot - 1,
    ;
    lemma_fundamental_div_mod_converse(
        last,
        ticks_per_slot as int,
        slot as int,
        ticks_per_slot - 1,
    );
    lemma_fundamental_div_mod_converse(
        ((slot + 1) * ticks_per_slot) as int,
        ticks_per_slot as int,
        slot as int + 1,
        0,
    );
    assert((slot + 1) * ticks_per_slot >= 1) by (nonlinear_arith)
        requires
            ticks_per_slot > 0,
    ;
}

/// After a range that ends a slot, the first tick of the next slot follows its last tick.
proof fn lemma_start_follows(max: nat, ticks_per_slot: nat)
    requires
        ticks_per_slot > 0,
        (max + 1) % ticks_per_slot == 0,
    ensures
        (max / ticks_per_slot + 1) * ticks_per_slot == max + 1,
{
    let k = ((max + 1) / ticks_per_slot) as int;
    vstd::arithmetic::div_mod::lemma_fundamental_div_mod(max as int + 1, ticks_per_slot as int);
    assert(max + 1 == ticks_per_slot * k);
    assert(k >= 1) by (nonlinear_arith)
        requires
            max + 1 == ticks_per_slot * k,
            max >= 0,
            ticks_per_slot > 0,
    ;
    assert(ticks_per_slot * k == (k - 1 + 1) * ticks_per_slot) by (nonlinear_arith);
    law_end_of_slot((k - 1) as nat, ticks_per_slot);
}

/// A recorder that only goes on to the end of its bank's slot stays in step.
proof fn lemma_start_in_step(s: RecorderState, t: RecorderState)
    requires
        same_setup(s, t),
        same_start(s, t),
        t.tick_height == s.tick_height,
        t.working_bank == s.working_bank || t.working_bank is None,
        s.in_step(),
        bank_ends_slot(s),
    ensures
        t.in_step(),
        bank_ends_slot(t),
{
    if s.bank_full() {
        lemma_start_follows(s.working_bank->0.max_tick_height as nat, s.ticks_per_slot);
    }
}

proof fn lemma_tick_in_step(s: RecorderState, poh_entry: Option<PohEntry>, by: Flusher)
    requires
        s.core_inv(),
        s.tick_fits(poh_entry, by),
        s.in_step(),
        bank_ends_slot(s),
    ensures
        s.poh_tick(poh_entry, by).0.in_step(),
        bank_ends_slot(s.poh_tick(poh_entry, by).0),
{
    lemma_poh_tick_frame(s, poh_entry, by);
    match poh_entry {
        Some(entry) => lemma_start_in_step(s.with_tick(entry), s.poh_tick(poh_entry, by).0),
        None => lemma_start_in_step(s, s.poh_tick(poh_entry, by).0),
    }
}

/// Where every bank's range ends with a slot, the next tick is never before the first one
/// that the recorder observes: every call keeps it so.
pub proof fn law_stays_in_step(s: RecorderState, input: Input)
    requires
        s.inv(),
        s.accepts(input),
        s.in_step(),
        bank_ends_slot(s),
        input matches Input::SetWorkingBank(w) ==> bank_ends_slot(s.set_working_bank(w)),
    ensures
        s.after(input).in_step(),
        bank_ends_slot(s.after(input)),
{
    reveal(RecorderState::accepts);
    reveal(RecorderState::after);
    let t = s.after(input);
    match input {
        Input::BankCleared(next_leader_slot) => {
            let u = s.cleared(opt_nat(next_leader_slot));
            match s.stage {
                Stage::Resetting { blockhash, start_slot, next_leader_slot } => {
                    lemma_slot_bounds(start_slot as nat, s.ticks_per_slot);
                },
                Stage::FlushClearing { by, again } => {
                    lemma_after_flush_frame(u, by);
                    lemma_start_in_step(u, u.after_flush(by).0);
                },
                _ => {},
            }
        },
        Input::Reset { blockhash, start_slot, next_leader_slot } => {
            lemma_slot_bounds(start_slot as nat, s.ticks_per_slot);
        },
        Input::Tick(poh_entry) => lemma_tick_in_step(s, poh_entry, Flusher::Tick),
        Input::Flushed(sent) => {
            lemma_flushed_frame(s, sent);
            lemma_start_in_step(s, t);
        },
        Input::Record(request) => {
            let u = RecorderState { request: Some(request), ..s };
            lemma_after_flush_frame(u, Flusher::RecordTick);
            lemma_start_in_step(u, t);
        },
        Input::PohTicked(poh_entry) => lemma_tick_in_step(s, poh_entry, Flusher::RecordTick),
        _ => {},
    }
}

/// Every bank that is set in the run has a range that ends with the last tick of a slot.
pub open spec fn banks_end_slots(inputs: Seq<Input>, ticks_per_slot: nat) -> bool {
    forall|i: int|
        0 <= i < inputs.len() ==> (#[trigger] inputs[i] matches Input::SetWorkingBank(w) ==> {
            &&& ticks_per_slot > 0
            &&& (w.max_tick_height as nat + 1) % ticks_per_slot == 0
        })
}

/// Over any run of a recorder that started in step, where every bank's range ends with a
/// slot, the recorder stays in step.
pub proof fn law_run_stays_in_step(s: RecorderState, inputs: Seq<Input>)
    requires
        s.inv(),
        s.accepts_run(inputs),
        s.in_step(),
        bank_ends_slot(s),
        banks_end_slots(inputs, s.ticks_per_slot),
    ensures
        s.after_run(inputs).in_step(),
    decreases inputs.len(),
{
    if inputs.len() > 0 {
        let input = inputs[0];
        let rest = inputs.drop_first();
        law_inv_is_kept(s, input);
        law_setup_is_kept(s, input);
        law_stays_in_step(s, input);
        assert forall|i: int| 0 <= i < rest.len() implies #[trigger] rest[i] == inputs[i + 1] by {}
        law_run_stays_in_step(s.after(input), rest);
    }
}

/// A new recorder is in step.
pub proof fn law_starts_in_step(
    tick_height: nat,
    start_slot: nat,
    next_leader_slot: Option<nat>,
    ticks_per_slot: nat,
    id: solana_sdk::pubkey::Pubkey,
    clear_bank_signal: bool,
    hashes_per_tick: Option<u64>,
)
    ensures
        ({
            let s = RecorderState::initial(
                tick_height,
                start_slot,
                next_leader_slot,
                ticks_per_slot,
                id,
                clear_bank_signal,
                hashes_per_tick,
            );
            &&& s.in_step()
            &&& bank_ends_slot(s)
        }),
{
}

} // verus!
