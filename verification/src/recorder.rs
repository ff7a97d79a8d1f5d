//! The recorder that keeps Proof of History, the working bank's ticks and the ledger
//! in step.
//!
//! A `PohRecorder` will send ticks or entries to a working bank, if the current range
//! of ticks is within the specified range of the working bank.
//!
//! For ticks:
//! * tick must be > `WorkingBank::min_tick_height` && tick must be <=
//!   `WorkingBank::max_tick_height`
//!
//! For entries:
//! * recorded entry must be >= `WorkingBank::min_tick_height` && entry must be <
//!   `WorkingBank::max_tick_height`
//!
//! The recorder decides; PoH, the bank's tick register, the channel to the ledger and
//! the leader schedule are outside of it. An operation returns the first `Action` to be
//! performed there, each answer returns the next one, until the operation is done.
use crate::action::{flush_result, opt_action, Action};
use crate::leader::{leader_slot_fits, leader_slot_ticks, lemma_slot_bounds, opt_nat, slot_fits};
use crate::preservation::{
    lemma_bank_cleared_inv, lemma_clear_bank_inv, lemma_cleared_inv, lemma_entry_sent_inv,
    lemma_flush_cache_inv, lemma_flush_sent_inv, lemma_flushed_inv, lemma_poh_recorded_inv,
    lemma_poh_tick_inv, lemma_reset_inv, lemma_split, lemma_try_record_inv, lemma_with_tick_inv,
    request_of,
};
use crate::state::{
    ticks_past, ticks_up_to, Flusher, RecorderState, RequestModel, Stage, GRACE_TICKS_FACTOR,
};
use crate::types::{
    entries_model, Bank, Entry, Error, PohConfig, PohEntry, PohRecorderError, PohStart, WorkingBank,
};
use solana_sdk::clock::Slot;
use solana_sdk::pubkey::Pubkey;
use solana_sdk::transaction::Transaction;
use vstd::prelude::*;

verus! {

/// What `record` was asked to record.
struct RecordRequest {
    bank_slot: Slot,
    mixin: solana_sdk::hash::Hash,
    transactions: Vec<Transaction>,
}

/// Decides what becomes of ticks and transactions.
pub struct PohRecorder {
    tick_height: u64,
    clear_bank_signal: bool,
    start_slot: Slot,  // parent slot
    start_tick: u64,  // first tick this recorder will observe
    tick_cache: Vec<(Entry, u64)>,
    working_bank: Option<WorkingBank>,
    start_leader_at_tick: Option<u64>,
    last_leader_tick: u64,  // zero if none
    grace_ticks: u64,
    id: Pubkey,
    ticks_per_slot: u64,
    hashes_per_tick: Option<u64>,
    stage: Stage,
    request: Option<RecordRequest>,
}

impl View for PohRecorder {
    type V = RecorderState;

    closed spec fn view(&self) -> RecorderState {
        RecorderState {
            tick_height: self.tick_height as nat,
            clear_bank_signal: self.clear_bank_signal,
            start_slot: self.start_slot as nat,
            start_tick: self.start_tick as nat,
            tick_cache: entries_model(self.tick_cache@),
            working_bank: self.working_bank,
            start_leader_at_tick: opt_nat(self.start_leader_at_tick),
            last_leader_tick: self.last_leader_tick as nat,
            grace_ticks: self.grace_ticks as nat,
            id: self.id,
            ticks_per_slot: self.ticks_per_slot as nat,
            hashes_per_tick: self.hashes_per_tick,
            stage: self.stage,
            request: match self.request {
                Some(r) => Some(
                    RequestModel {
                        bank_slot: r.bank_slot,
                        mixin: r.mixin,
                        transactions: r.transactions@,
                    },
                ),
                None => None,
            },
        }
    }
}

impl PohRecorder {
    /// Ends the operation under way.
    fn finish(&mut self, result: Result<(), Error>) -> (action: Action)
        ensures
            (final(self)@, action@) == old(self)@.finished(result),
    {
        self.stage = Stage::Idle;
        self.request = None;
        Action::Done(result)
    }

    /// Refuses the operation under way.
    fn refuse(&mut self, error: PohRecorderError) -> (action: Action)
        ensures
            (final(self)@, action@) == old(self)@.refused(error),
    {
        self.finish(Err(Error::PohRecorderError(error)))
    }

    /// Waits in `stage` for the bank to be cleared.
    fn wait_for_clear(&mut self, stage: Stage) -> (action: Action)
        ensures
            (final(self)@, action@) == old(self)@.clearing(stage),
    {
        self.stage = stage;
        Action::ClearBank { id: self.id, given_up: self.bank(), signal: self.clear_bank_signal }
    }

    /// Gives the bank up. The node's next slot to lead is looked up for it, and the
    /// clearing is signalled if the recorder was made with a signal.
    pub fn clear_bank(&mut self) -> (action: Action)
        requires
            old(self)@.inv(),
            old(self)@.idle(),
        ensures
            final(self)@.inv(),
            (final(self)@, action@) == old(self)@.clear_bank(),
    {
        proof {
            lemma_clear_bank_inv(self@);
        }
        if self.working_bank.is_some() || self.clear_bank_signal {
            self.wait_for_clear(Stage::Clearing)
        } else {
            self.finish(Ok(()))
        }
    }

    /// The answer to `Action::ClearBank`: the next slot to lead after that of the bank
    /// which is given up.
    pub fn bank_cleared(&mut self, next_leader_slot: Option<Slot>) -> (action: Action)
        requires
            old(self)@.inv(),
            old(self)@.stage is Clearing || old(self)@.stage is Resetting
                || old(self)@.stage is FlushClearing,
            old(self)@.working_bank is Some ==> leader_slot_fits(
                next_leader_slot,
                old(self)@.ticks_per_slot,
                old(self)@.grace_ticks,
            ),
        ensures
            final(self)@.inv(),
            (final(self)@, action@) == old(self)@.bank_cleared(next_leader_slot),
    {
        proof {
            lemma_bank_cleared_inv(self@, next_leader_slot);
            lemma_cleared_inv(self@, opt_nat(next_leader_slot));
        }
        if self.working_bank.is_some() {
            self.working_bank = None;
            self.set_leader_slot(next_leader_slot);
        }
        assert(self@ == old(self)@.cleared(opt_nat(next_leader_slot)));
        match self.stage {
            Stage::Resetting { blockhash, start_slot, next_leader_slot } => self.restart(
                blockhash,
                start_slot,
                next_leader_slot,
            ),
            Stage::FlushClearing { by, again } => {
                if again && self.clear_bank_signal {
                    self.wait_for_clear(Stage::FlushClearing { by, again: false })
                } else {
                    self.after_flush(by)
                }
            },
            _ => self.finish(Ok(())),
        }
    }

    /// Whether the recorder has a bank, or its slot to lead is under way or begins within
    /// the next `within_next_n_ticks` ticks.
    pub fn would_be_leader(&self, within_next_n_ticks: u64) -> (res: bool)
        ensures
            res == self@.would_be_leader(within_next_n_ticks as nat),
    {
        if self.has_bank() {
            return true;
        }
        match self.start_leader_at_tick {
            Some(leader_tick) => {
                let ideal_leader_tick: u64 = leader_tick.saturating_sub(self.grace_ticks);

                self.tick_height <= self.last_leader_tick && self.tick_height
                    >= ideal_leader_tick.saturating_sub(within_next_n_ticks)
            },
            None => false,
        }
    }

    /// The slot that comes `slots` after the current one, whose leader is asked for.
    pub fn leader_after_slots(&self, slots: u64) -> (slot: Slot)
        requires
            self@.ticks_per_slot > 0,
            self@.tick_height / self@.ticks_per_slot + slots <= u64::MAX,
        ensures
            slot == self@.tick_height / self@.ticks_per_slot + slots,
    {
        self.tick_height / self.ticks_per_slot + slots
    }

    /// The slot after the current one, whose leader is asked for.
    pub fn next_slot_leader(&self) -> (slot: Slot)
        requires
            self@.ticks_per_slot > 0,
            self@.tick_height / self@.ticks_per_slot + 1 <= u64::MAX,
        ensures
            slot == self@.tick_height / self@.ticks_per_slot + 1,
    {
        self.leader_after_slots(1)
    }

    /// The bank that the recorder works for, as it was handed over.
    pub fn bank(&self) -> (res: Option<Bank>)
        ensures
            res == self@.bank(),
    {
        match self.working_bank {
            Some(w) => Some(w.bank),
            None => None,
        }
    }

    /// Whether the recorder works for a bank.
    pub fn has_bank(&self) -> (res: bool)
        ensures
            res == self@.working_bank is Some,
    {
        self.working_bank.is_some()
    }

    /// The height of the last tick.
    pub fn tick_height(&self) -> (res: u64)
        ensures
            res == self@.tick_height,
    {
        self.tick_height
    }

    /// How many ticks a slot has.
    pub fn ticks_per_slot(&self) -> (res: u64)
        ensures
            res == self@.ticks_per_slot,
    {
        self.ticks_per_slot
    }

    /// The slot from whose end the recorder goes on.
    pub fn start_slot(&self) -> (res: Slot)
        ensures
            res == self@.start_slot,
    {
        self.start_slot
    }

    /// The first tick that the recorder observes.
    pub fn start_tick(&self) -> (res: u64)
        ensures
            res == self@.start_tick,
    {
        self.start_tick
    }

    /// The tick at which the recorder starts to lead, if it knows a slot to lead.
    pub fn start_leader_at_tick(&self) -> (res: Option<u64>)
        ensures
            opt_nat(res) == self@.start_leader_at_tick,
    {
        self.start_leader_at_tick
    }

    /// The ticks that have not been sent yet, each with its height.
    pub fn tick_cache(&self) -> (res: &Vec<(Entry, u64)>)
        ensures
            entries_model(res@) == self@.tick_cache,
    {
        &self.tick_cache
    }

    /// Returns if leader tick has reached, how many grace ticks were afforded, imputed
    /// leader_slot and self.start_slot.
    /// `reached_leader_tick().0 == true` means "ready for a bank".
    pub fn reached_leader_tick(&self) -> (res: (bool, u64, Slot, Slot))
        requires
            self@.tick_height < u64::MAX,
            self@.ticks_per_slot > 0,
            self@.start_leader_at_tick matches Some(leader_tick) ==> {
                ||| self@.tick_height + 1 >= leader_tick
                ||| self@.start_tick + self@.grace_ticks <= u64::MAX
            },
            self@.leader_tick_reached() ==> self@.in_step(),
        ensures
            res.0 == self@.leader_tick_reached(),
            res.1 == self@.grace_ticks_afforded(),
            res.2 == (self@.tick_height + 1) / self@.ticks_per_slot,
            res.3 == self@.start_slot,
    {
        let next_tick: u64 = self.tick_height + 1;

        if let Some(target_tick) = self.start_leader_at_tick {
            // we've reached target_tick OR poh was reset to run immediately
            if next_tick >= target_tick || self.start_tick + self.grace_ticks == target_tick {
                let ideal_target_tick: u64 = target_tick.saturating_sub(self.grace_ticks);

                return (
                    true,
                    next_tick.saturating_sub(ideal_target_tick),
                    next_tick / self.ticks_per_slot,
                    self.start_slot,
                );
            }
        }
        (false, 0, next_tick / self.ticks_per_slot, self.start_slot)
    }

    /// Returns (start_leader_at_tick, last_leader_tick) given the next slot this recorder will
    /// lead.
    fn compute_leader_slot_ticks(
        next_leader_slot: Option<Slot>,
        ticks_per_slot: u64,
        grace_ticks: u64,
    ) -> (res: (Option<u64>, u64))
        requires
            leader_slot_fits(next_leader_slot, ticks_per_slot as nat, grace_ticks as nat),
        ensures
            (opt_nat(res.0), res.1 as nat) == leader_slot_ticks(
                opt_nat(next_leader_slot),
                ticks_per_slot as nat,
                grace_ticks as nat,
            ),
    {
        match next_leader_slot {
            Some(slot) => {
                proof {
                    lemma_slot_bounds(slot as nat, ticks_per_slot as nat);
                }
                (Some(slot * ticks_per_slot + grace_ticks), (slot + 1) * ticks_per_slot - 1)
            },
            None => (None, 0),
        }
    }

    /// Takes over the leader ticks of `next_leader_slot`.
    fn set_leader_slot(&mut self, next_leader_slot: Option<Slot>)
        requires
            leader_slot_fits(
                next_leader_slot,
                old(self)@.ticks_per_slot,
                old(self)@.grace_ticks,
            ),
        ensures
            final(self)@ == old(self)@.with_leader_slot(opt_nat(next_leader_slot)),
    {
        let (start_leader_at_tick, last_leader_tick) = Self::compute_leader_slot_ticks(
            next_leader_slot,
            self.ticks_per_slot,
            self.grace_ticks,
        );
        self.start_leader_at_tick = start_leader_at_tick;
        self.last_leader_tick = last_leader_tick;
    }

    /// Goes on from the end of slot `start_slot`.
    fn start_after(&mut self, start_slot: Slot)
        requires
            slot_fits(start_slot as nat, old(self)@.ticks_per_slot),
        ensures
            final(self)@ == old(self)@.starting_after(start_slot as nat),
    {
        proof {
            lemma_slot_bounds(start_slot as nat, self.ticks_per_slot as nat);
        }
        self.start_slot = start_slot;
        self.start_tick = (start_slot + 1) * self.ticks_per_slot;
    }

    /// Goes on from the end of slot `start_slot` with an empty cache, PoH restarting
    /// from `blockhash`.
    fn restart(
        &mut self,
        blockhash: solana_sdk::hash::Hash,
        start_slot: Slot,
        next_leader_slot: Option<Slot>,
    ) -> (action: Action)
        requires
            old(self)@.can_restart(start_slot, next_leader_slot),
        ensures
            (final(self)@, action@) == old(self)@.restarted(
                blockhash,
                start_slot,
                next_leader_slot,
            ),
    {
        proof {
            lemma_slot_bounds(start_slot as nat, self.ticks_per_slot as nat);
        }
        self.start_after(start_slot);
        self.set_leader_slot(next_leader_slot);
        self.tick_height = self.start_tick - 1;
        self.tick_cache = Vec::new();
        assert(entries_model(self.tick_cache@) =~= Seq::empty());
        self.stage = Stage::Idle;
        self.request = None;
        Action::ResetPoh(PohStart { hash: blockhash, hashes_per_tick: self.hashes_per_tick })
    }

    /// Synchronizes PoH with a bank: gives the recorder's bank up, forgets the cached ticks and
    /// goes on from the end of slot `start_slot`, PoH restarting from `blockhash`.
    pub fn reset(
        &mut self,
        blockhash: solana_sdk::hash::Hash,
        start_slot: Slot,
        next_leader_slot: Option<Slot>,
    ) -> (action: Action)
        requires
            old(self)@.inv(),
            old(self)@.idle(),
            old(self)@.can_restart(start_slot, next_leader_slot),
        ensures
            final(self)@.inv(),
            (final(self)@, action@) == old(self)@.reset(blockhash, start_slot, next_leader_slot),
    {
        proof {
            lemma_reset_inv(self@, blockhash, start_slot, next_leader_slot);
        }
        if self.working_bank.is_some() || self.clear_bank_signal {
            self.wait_for_clear(Stage::Resetting { blockhash, start_slot, next_leader_slot })
        } else {
            self.restart(blockhash, start_slot, next_leader_slot)
        }
    }

    /// Works for a bank from now on, in the range that is given with it.
    pub fn set_working_bank(&mut self, working_bank: WorkingBank)
        requires
            old(self)@.inv(),
            old(self)@.idle(),
            working_bank.bank.ticks_per_slot == old(self)@.ticks_per_slot,
        ensures
            final(self)@.inv(),
            final(self)@ == old(self)@.set_working_bank(working_bank),
    {
        let ghost next = choose|next: Option<nat>| #[trigger] self@.leader_ticks_of(next);
        self.working_bank = Some(working_bank);
        assert(self@.leader_ticks_of(next));
    }

    /// Works for a bank from now on, from its tick height to its last one.
    pub fn set_bank(&mut self, bank: &Bank)
        requires
            old(self)@.inv(),
            old(self)@.idle(),
            bank.ticks_per_slot == old(self)@.ticks_per_slot,
        ensures
            final(self)@.inv(),
            final(self)@ == old(self)@.set_working_bank(
                (WorkingBank {
                    bank: *bank,
                    min_tick_height: bank.tick_height,
                    max_tick_height: bank.max_tick_height,
                }),
            ),
    {
        let working_bank = WorkingBank {
            bank: *bank,
            min_tick_height: bank.tick_height,
            max_tick_height: bank.max_tick_height,
        };
        self.set_working_bank(working_bank);
    }

    /// How many cached ticks stand before the first one past height `max`.
    fn count_ticks_up_to(&self, max: u64) -> (n: usize)
        requires
            self@.cache_ordered(),
        ensures
            n <= self@.tick_cache.len(),
            self@.tick_cache.take(n as int) == ticks_up_to(self@.tick_cache, max),
            self@.tick_cache.skip(n as int) == ticks_past(self@.tick_cache, max),
    {
        let ghost cache = self@.tick_cache;
        let mut n: usize = 0;
        while n < self.tick_cache.len() && self.tick_cache[n].1 <= max
            invariant
                cache == entries_model(self.tick_cache@),
                n <= self.tick_cache.len(),
                forall|i: int| 0 <= i < n ==> (#[trigger] cache[i]).1 <= max,
            decreases self.tick_cache.len() - n,
        {
            n = n + 1;
        }
        proof {
            assert forall|i: int| n <= i < cache.len() implies (#[trigger] cache[i]).1 > max by {
                assert(cache[n as int].1 > max);
            }
            lemma_split(cache, max, n as int);
        }
        n
    }

    /// A copy of the first `n` cached ticks.
    fn copy_ticks(&self, n: usize) -> (ticks: Vec<(Entry, u64)>)
        requires
            self@.cache_ordered(),
            n <= self@.tick_cache.len(),
        ensures
            entries_model(ticks@) == self@.tick_cache.take(n as int),
    {
        let ghost cache = self@.tick_cache;
        let mut ticks: Vec<(Entry, u64)> = Vec::new();
        let mut i: usize = 0;
        while i < n
            invariant
                cache == entries_model(self.tick_cache@),
                self@.tick_cache == cache,
                self@.cache_ordered(),
                n <= cache.len(),
                i <= n,
                entries_model(ticks@) == cache.take(i as int),
            decreases n - i,
        {
            assert(cache[i as int].0.tick());
            let ghost before = ticks@;
            ticks.push((self.tick_cache[i].0.copy_tick(), self.tick_cache[i].1));
            assert(entries_model(ticks@) =~= entries_model(before).push(cache[i as int]));
            i = i + 1;
            assert(cache.take(i - 1).push(cache[i - 1]) =~= cache.take(i as int));
        }
        ticks
    }

    /// Flushes the cache for the working bank. A tick delays this until it is past the
    /// `min_tick_height` of the bank; a record flushes at the `min_tick_height` too, since it
    /// occurs after that tick was generated. Returns what has to be done outside before the
    /// flush can go on, or nothing if it is over.
    fn flush_cache(&mut self, tick: bool, by: Flusher) -> (res: Result<
        Option<Action>,
        PohRecorderError,
    >)
        requires
            old(self)@.core_inv(),
            old(self)@.flush_fits(tick),
        ensures
            (final(self)@, flush_result(res)) == old(self)@.flush_cache(tick, by),
    {
        let working_bank = match self.working_bank {
            Some(w) => w,
            None => return Err(PohRecorderError::MaxHeightReached),
        };
        if self.tick_height < working_bank.min_tick_height {
            return Err(PohRecorderError::MinHeightNotReached);
        }
        if tick && self.tick_height == working_bank.min_tick_height {
            return Err(PohRecorderError::MinHeightNotReached);
        }
        let entry_count: usize = self.count_ticks_up_to(working_bank.max_tick_height);
        if entry_count > 0 {
            let entries = self.copy_ticks(entry_count);
            self.stage = Stage::Flushing { by };
            Ok(Some(Action::Flush { bank: working_bank.bank, entries }))
        } else {
            Ok(self.flush_sent(by, true))
        }
    }

    /// Goes on with a flush once its ticks were sent or could not be sent.
    fn flush_sent(&mut self, by: Flusher, sent: bool) -> (action: Option<Action>)
        requires
            old(self)@.core_inv(),
            old(self)@.working_bank is Some,
            old(self)@.end_fits(),
        ensures
            (final(self)@, opt_action(action)) == old(self)@.flush_sent(by, sent),
    {
        let max: u64 = match self.working_bank {
            Some(w) => w.max_tick_height,
            None => return None,
        };
        let full: bool = self.tick_height >= max;
        if sent {
            // commit the flush
            let entry_count: usize = self.count_ticks_up_to(max);
            let ghost cache = self@.tick_cache;
            let kept = self.tick_cache.split_off(entry_count);
            assert(entries_model(kept@) =~= cache.skip(entry_count as int));
            self.tick_cache = kept;
        }
        if full {
            self.start_after(max / self.ticks_per_slot);
        }
        if full || !sent {
            Some(self.wait_for_clear(Stage::FlushClearing { by, again: full && !sent }))
        } else {
            None
        }
    }

    /// The answer to `Action::Flush`: whether the ticks could be sent.
    pub fn flushed(&mut self, sent: bool) -> (action: Action)
        requires
            old(self)@.inv(),
            old(self)@.stage is Flushing,
        ensures
            final(self)@.inv(),
            (final(self)@, action@) == old(self)@.flushed(sent),
    {
        proof {
            lemma_flushed_inv(self@, sent);
        }
        let by = match self.stage {
            Stage::Flushing { by } => by,
            _ => Flusher::Tick,
        };
        proof {
            lemma_flush_sent_inv(self@, by, sent);
        }
        match self.flush_sent(by, sent) {
            Some(action) => action,
            None => self.after_flush(by),
        }
    }

    /// Goes on after a flush.
    fn after_flush(&mut self, by: Flusher) -> (action: Action)
        requires
            old(self)@.core_inv(),
            request_of(old(self)@, by),
            by is RecordTick ==> old(self)@.flush_fits(false),
        ensures
            (final(self)@, action@) == old(self)@.after_flush(by),
    {
        match by {
            Flusher::Tick => self.finish(Ok(())),
            Flusher::Record => self.record_poh(),
            Flusher::RecordTick => self.try_record(),
        }
    }

    /// Counts and caches a tick that PoH produced, and flushes.
    fn poh_tick(&mut self, poh_entry: Option<PohEntry>, by: Flusher) -> (action: Action)
        requires
            old(self)@.core_inv(),
            request_of(old(self)@, by),
            !(by is Record),
            old(self)@.tick_fits(poh_entry, by),
            by is RecordTick && poh_entry is None ==> old(self)@.flush_fits(false),
        ensures
            (final(self)@, action@) == old(self)@.poh_tick(poh_entry, by),
    {
        let poh_entry = match poh_entry {
            Some(e) => e,
            None => return self.after_flush(by),
        };
        proof {
            lemma_with_tick_inv(self@, poh_entry);
        }
        self.tick_height = self.tick_height + 1;
        if self.start_leader_at_tick.is_none() {
            assert(self@ == old(self)@.with_tick(poh_entry));
            return self.after_flush(by);
        }
        let entry = Entry {
            num_hashes: poh_entry.num_hashes,
            hash: poh_entry.hash,
            transactions: Vec::new(),
        };
        let ghost cache = self.tick_cache@;
        self.tick_cache.push((entry, self.tick_height));
        proof {
            assert(entry@ =~= crate::types::entry_of(poh_entry, Seq::empty()));
            assert(entries_model(self.tick_cache@) =~= entries_model(cache).push(
                (entry@, self.tick_height),
            ));
            assert(self@ == old(self)@.with_tick(poh_entry));
            lemma_flush_cache_inv(self@, true, by);
        }
        match self.flush_cache(true, by) {
            Ok(Some(action)) => action,
            _ => self.after_flush(by),
        }
    }

    /// PoH was ticked and returned `poh_entry`.
    pub fn tick(&mut self, poh_entry: Option<PohEntry>) -> (action: Action)
        requires
            old(self)@.inv(),
            old(self)@.idle(),
            old(self)@.tick_fits(poh_entry, Flusher::Tick),
        ensures
            final(self)@.inv(),
            (final(self)@, action@) == old(self)@.tick(poh_entry),
    {
        proof {
            lemma_poh_tick_inv(self@, poh_entry, Flusher::Tick);
        }
        self.poh_tick(poh_entry, Flusher::Tick)
    }

    /// The answer to `Action::TickPoh`: what PoH returned.
    pub fn poh_ticked(&mut self, poh_entry: Option<PohEntry>) -> (action: Action)
        requires
            old(self)@.inv(),
            old(self)@.stage is TickingPoh,
            old(self)@.tick_fits(poh_entry, Flusher::RecordTick),
        ensures
            final(self)@.inv(),
            (final(self)@, action@) == old(self)@.poh_ticked(poh_entry),
    {
        proof {
            lemma_poh_tick_inv(self@, poh_entry, Flusher::RecordTick);
        }
        self.poh_tick(poh_entry, Flusher::RecordTick)
    }

    /// Asks PoH to record, if the bank is there and is the one that was meant.
    fn record_poh(&mut self) -> (action: Action)
        requires
            old(self)@.request is Some,
        ensures
            (final(self)@, action@) == old(self)@.record_poh(),
    {
        let (bank_slot, mixin): (Slot, solana_sdk::hash::Hash) = match &self.request {
            Some(r) => (r.bank_slot, r.mixin),
            None => return self.refuse(PohRecorderError::MaxHeightReached),
        };
        match self.working_bank {
            Some(w) => {
                if bank_slot != w.bank.slot {
                    return self.refuse(PohRecorderError::MaxHeightReached);
                }
            },
            None => return self.refuse(PohRecorderError::MaxHeightReached),
        }
        self.stage = Stage::RecordingPoh;
        Action::RecordPoh { mixin }
    }

    /// Flushes the cache, and asks PoH to record once nothing is left to flush.
    fn try_record(&mut self) -> (action: Action)
        requires
            old(self)@.core_inv(),
            request_of(old(self)@, Flusher::Record),
            old(self)@.flush_fits(false),
        ensures
            (final(self)@, action@) == old(self)@.try_record(),
    {
        proof {
            lemma_flush_cache_inv(self@, false, Flusher::Record);
        }
        match self.flush_cache(false, Flusher::Record) {
            Err(error) => self.refuse(error),
            Ok(Some(action)) => action,
            Ok(None) => self.record_poh(),
        }
    }

    /// Records `transactions` for the bank of slot `bank_slot`.
    ///
    /// Entries without transactions are used to track real-time passing in the ledger
    /// and cannot be generated by `record()`.
    pub fn record(
        &mut self,
        bank_slot: Slot,
        mixin: solana_sdk::hash::Hash,
        transactions: Vec<Transaction>,
    ) -> (action: Action)
        requires
            old(self)@.inv(),
            old(self)@.idle(),
            old(self)@.flush_fits(false),
            transactions@.len() > 0,
        ensures
            final(self)@.inv(),
            (final(self)@, action@) == old(self)@.record(
                (RequestModel { bank_slot, mixin, transactions: transactions@ }),
            ),
    {
        let ghost next = choose|next: Option<nat>| #[trigger] self@.leader_ticks_of(next);
        self.request = Some(RecordRequest { bank_slot, mixin, transactions });
        proof {
            assert(self@.leader_ticks_of(next));
            lemma_try_record_inv(self@);
        }
        self.try_record()
    }

    /// The answer to `Action::RecordPoh`: what PoH returned. PoH might refuse to record
    /// if its next hash needs to be a tick; it is ticked then, and asked again.
    pub fn poh_recorded(&mut self, poh_entry: Option<PohEntry>) -> (action: Action)
        requires
            old(self)@.inv(),
            old(self)@.stage is RecordingPoh,
        ensures
            final(self)@.inv(),
            (final(self)@, action@) == old(self)@.poh_recorded(poh_entry),
    {
        proof {
            lemma_poh_recorded_inv(self@, poh_entry);
        }
        let poh_entry = match poh_entry {
            Some(e) => e,
            None => {
                self.stage = Stage::TickingPoh;
                return Action::TickPoh;
            },
        };
        let request = self.request.take();
        match (request, self.working_bank) {
            (Some(r), Some(w)) => {
                let entry = Entry {
                    num_hashes: poh_entry.num_hashes,
                    hash: poh_entry.hash,
                    transactions: r.transactions,
                };
                let mut entries: Vec<(Entry, u64)> = Vec::new();
                entries.push((entry, self.tick_height));
                self.stage = Stage::SendingEntry;
                assert(entries_model(entries@) =~= seq![(entry@, self.tick_height)]);
                Action::Send { bank: w.bank, entries }
            },
            _ => self.finish(Ok(())),
        }
    }

    /// The answer to `Action::Send`: whether the entry could be sent.
    pub fn entry_sent(&mut self, sent: bool) -> (action: Action)
        requires
            old(self)@.inv(),
            old(self)@.stage is SendingEntry,
        ensures
            final(self)@.inv(),
            (final(self)@, action@) == old(self)@.entry_sent(sent),
    {
        proof {
            lemma_entry_sent_inv(self@, sent);
        }
        if sent {
            self.finish(Ok(()))
        } else {
            self.finish(Err(Error::SendError))
        }
    }

    /// A recorder that starts at `tick_height`, and what PoH is to be started from.
    /// With `clear_bank_signal` every clearing of a bank is signalled.
    pub fn new_with_clear_signal(
        tick_height: u64,
        last_entry_hash: solana_sdk::hash::Hash,
        start_slot: Slot,
        next_leader_slot: Option<Slot>,
        ticks_per_slot: u64,
        id: &Pubkey,
        clear_bank_signal: bool,
        poh_config: &PohConfig,
    ) -> (res: (PohRecorder, PohStart))
        requires
            tick_height < u64::MAX,
            leader_slot_fits(
                next_leader_slot,
                ticks_per_slot as nat,
                ticks_per_slot as nat / GRACE_TICKS_FACTOR as nat,
            ),
        ensures
            res.0@.inv(),
            res.0@ == RecorderState::initial(
                tick_height as nat,
                start_slot as nat,
                opt_nat(next_leader_slot),
                ticks_per_slot as nat,
                *id,
                clear_bank_signal,
                poh_config.hashes_per_tick,
            ),
            res.1 == (PohStart {
                hash: last_entry_hash,
                hashes_per_tick: poh_config.hashes_per_tick,
            }),
    {
        let grace_ticks: u64 = ticks_per_slot / GRACE_TICKS_FACTOR;
        let (start_leader_at_tick, last_leader_tick) = Self::compute_leader_slot_ticks(
            next_leader_slot,
            ticks_per_slot,
            grace_ticks,
        );
        let recorder = PohRecorder {
            tick_height,
            clear_bank_signal,
            start_slot,
            start_tick: tick_height + 1,
            tick_cache: Vec::new(),
            working_bank: None,
            start_leader_at_tick,
            last_leader_tick,
            grace_ticks,
            id: *id,
            ticks_per_slot,
            hashes_per_tick: poh_config.hashes_per_tick,
            stage: Stage::Idle,
            request: None,
        };
        proof {
            assert(recorder@.tick_cache =~= Seq::empty());
            assert(recorder@.leader_ticks_of(opt_nat(next_leader_slot)));
        }
        (recorder, PohStart { hash: last_entry_hash, hashes_per_tick: poh_config.hashes_per_tick })
    }

    /// A recorder that starts at `tick_height` and signals no clearing, and what PoH is to be
    /// started from.
    pub fn new(
        tick_height: u64,
        last_entry_hash: solana_sdk::hash::Hash,
        start_slot: Slot,
        next_leader_slot: Option<Slot>,
        ticks_per_slot: u64,
        id: &Pubkey,
        poh_config: &PohConfig,
    ) -> (res: (PohRecorder, PohStart))
        requires
            tick_height < u64::MAX,
            leader_slot_fits(
                next_leader_slot,
                ticks_per_slot as nat,
                ticks_per_slot as nat / GRACE_TICKS_FACTOR as nat,
            ),
        ensures
            res.0@.inv(),
            res.0@ == RecorderState::initial(
                tick_height as nat,
                start_slot as nat,
                opt_nat(next_leader_slot),
                ticks_per_slot as nat,
                *id,
                false,
                poh_config.hashes_per_tick,
            ),
            res.1 == (PohStart {
                hash: last_entry_hash,
                hashes_per_tick: poh_config.hashes_per_tick,
            }),
    {
        Self::new_with_clear_signal(
            tick_height,
            last_entry_hash,
            start_slot,
            next_leader_slot,
            ticks_per_slot,
            id,
            false,
            poh_config,
        )
    }
}

} // verus!
