//! The mathematical state of a recorder, and what each operation does to it.
use crate::action::ActionModel;
use crate::leader::{leader_slot_fits, leader_slot_ticks, opt_nat, slot_fits};
use crate::types::{
    entry_of, Bank, EntryModel, Error, PohEntry, PohRecorderError, PohStart, WorkingBank,
};
use solana_sdk::clock::Slot;
use solana_sdk::pubkey::Pubkey;
use solana_sdk::transaction::Transaction;
use vstd::prelude::*;

verus! {

/// Who flushes the tick cache.
#[derive(Debug, Clone, Copy)]
pub enum Flusher {
    /// `tick`.
    Tick,
    /// `record`, before it asks PoH to record.
    Record,
    /// `record`, after PoH had to tick first.
    RecordTick,
}

/// Where an operation stands while the recorder waits for an answer.
#[derive(Debug, Clone, Copy)]
pub enum Stage {
    /// No operation is under way.
    Idle,
    /// `clear_bank` waits for the bank to be cleared.
    Clearing,
    /// `reset` waits for the bank to be cleared.
    Resetting {
        blockhash: solana_sdk::hash::Hash,
        start_slot: Slot,
        next_leader_slot: Option<Slot>,
    },
    /// A flush waits for its ticks to be sent.
    Flushing { by: Flusher },
    /// A flush waits for the bank to be cleared, and clears it once more if `again`.
    FlushClearing { by: Flusher, again: bool },
    /// `record` waits for PoH to record.
    RecordingPoh,
    /// `record` waits for PoH to tick.
    TickingPoh,
    /// `record` waits for its entry to be sent.
    SendingEntry,
}

/// What `record` was asked to record.
#[verifier::ext_equal]
pub struct RequestModel {
    pub bank_slot: u64,
    pub mixin: solana_sdk::hash::Hash,
    pub transactions: Seq<Transaction>,
}

/// The ticks of `cache` up to and including height `max`.
pub open spec fn ticks_up_to(cache: Seq<(EntryModel, u64)>, max: u64) -> Seq<(EntryModel, u64)> {
    cache.filter(|t: (EntryModel, u64)| t.1 <= max)
}

/// The ticks of `cache` past height `max`.
pub open spec fn ticks_past(cache: Seq<(EntryModel, u64)>, max: u64) -> Seq<(EntryModel, u64)> {
    cache.filter(|t: (EntryModel, u64)| t.1 > max)
}

/// Whether the heights of `cache` rise from each entry to the next.
pub open spec fn heights_rise(cache: Seq<(EntryModel, u64)>) -> bool {
    forall|i: int, j: int| 0 <= i < j < cache.len() ==> cache[i].1 < cache[j].1
}

/// The mathematical content of a `PohRecorder`.
#[verifier::ext_equal]
pub struct RecorderState {
    pub tick_height: nat,
    pub clear_bank_signal: bool,
    pub start_slot: nat,
    pub start_tick: nat,
    pub tick_cache: Seq<(EntryModel, u64)>,
    pub working_bank: Option<WorkingBank>,
    pub start_leader_at_tick: Option<nat>,
    pub last_leader_tick: nat,
    pub grace_ticks: nat,
    pub id: Pubkey,
    pub ticks_per_slot: nat,
    pub hashes_per_tick: Option<u64>,
    pub stage: Stage,
    pub request: Option<RequestModel>,
}

/// The recorder waits for an earlier leader for this fraction of a slot.
pub const GRACE_TICKS_FACTOR: u64 = 2;

impl RecorderState {
    // ---------------------------------------------------------------- invariant

    /// The cache holds ticks, in the order of their heights, none above the current
    /// height.
    pub open spec fn cache_ordered(self) -> bool {
        &&& heights_rise(self.tick_cache)
        &&& forall|i: int|
            0 <= i < self.tick_cache.len() ==> {
                &&& (#[trigger] self.tick_cache[i]).1 <= self.tick_height
                &&& self.tick_cache[i].0.tick()
            }
    }

    /// The leader ticks are those of some slot, or of none.
    pub open spec fn leader_ticks_of(self, next_leader_slot: Option<nat>) -> bool {
        (self.start_leader_at_tick, self.last_leader_tick) == leader_slot_ticks(
            next_leader_slot,
            self.ticks_per_slot,
            self.grace_ticks,
        )
    }

    /// Whether `record` is under way and has not made its entry yet.
    pub open spec fn recording(self) -> bool {
        match self.stage {
            Stage::Flushing { by } => !(by is Tick),
            Stage::FlushClearing { by, again } => !(by is Tick),
            Stage::RecordingPoh => true,
            Stage::TickingPoh => true,
            _ => false,
        }
    }

    /// The working bank takes entries at the current height: its range has begun
    /// and not ended, and every earlier tick has been flushed.
    pub open spec fn entry_in_range(self) -> bool {
        &&& self.working_bank matches Some(w)
        &&& w.min_tick_height <= self.tick_height < w.max_tick_height
        &&& self.tick_cache.len() == 0
        &&& self.request matches Some(r)
        &&& r.bank_slot == w.bank.slot
    }

    /// What holds in the current stage.
    pub open spec fn stage_inv(self) -> bool {
        &&& self.request is Some <==> self.recording()
        &&& self.request matches Some(r) ==> r.transactions.len() > 0
        &&& match self.stage {
            Stage::Resetting { blockhash, start_slot, next_leader_slot } => {
                self.can_restart(start_slot, next_leader_slot)
            },
            Stage::Flushing { by } => {
                &&& self.flush_error(!(by is Record)) is None
                &&& self.due_ticks().len() > 0
                &&& self.end_fits()
            },
            Stage::RecordingPoh => self.entry_in_range(),
            Stage::TickingPoh => self.entry_in_range(),
            _ => true,
        }
    }

    /// What holds of a recorder whatever its stage.
    pub open spec fn core_inv(self) -> bool {
        &&& self.tick_height <= u64::MAX
        &&& self.working_bank matches Some(w) ==> w.bank.ticks_per_slot == self.ticks_per_slot
        &&& self.cache_ordered()
        &&& self.grace_ticks == self.ticks_per_slot / GRACE_TICKS_FACTOR as nat
        &&& exists|next_leader_slot: Option<nat>| #[trigger] self.leader_ticks_of(next_leader_slot)
    }

    /// What holds of every recorder.
    pub open spec fn inv(self) -> bool {
        &&& self.core_inv()
        &&& self.stage_inv()
    }

    /// No operation is under way.
    pub open spec fn idle(self) -> bool {
        self.stage is Idle
    }

    // ------------------------------------------------------------------- start

    /// A recorder at `tick_height`, without a bank and with an empty cache.
    pub open spec fn initial(
        tick_height: nat,
        start_slot: nat,
        next_leader_slot: Option<nat>,
        ticks_per_slot: nat,
        id: Pubkey,
        clear_bank_signal: bool,
        hashes_per_tick: Option<u64>,
    ) -> RecorderState {
        let grace_ticks = ticks_per_slot / GRACE_TICKS_FACTOR as nat;
        let (start, last) = leader_slot_ticks(next_leader_slot, ticks_per_slot, grace_ticks);
        RecorderState {
            tick_height,
            clear_bank_signal,
            start_slot,
            start_tick: tick_height + 1,
            tick_cache: Seq::empty(),
            working_bank: None,
            start_leader_at_tick: start,
            last_leader_tick: last,
            grace_ticks,
            id,
            ticks_per_slot,
            hashes_per_tick,
            stage: Stage::Idle,
            request: None,
        }
    }

    // ------------------------------------------------------------ leader schedule

    /// The leader ticks for `next_leader_slot` are in place.
    pub open spec fn with_leader_slot(self, next_leader_slot: Option<nat>) -> RecorderState {
        let (start, last) = leader_slot_ticks(
            next_leader_slot,
            self.ticks_per_slot,
            self.grace_ticks,
        );
        RecorderState { start_leader_at_tick: start, last_leader_tick: last, ..self }
    }

    /// The tick at which the grace period of the slot to lead begins.
    pub open spec fn ideal_leader_tick(self) -> int {
        match self.start_leader_at_tick {
            Some(leader_tick) if leader_tick >= self.grace_ticks => leader_tick - self.grace_ticks,
            _ => 0,
        }
    }

    /// Whether the next tick is one at which the recorder may lead: its leader tick
    /// has come, or PoH was reset to run right up to its slot.
    pub open spec fn leader_tick_reached(self) -> bool {
        &&& self.start_leader_at_tick matches Some(leader_tick)
        &&& self.tick_height + 1 >= leader_tick || self.start_tick + self.grace_ticks == leader_tick
    }

    /// How many of the ticks up to the next one fall in the grace period.
    pub open spec fn grace_ticks_afforded(self) -> nat {
        if self.leader_tick_reached() && self.tick_height + 1 >= self.ideal_leader_tick() {
            (self.tick_height + 1 - self.ideal_leader_tick()) as nat
        } else {
            0
        }
    }

    /// Whether the recorder has a bank, or its slot to lead is under way or begins
    /// within the next `within_next_n_ticks` ticks.
    pub open spec fn would_be_leader(self, within_next_n_ticks: nat) -> bool {
        ||| self.working_bank is Some
        ||| {
            &&& self.start_leader_at_tick is Some
            &&& self.tick_height <= self.last_leader_tick
            &&& self.tick_height + within_next_n_ticks >= self.ideal_leader_tick()
        }
    }

    /// Whether the next tick is not before the first that the recorder observes.
    pub open spec fn in_step(self) -> bool {
        self.tick_height + 1 >= self.start_tick
    }

    // ------------------------------------------------------------------ endings

    /// The operation under way ends with `result`.
    pub open spec fn finished(self, result: Result<(), Error>) -> (RecorderState, ActionModel) {
        (
            RecorderState { stage: Stage::Idle, request: None, ..self },
            ActionModel::Done(result),
        )
    }

    /// The operation under way is refused with `error`.
    pub open spec fn refused(self, error: PohRecorderError) -> (RecorderState, ActionModel) {
        self.finished(Err(Error::PohRecorderError(error)))
    }

    // ----------------------------------------------------------------- clearing

    /// The bank that the recorder works for.
    pub open spec fn bank(self) -> Option<Bank> {
        match self.working_bank {
            Some(w) => Some(w.bank),
            None => None,
        }
    }

    /// The recorder waits in `stage` for its bank to be cleared.
    pub open spec fn clearing(self, stage: Stage) -> (RecorderState, ActionModel) {
        (
            RecorderState { stage, ..self },
            ActionModel::ClearBank {
                id: self.id,
                given_up: self.bank(),
                signal: self.clear_bank_signal,
            },
        )
    }

    /// Whether clearing the bank needs anything from outside.
    pub open spec fn clear_asks(self) -> bool {
        self.working_bank is Some || self.clear_bank_signal
    }

    /// The bank is gone, and `next_leader_slot` is the next slot to lead. Without a
    /// bank nothing changes.
    pub open spec fn cleared(self, next_leader_slot: Option<nat>) -> RecorderState {
        if self.working_bank is Some {
            RecorderState { working_bank: None, ..self.with_leader_slot(next_leader_slot) }
        } else {
            self
        }
    }

    /// `clear_bank`: the bank is given up once the outside has answered, or at once if it need
    /// not be asked.
    pub open spec fn clear_bank(self) -> (RecorderState, ActionModel) {
        if self.clear_asks() {
            self.clearing(Stage::Clearing)
        } else {
            self.finished(Ok(()))
        }
    }

    // ------------------------------------------------------------------ restart

    /// Whether a reset to `start_slot` can be counted in 64 bits.
    pub open spec fn can_restart(self, start_slot: u64, next_leader_slot: Option<u64>) -> bool {
        &&& slot_fits(start_slot as nat, self.ticks_per_slot)
        &&& leader_slot_fits(next_leader_slot, self.ticks_per_slot, self.grace_ticks)
    }

    /// The recorder goes on from the end of slot `start_slot`.
    pub open spec fn starting_after(self, start_slot: nat) -> RecorderState {
        RecorderState {
            start_slot,
            start_tick: (start_slot + 1) * self.ticks_per_slot,
            ..self
        }
    }

    /// The recorder stands at the last tick of slot `start_slot` with an empty cache,
    /// and PoH restarts from `blockhash`.
    pub open spec fn restarted(
        self,
        blockhash: solana_sdk::hash::Hash,
        start_slot: u64,
        next_leader_slot: Option<u64>,
    ) -> (RecorderState, ActionModel) {
        let s = self.starting_after(start_slot as nat).with_leader_slot(opt_nat(next_leader_slot));
        (
            RecorderState {
                tick_height: (s.start_tick - 1) as nat,
                tick_cache: Seq::empty(),
                stage: Stage::Idle,
                request: None,
                ..s
            },
            ActionModel::ResetPoh(
                PohStart { hash: blockhash, hashes_per_tick: self.hashes_per_tick },
            ),
        )
    }

    /// `reset`: the recorder restarts once its bank is cleared.
    pub open spec fn reset(
        self,
        blockhash: solana_sdk::hash::Hash,
        start_slot: u64,
        next_leader_slot: Option<u64>,
    ) -> (RecorderState, ActionModel) {
        if self.clear_asks() {
            self.clearing(Stage::Resetting { blockhash, start_slot, next_leader_slot })
        } else {
            self.restarted(blockhash, start_slot, next_leader_slot)
        }
    }

    // ----------------------------------------------------------------- flushing

    /// Why the cache cannot be flushed: there is no bank, or the current height has
    /// not reached the bank's range. A tick has to be past the start of the range, an
    /// entry may stand on it.
    pub open spec fn flush_error(self, tick: bool) -> Option<PohRecorderError> {
        match self.working_bank {
            None => Some(PohRecorderError::MaxHeightReached),
            Some(w) => {
                if self.tick_height < w.min_tick_height || (tick && self.tick_height
                    == w.min_tick_height) {
                    Some(PohRecorderError::MinHeightNotReached)
                } else {
                    None
                }
            },
        }
    }

    /// The cached ticks that belong to the working bank.
    pub open spec fn due_ticks(self) -> Seq<(EntryModel, u64)> {
        ticks_up_to(self.tick_cache, self.working_bank->0.max_tick_height)
    }

    /// Whether the working bank's range of ticks is complete.
    pub open spec fn bank_full(self) -> bool {
        self.working_bank matches Some(w) && self.tick_height >= w.max_tick_height
    }

    /// Whether the slot that follows a complete bank can be counted in 64 bits.
    pub open spec fn end_fits(self) -> bool {
        self.bank_full() ==> {
            &&& self.ticks_per_slot > 0
            &&& slot_fits(
                self.working_bank->0.max_tick_height as nat / self.ticks_per_slot,
                self.ticks_per_slot,
            )
        }
    }

    /// Whether a flush, unless it is refused, can be counted in 64 bits.
    pub open spec fn flush_fits(self, tick: bool) -> bool {
        self.flush_error(tick) is None ==> self.end_fits()
    }

    /// The flush of a recorder with a bank goes on once its ticks were sent or could
    /// not be sent. Ticks that were sent leave the cache. A complete bank is left
    /// behind, and so is the bank of ticks that could not be sent; for a bank to
    /// which both apply the clearing is signalled a second time.
    pub open spec fn flush_sent(self, by: Flusher, sent: bool) -> (
        RecorderState,
        Option<ActionModel>,
    ) {
        let max = self.working_bank->0.max_tick_height;
        let kept = if sent {
            RecorderState { tick_cache: ticks_past(self.tick_cache, max), ..self }
        } else {
            self
        };
        let placed = if self.bank_full() {
            kept.starting_after(max as nat / self.ticks_per_slot)
        } else {
            kept
        };
        if self.bank_full() || !sent {
            let (s, action) = placed.clearing(
                Stage::FlushClearing { by, again: self.bank_full() && !sent },
            );
            (s, Some(action))
        } else {
            (placed, None)
        }
    }

    /// Flushes the cache: either it is refused, or it waits for an answer from
    /// outside, or it is over at once.
    pub open spec fn flush_cache(self, tick: bool, by: Flusher) -> (
        RecorderState,
        Result<Option<ActionModel>, PohRecorderError>,
    ) {
        match self.flush_error(tick) {
            Some(error) => (self, Err(error)),
            None => {
                if self.due_ticks().len() > 0 {
                    (
                        RecorderState { stage: Stage::Flushing { by }, ..self },
                        Ok(
                            Some(
                                ActionModel::Flush {
                                    bank: self.working_bank->0.bank,
                                    entries: self.due_ticks(),
                                },
                            ),
                        ),
                    )
                } else {
                    let (s, action) = self.flush_sent(by, true);
                    (s, Ok(action))
                }
            },
        }
    }

    /// What follows a flush.
    pub open spec fn after_flush(self, by: Flusher) -> (RecorderState, ActionModel) {
        match by {
            Flusher::Tick => self.finished(Ok(())),
            Flusher::Record => self.record_poh(),
            Flusher::RecordTick => self.try_record(),
        }
    }

    /// `flushed`: a flush hears whether its ticks could be sent.
    pub open spec fn flushed(self, sent: bool) -> (RecorderState, ActionModel) {
        match self.stage {
            Stage::Flushing { by } => match self.flush_sent(by, sent) {
                (s, Some(action)) => (s, action),
                (s, None) => s.after_flush(by),
            },
            _ => arbitrary(),
        }
    }

    /// `bank_cleared`: the operation that cleared the bank goes on.
    pub open spec fn bank_cleared(self, next_leader_slot: Option<u64>) -> (
        RecorderState,
        ActionModel,
    ) {
        let s = self.cleared(opt_nat(next_leader_slot));
        match self.stage {
            Stage::Clearing => s.finished(Ok(())),
            Stage::Resetting { blockhash, start_slot, next_leader_slot } => s.restarted(
                blockhash,
                start_slot,
                next_leader_slot,
            ),
            Stage::FlushClearing { by, again } => {
                if again && self.clear_bank_signal {
                    s.clearing(Stage::FlushClearing { by, again: false })
                } else {
                    s.after_flush(by)
                }
            },
            _ => arbitrary(),
        }
    }

    // ------------------------------------------------------------------ ticking

    /// The tick that PoH produced is counted, and cached if the recorder knows a slot
    /// that it will lead.
    pub open spec fn with_tick(self, poh_entry: PohEntry) -> RecorderState {
        let tick_height = self.tick_height + 1;
        RecorderState {
            tick_height,
            tick_cache: if self.start_leader_at_tick is Some {
                self.tick_cache.push((entry_of(poh_entry, Seq::empty()), tick_height as u64))
            } else {
                self.tick_cache
            },
            ..self
        }
    }

    /// PoH was ticked and returned `poh_entry`.
    pub open spec fn poh_tick(self, poh_entry: Option<PohEntry>, by: Flusher) -> (
        RecorderState,
        ActionModel,
    ) {
        match poh_entry {
            None => self.after_flush(by),
            Some(entry) => {
                let ticked = self.with_tick(entry);
                if ticked.start_leader_at_tick is None {
                    ticked.after_flush(by)
                } else {
                    match ticked.flush_cache(true, by) {
                        (s, Ok(Some(action))) => (s, action),
                        (s, _) => s.after_flush(by),
                    }
                }
            },
        }
    }

    /// Whether the tick that PoH returned, and the flush that comes after it, can be
    /// counted in 64 bits.
    pub open spec fn tick_fits(self, poh_entry: Option<PohEntry>, by: Flusher) -> bool {
        poh_entry matches Some(entry) ==> {
            &&& self.tick_height < u64::MAX
            &&& self.start_leader_at_tick is Some || by is RecordTick ==> self.with_tick(
                entry,
            ).flush_fits(by is Tick)
        }
    }

    /// `tick`: PoH was ticked.
    pub open spec fn tick(self, poh_entry: Option<PohEntry>) -> (RecorderState, ActionModel) {
        self.poh_tick(poh_entry, Flusher::Tick)
    }

    /// `poh_ticked`: PoH was ticked for a record.
    pub open spec fn poh_ticked(self, poh_entry: Option<PohEntry>) -> (RecorderState, ActionModel) {
        self.poh_tick(poh_entry, Flusher::RecordTick)
    }

    // ---------------------------------------------------------------- recording

    /// With the cache flushed, PoH is asked to record if the working bank is still
    /// there and is the one that was meant.
    pub open spec fn record_poh(self) -> (RecorderState, ActionModel) {
        let request = self.request->0;
        if self.working_bank matches Some(w) && w.bank.slot == request.bank_slot {
            (
                RecorderState { stage: Stage::RecordingPoh, ..self },
                ActionModel::RecordPoh { mixin: request.mixin },
            )
        } else {
            self.refused(PohRecorderError::MaxHeightReached)
        }
    }

    /// An attempt to record: the cache is flushed first.
    pub open spec fn try_record(self) -> (RecorderState, ActionModel) {
        match self.flush_cache(false, Flusher::Record) {
            (s, Err(error)) => s.refused(error),
            (s, Ok(Some(action))) => (s, action),
            (s, Ok(None)) => s.record_poh(),
        }
    }

    /// `record`: a first attempt to record.
    pub open spec fn record(self, request: RequestModel) -> (RecorderState, ActionModel) {
        RecorderState { request: Some(request), ..self }.try_record()
    }

    /// `poh_recorded`: the entry that PoH made is to be sent with the transactions, or PoH has to
    /// tick first.
    pub open spec fn poh_recorded(self, poh_entry: Option<PohEntry>) -> (
        RecorderState,
        ActionModel,
    ) {
        match poh_entry {
            Some(entry) => (
                RecorderState { stage: Stage::SendingEntry, request: None, ..self },
                ActionModel::Send {
                    bank: self.working_bank->0.bank,
                    entries: seq![
                        (
                            entry_of(entry, self.request->0.transactions),
                            self.tick_height as u64,
                        ),
                    ],
                },
            ),
            None => (
                RecorderState { stage: Stage::TickingPoh, ..self },
                ActionModel::TickPoh,
            ),
        }
    }

    /// `entry_sent`: a record ends.
    pub open spec fn entry_sent(self, sent: bool) -> (RecorderState, ActionModel) {
        if sent {
            self.finished(Ok(()))
        } else {
            self.finished(Err(Error::SendError))
        }
    }

    // ------------------------------------------------------------------- banks

    /// `set_working_bank`: the recorder works for `working_bank`.
    pub open spec fn set_working_bank(self, working_bank: WorkingBank) -> RecorderState {
        RecorderState { working_bank: Some(working_bank), ..self }
    }
}

} // verus!
