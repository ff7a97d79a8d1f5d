//! Runs of a recorder: the calls made to it one after the other.
use crate::action::ActionModel;
use crate::leader::leader_slot_fits;
use crate::state::{Flusher, RecorderState, RequestModel};
use crate::types::{entry_of, EntryModel, PohEntry, WorkingBank};
use vstd::prelude::*;

verus! {

/// A call that changes a recorder: an operation, or the answer to an action.
pub enum Input {
    ClearBank,
    BankCleared(Option<u64>),
    Reset {
        blockhash: solana_sdk::hash::Hash,
        start_slot: u64,
        next_leader_slot: Option<u64>,
    },
    SetWorkingBank(WorkingBank),
    Tick(Option<PohEntry>),
    Flushed(bool),
    Record(RequestModel),
    PohRecorded(Option<PohEntry>),
    PohTicked(Option<PohEntry>),
    EntrySent(bool),
}

impl RecorderState {
    /// Whether the recorder may be called in this way.
    #[verifier::opaque]
    pub open spec fn accepts(self, input: Input) -> bool {
        match input {
            Input::ClearBank => self.idle(),
            Input::BankCleared(next_leader_slot) => {
                &&& self.stage is Clearing || self.stage is Resetting || self.stage is FlushClearing
                &&& self.working_bank is Some ==> leader_slot_fits(
                    next_leader_slot,
                    self.ticks_per_slot,
                    self.grace_ticks,
                )
            },
            Input::Reset { blockhash, start_slot, next_leader_slot } => {
                &&& self.idle()
                &&& self.can_restart(start_slot, next_leader_slot)
            },
            Input::SetWorkingBank(w) => {
                &&& self.idle()
                &&& w.bank.ticks_per_slot == self.ticks_per_slot
            },
            Input::Tick(poh_entry) => {
                &&& self.idle()
                &&& self.tick_fits(poh_entry, Flusher::Tick)
            },
            Input::Flushed(sent) => self.stage is Flushing,
            Input::Record(request) => {
                &&& self.idle()
                &&& self.flush_fits(false)
                &&& request.transactions.len() > 0
            },
            Input::PohRecorded(poh_entry) => self.stage is RecordingPoh,
            Input::PohTicked(poh_entry) => {
                &&& self.stage is TickingPoh
                &&& self.tick_fits(poh_entry, Flusher::RecordTick)
            },
            Input::EntrySent(sent) => self.stage is SendingEntry,
        }
    }

    /// The recorder after the call.
    #[verifier::opaque]
    pub open spec fn after(self, input: Input) -> RecorderState {
        match input {
            Input::ClearBank => self.clear_bank().0,
            Input::BankCleared(next_leader_slot) => self.bank_cleared(next_leader_slot).0,
            Input::Reset { blockhash, start_slot, next_leader_slot } => self.reset(
                blockhash,
                start_slot,
                next_leader_slot,
            ).0,
            Input::SetWorkingBank(w) => self.set_working_bank(w),
            Input::Tick(poh_entry) => self.tick(poh_entry).0,
            Input::Flushed(sent) => self.flushed(sent).0,
            Input::Record(request) => self.record(request).0,
            Input::PohRecorded(poh_entry) => self.poh_recorded(poh_entry).0,
            Input::PohTicked(poh_entry) => self.poh_ticked(poh_entry).0,
            Input::EntrySent(sent) => self.entry_sent(sent).0,
        }
    }

    /// The action that the call returns, if it returns one.
    #[verifier::opaque]
    pub open spec fn action(self, input: Input) -> Option<ActionModel> {
        match input {
            Input::ClearBank => Some(self.clear_bank().1),
            Input::BankCleared(next_leader_slot) => Some(self.bank_cleared(next_leader_slot).1),
            Input::Reset { blockhash, start_slot, next_leader_slot } => Some(
                self.reset(blockhash, start_slot, next_leader_slot).1,
            ),
            Input::SetWorkingBank(w) => None,
            Input::Tick(poh_entry) => Some(self.tick(poh_entry).1),
            Input::Flushed(sent) => Some(self.flushed(sent).1),
            Input::Record(request) => Some(self.record(request).1),
            Input::PohRecorded(poh_entry) => Some(self.poh_recorded(poh_entry).1),
            Input::PohTicked(poh_entry) => Some(self.poh_ticked(poh_entry).1),
            Input::EntrySent(sent) => Some(self.entry_sent(sent).1),
        }
    }

    /// Whether the call restarts PoH, with an empty cache and at another height.
    pub open spec fn restarts(self, input: Input) -> bool {
        match input {
            Input::Reset { blockhash, start_slot, next_leader_slot } => !self.clear_asks(),
            Input::BankCleared(next_leader_slot) => self.stage is Resetting,
            _ => false,
        }
    }

    /// The tick that PoH produced for this call.
    pub open spec fn tick_of(self, input: Input) -> Option<PohEntry> {
        match input {
            Input::Tick(poh_entry) => poh_entry,
            Input::PohTicked(poh_entry) => poh_entry,
            _ => None,
        }
    }

    /// The ticks that the call puts into the cache: what PoH produced, while the
    /// recorder knows a slot to lead.
    #[verifier::opaque]
    pub open spec fn ticks_cached(self, input: Input) -> Seq<(EntryModel, u64)> {
        match self.tick_of(input) {
            Some(entry) if self.start_leader_at_tick is Some => seq![
                (entry_of(entry, Seq::empty()), (self.tick_height + 1) as u64),
            ],
            _ => Seq::empty(),
        }
    }

    /// The ticks of which the call reports that they were sent.
    #[verifier::opaque]
    pub open spec fn ticks_sent(self, input: Input) -> Seq<(EntryModel, u64)> {
        match input {
            Input::Flushed(true) => self.due_ticks(),
            _ => Seq::empty(),
        }
    }

    /// What goes to the ledger with this call: the ticks that were sent, or the entry
    /// that is handed out to be sent.
    pub open spec fn ledger(self, input: Input) -> Seq<(EntryModel, u64)> {
        match self.action(input) {
            Some(ActionModel::Send { bank, entries }) => self.ticks_sent(input) + entries,
            _ => self.ticks_sent(input),
        }
    }

    /// Whether the recorder may be called with all of `inputs` in turn.
    pub open spec fn accepts_run(self, inputs: Seq<Input>) -> bool
        decreases inputs.len(),
    {
        inputs.len() > 0 ==> {
            &&& self.accepts(inputs[0])
            &&& self.after(inputs[0]).accepts_run(inputs.drop_first())
        }
    }

    /// Whether one of `inputs`, made in turn, restarts PoH.
    pub open spec fn restarts_in_run(self, inputs: Seq<Input>) -> bool
        decreases inputs.len(),
    {
        inputs.len() > 0 && {
            ||| self.restarts(inputs[0])
            ||| self.after(inputs[0]).restarts_in_run(inputs.drop_first())
        }
    }

    /// The recorder after all of `inputs`.
    pub open spec fn after_run(self, inputs: Seq<Input>) -> RecorderState
        decreases inputs.len(),
    {
        if inputs.len() > 0 {
            self.after(inputs[0]).after_run(inputs.drop_first())
        } else {
            self
        }
    }

    /// The ticks that went into the cache over the run.
    pub open spec fn run_ticks_cached(self, inputs: Seq<Input>) -> Seq<(EntryModel, u64)>
        decreases inputs.len(),
    {
        if inputs.len() > 0 {
            self.ticks_cached(inputs[0]) + self.after(inputs[0]).run_ticks_cached(
                inputs.drop_first(),
            )
        } else {
            Seq::empty()
        }
    }

    /// The ticks that were sent over the run.
    pub open spec fn run_ticks_sent(self, inputs: Seq<Input>) -> Seq<(EntryModel, u64)>
        decreases inputs.len(),
    {
        if inputs.len() > 0 {
            self.ticks_sent(inputs[0]) + self.after(inputs[0]).run_ticks_sent(inputs.drop_first())
        } else {
            Seq::empty()
        }
    }

    /// What went to the ledger over the run.
    pub open spec fn run_ledger(self, inputs: Seq<Input>) -> Seq<(EntryModel, u64)>
        decreases inputs.len(),
    {
        if inputs.len() > 0 {
            self.ledger(inputs[0]) + self.after(inputs[0]).run_ledger(inputs.drop_first())
        } else {
            Seq::empty()
        }
    }
}

} // verus!
