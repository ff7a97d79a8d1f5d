//! What a recorder asks the node around it to do.
use crate::types::{entries_model, Bank, Entry, EntryModel, Error, PohRecorderError, PohStart};
use vstd::prelude::*;

verus! {

/// The outside work that comes next, or the end of the operation.
///
/// Whoever runs a recorder performs the action and hands the answer back through
/// the method named with it, which returns the action that follows.
#[derive(Debug)]
pub enum Action {
    /// Register the hash of each of `entries` with `bank` as a tick, in order;
    /// after that send `bank` with `entries`. Answer with `flushed`: whether the
    /// entries could be sent.
    Flush { bank: Bank, entries: Vec<(Entry, u64)> },
    /// Send `bank` with `entries`. Answer with `entry_sent`: whether the entries
    /// could be sent.
    Send { bank: Bank, entries: Vec<(Entry, u64)> },
    /// If a bank is `given_up`, look up the next slot after the bank's in which `id`
    /// leads; after that, if `signal`, signal that the bank is cleared. Answer
    /// with `bank_cleared`: the slot that was found.
    ClearBank { id: solana_sdk::pubkey::Pubkey, given_up: Option<Bank>, signal: bool },
    /// Tick PoH. Answer with `poh_ticked`: what PoH returned.
    TickPoh,
    /// Record `mixin` in PoH. Answer with `poh_recorded`: what PoH returned.
    RecordPoh { mixin: solana_sdk::hash::Hash },
    /// Restart PoH. This ends the operation.
    ResetPoh(PohStart),
    /// The operation has ended.
    Done(Result<(), Error>),
}

/// The mathematical content of an `Action`.
#[verifier::ext_equal]
pub enum ActionModel {
    Flush { bank: Bank, entries: Seq<(EntryModel, u64)> },
    Send { bank: Bank, entries: Seq<(EntryModel, u64)> },
    ClearBank { id: solana_sdk::pubkey::Pubkey, given_up: Option<Bank>, signal: bool },
    TickPoh,
    RecordPoh { mixin: solana_sdk::hash::Hash },
    ResetPoh(PohStart),
    Done(Result<(), Error>),
}

impl View for Action {
    type V = ActionModel;

    open spec fn view(&self) -> ActionModel {
        match *self {
            Action::Flush { bank, entries } => ActionModel::Flush {
                bank,
                entries: entries_model(entries@),
            },
            Action::Send { bank, entries } => ActionModel::Send {
                bank,
                entries: entries_model(entries@),
            },
            Action::ClearBank { id, given_up, signal } => ActionModel::ClearBank {
                id,
                given_up,
                signal,
            },
            Action::TickPoh => ActionModel::TickPoh,
            Action::RecordPoh { mixin } => ActionModel::RecordPoh { mixin },
            Action::ResetPoh(start) => ActionModel::ResetPoh(start),
            Action::Done(result) => ActionModel::Done(result),
        }
    }
}

/// The content of an action that there may be.
pub open spec fn opt_action(action: Option<Action>) -> Option<ActionModel> {
    match action {
        Some(a) => Some(a@),
        None => None,
    }
}

/// The content of what a flush returns.
pub open spec fn flush_result(result: Result<Option<Action>, PohRecorderError>) -> Result<
    Option<ActionModel>,
    PohRecorderError,
> {
    match result {
        Ok(action) => Ok(opt_action(action)),
        Err(error) => Err(error),
    }
}

} // verus!
