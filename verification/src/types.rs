//! The values that a recorder holds, reads and hands out.
use solana_sdk::clock::Slot;
use solana_sdk::transaction::Transaction;
use vstd::prelude::*;

verus! {

/// `solana_sdk::hash::Hash`: the hash of a PoH entry or of a block. The recorder
/// only passes hashes on.
#[verifier::external_type_specification]
#[verifier::external_body]
pub struct ExHash(solana_sdk::hash::Hash);

/// `solana_sdk::pubkey::Pubkey`: the identity of the node. The recorder only
/// passes it on.
#[verifier::external_type_specification]
#[verifier::external_body]
pub struct ExPubkey(solana_sdk::pubkey::Pubkey);

/// `solana_sdk::transaction::Transaction`: what an entry carries. The recorder
/// only passes transactions on.
#[verifier::external_type_specification]
#[verifier::external_body]
pub struct ExTransaction(solana_sdk::transaction::Transaction);

/// Why a flush or a record was refused.
#[derive(Debug, PartialEq, Eq, Clone, Copy)]
pub enum PohRecorderError {
    InvalidCallingObject,
    MaxHeightReached,
    MinHeightNotReached,
}

/// Why a record failed.
#[derive(Debug, PartialEq, Eq, Clone, Copy)]
pub enum Error {
    /// The recorder refused it.
    PohRecorderError(PohRecorderError),
    /// The entry was made, but nobody receives entries any more.
    SendError,
}

/// What a recorder reads of a bank: its slot, and its tick heights at the moment
/// the bank was handed over.
#[derive(Debug, PartialEq, Eq, Clone, Copy)]
pub struct Bank {
    pub slot: Slot,
    pub ticks_per_slot: u64,
    pub tick_height: u64,
    pub max_tick_height: u64,
}

/// A bank together with the range of tick heights in which the recorder works
/// for it.
#[derive(Debug, PartialEq, Eq, Clone, Copy)]
pub struct WorkingBank {
    pub bank: Bank,
    pub min_tick_height: u64,
    pub max_tick_height: u64,
}

/// How PoH is configured, as far as the recorder passes it on.
#[derive(Debug, PartialEq, Eq, Clone, Copy)]
pub struct PohConfig {
    pub hashes_per_tick: Option<u64>,
}

/// What PoH is started from.
#[derive(Debug, PartialEq, Eq, Clone, Copy)]
pub struct PohStart {
    pub hash: solana_sdk::hash::Hash,
    pub hashes_per_tick: Option<u64>,
}

/// What PoH answers to a tick or a record that succeeded.
#[derive(Debug, PartialEq, Eq, Clone, Copy)]
pub struct PohEntry {
    pub num_hashes: u64,
    pub hash: solana_sdk::hash::Hash,
}

/// An entry of the ledger: a tick when it carries no transactions.
#[derive(Debug, PartialEq, Eq)]
pub struct Entry {
    pub num_hashes: u64,
    pub hash: solana_sdk::hash::Hash,
    pub transactions: Vec<Transaction>,
}

/// The mathematical content of an `Entry`.
#[verifier::ext_equal]
pub struct EntryModel {
    pub num_hashes: u64,
    pub hash: solana_sdk::hash::Hash,
    pub transactions: Seq<Transaction>,
}

impl View for Entry {
    type V = EntryModel;

    open spec fn view(&self) -> EntryModel {
        EntryModel {
            num_hashes: self.num_hashes,
            hash: self.hash,
            transactions: self.transactions@,
        }
    }
}

/// The entry that PoH's answer `poh_entry` and `transactions` make up.
pub open spec fn entry_of(poh_entry: PohEntry, transactions: Seq<Transaction>) -> EntryModel {
    EntryModel { num_hashes: poh_entry.num_hashes, hash: poh_entry.hash, transactions }
}

impl EntryModel {
    /// Whether the entry is a tick.
    pub open spec fn tick(self) -> bool {
        self.transactions.len() == 0
    }
}

/// The contents of a list of entries, each with its tick height.
pub open spec fn entries_model(entries: Seq<(Entry, u64)>) -> Seq<(EntryModel, u64)> {
    entries.map_values(|e: (Entry, u64)| (e.0@, e.1))
}

impl Entry {
    /// Whether the entry is a tick: it carries no transactions.
    pub fn is_tick(&self) -> (res: bool)
        ensures
            res == self@.tick(),
    {
        self.transactions.len() == 0
    }

    /// A second copy of a tick.
    pub(crate) fn copy_tick(&self) -> (res: Entry)
        requires
            self@.tick(),
        ensures
            res@ == self@,
    {
        Entry { num_hashes: self.num_hashes, hash: self.hash, transactions: Vec::new() }
    }
}

} // verus!
