use poh_recorder::{
    Action, Bank, Entry, Error, PohConfig, PohEntry, PohRecorder, PohRecorderError, PohStart, Slot,
    WorkingBank, GRACE_TICKS_FACTOR,
};
use solana_sdk::hash::hash;
use solana_sdk::pubkey::Pubkey;
use solana_sdk::signature::{Keypair, Signer};
use solana_sdk::system_transaction;
use solana_sdk::transaction::Transaction;
use std::sync::mpsc::{channel, sync_channel, Receiver, Sender, SyncSender};

const DEFAULT_TICKS_PER_SLOT: u64 = 4;

type WorkingBankEntries = (Bank, Vec<(Entry, u64)>);

/// A node around a recorder: it performs the recorder's actions.
struct Node {
    recorder: PohRecorder,
    /// The hash that PoH has come to.
    hash: solana_sdk::hash::Hash,
    /// How often PoH refuses to record before it records again.
    refusals: u64,
    sender: Sender<WorkingBankEntries>,
    clear_bank_signal: Option<SyncSender<bool>>,
    /// What the leader schedule answers.
    next_leader_slot: Option<Slot>,
    /// The identity and the slots that the leader schedule was asked about.
    asked: Vec<(Pubkey, Slot)>,
    /// The ticks that were registered, each with the slot of its bank.
    registered: Vec<(Slot, solana_sdk::hash::Hash)>,
    /// What PoH was reset to.
    resets: Vec<PohStart>,
}

fn zero_hash() -> solana_sdk::hash::Hash {
    solana_sdk::hash::Hash::default()
}

impl Node {
    fn new_with_clear_signal(
        tick_height: u64,
        last_entry_hash: solana_sdk::hash::Hash,
        start_slot: Slot,
        next_leader_slot: Option<Slot>,
        ticks_per_slot: u64,
        clear_bank_signal: Option<SyncSender<bool>>,
    ) -> (Node, Receiver<WorkingBankEntries>) {
        let (recorder, start) = PohRecorder::new_with_clear_signal(
            tick_height,
            last_entry_hash,
            start_slot,
            next_leader_slot,
            ticks_per_slot,
            &Pubkey::default(),
            clear_bank_signal.is_some(),
            &PohConfig { hashes_per_tick: None },
        );
        let (sender, receiver) = channel();
        let node = Node {
            recorder,
            hash: start.hash,
            refusals: 0,
            sender,
            clear_bank_signal,
            next_leader_slot: None,
            asked: vec![],
            registered: vec![],
            resets: vec![],
        };
        (node, receiver)
    }

    fn new(
        tick_height: u64,
        last_entry_hash: solana_sdk::hash::Hash,
        start_slot: Slot,
        next_leader_slot: Option<Slot>,
        ticks_per_slot: u64,
    ) -> (Node, Receiver<WorkingBankEntries>) {
        Node::new_with_clear_signal(
            tick_height,
            last_entry_hash,
            start_slot,
            next_leader_slot,
            ticks_per_slot,
            None,
        )
    }

    fn tick_poh(&mut self) -> Option<PohEntry> {
        self.hash = hash(self.hash.as_ref());
        Some(PohEntry { num_hashes: 1, hash: self.hash })
    }

    fn record_poh(&mut self, mixin: solana_sdk::hash::Hash) -> Option<PohEntry> {
        if self.refusals > 0 {
            self.refusals -= 1;
            return None;
        }
        self.hash = solana_sdk::hash::hashv(&[self.hash.as_ref(), mixin.as_ref()]);
        Some(PohEntry { num_hashes: 1, hash: self.hash })
    }

    fn run(&mut self, first: Action) -> Result<(), Error> {
        let mut action = first;
        loop {
            action = match action {
                Action::Flush { bank, entries } => {
                    for (entry, _) in &entries {
                        self.registered.push((bank.slot, entry.hash));
                    }
                    let sent = self.sender.send((bank, entries)).is_ok();
                    self.recorder.flushed(sent)
                }
                Action::Send { bank, entries } => {
                    let sent = self.sender.send((bank, entries)).is_ok();
                    self.recorder.entry_sent(sent)
                }
                Action::ClearBank { id, given_up, signal } => {
                    let next = match given_up {
                        Some(bank) => {
                            self.asked.push((id, bank.slot));
                            self.next_leader_slot
                        }
                        None => None,
                    };
                    if signal {
                        let _ = self.clear_bank_signal.as_ref().unwrap().try_send(true);
                    }
                    self.recorder.bank_cleared(next)
                }
                Action::TickPoh => {
                    let poh_entry = self.tick_poh();
                    self.recorder.poh_ticked(poh_entry)
                }
                Action::RecordPoh { mixin } => {
                    let poh_entry = self.record_poh(mixin);
                    self.recorder.poh_recorded(poh_entry)
                }
                Action::ResetPoh(start) => {
                    self.hash = start.hash;
                    self.resets.push(start);
                    return Ok(());
                }
                Action::Done(result) => return result,
            };
        }
    }

    fn tick(&mut self) {
        let poh_entry = self.tick_poh();
        let action = self.recorder.tick(poh_entry);
        assert!(self.run(action).is_ok());
    }

    fn record(
        &mut self,
        bank_slot: Slot,
        mixin: solana_sdk::hash::Hash,
        transactions: Vec<Transaction>,
    ) -> Result<(), Error> {
        let action = self.recorder.record(bank_slot, mixin, transactions);
        self.run(action)
    }

    fn reset(
        &mut self,
        blockhash: solana_sdk::hash::Hash,
        start_slot: Slot,
        next_leader_slot: Option<Slot>,
    ) {
        let action = self.recorder.reset(blockhash, start_slot, next_leader_slot);
        assert!(self.run(action).is_ok());
    }

    fn clear_bank(&mut self) {
        let action = self.recorder.clear_bank();
        assert!(self.run(action).is_ok());
    }

    fn set_working_bank(&mut self, bank: Bank, min_tick_height: u64, max_tick_height: u64) {
        self.recorder.set_working_bank(WorkingBank { bank, min_tick_height, max_tick_height });
    }

    fn heights(&self) -> Vec<u64> {
        self.recorder.tick_cache().iter().map(|t| t.1).collect()
    }
}

/// A bank at genesis.
fn genesis_bank() -> Bank {
    genesis_bank_with(DEFAULT_TICKS_PER_SLOT)
}

fn genesis_bank_with(ticks_per_slot: u64) -> Bank {
    Bank { slot: 0, ticks_per_slot, tick_height: 0, max_tick_height: ticks_per_slot - 1 }
}

fn test_tx() -> Transaction {
    let keypair = Keypair::new();
    let pubkey = keypair.pubkey();
    system_transaction::transfer(&keypair, &pubkey, 42, zero_hash())
}

fn sent_heights(entries: &[(Entry, u64)]) -> Vec<u64> {
    entries.iter().map(|t| t.1).collect()
}

#[test]
fn test_poh_recorder_no_zero_tick() {
    let prev_hash = zero_hash();
    let (mut poh_recorder, _entry_receiver) =
        Node::new(0, prev_hash, 0, Some(4), DEFAULT_TICKS_PER_SLOT);
    poh_recorder.tick();
    assert_eq!(poh_recorder.recorder.tick_cache().len(), 1);
    assert_eq!(poh_recorder.recorder.tick_cache()[0].1, 1);
    assert_eq!(poh_recorder.recorder.tick_height(), 1);
}

#[test]
fn test_poh_recorder_tick_height_is_last_tick() {
    let prev_hash = zero_hash();
    let (mut poh_recorder, _entry_receiver) =
        Node::new(0, prev_hash, 0, Some(4), DEFAULT_TICKS_PER_SLOT);
    poh_recorder.tick();
    poh_recorder.tick();
    assert_eq!(poh_recorder.recorder.tick_cache().len(), 2);
    assert_eq!(poh_recorder.recorder.tick_cache()[1].1, 2);
    assert_eq!(poh_recorder.recorder.tick_height(), 2);
}

#[test]
fn test_poh_recorder_reset_clears_cache() {
    let (mut poh_recorder, _entry_receiver) =
        Node::new(0, zero_hash(), 0, Some(4), DEFAULT_TICKS_PER_SLOT);
    poh_recorder.tick();
    assert_eq!(poh_recorder.recorder.tick_cache().len(), 1);
    poh_recorder.reset(zero_hash(), 0, Some(4));
    assert_eq!(poh_recorder.recorder.tick_cache().len(), 0);
}

#[test]
fn test_poh_recorder_clear() {
    let bank = genesis_bank();
    let prev_hash = zero_hash();
    let (mut poh_recorder, _entry_receiver) =
        Node::new(0, prev_hash, 0, Some(4), bank.ticks_per_slot);
    poh_recorder.set_working_bank(bank, 2, 3);
    assert!(poh_recorder.recorder.has_bank());
    poh_recorder.clear_bank();
    assert!(!poh_recorder.recorder.has_bank());
}

#[test]
fn test_poh_recorder_tick_sent_after_min() {
    let bank = genesis_bank();
    let prev_hash = zero_hash();
    let (mut poh_recorder, entry_receiver) =
        Node::new(0, prev_hash, 0, Some(4), bank.ticks_per_slot);
    poh_recorder.set_working_bank(bank, 2, 3);
    poh_recorder.tick();
    poh_recorder.tick();
    //tick height equal to min_tick_height
    //no tick has been sent
    assert_eq!(poh_recorder.recorder.tick_cache().last().unwrap().1, 2);
    assert!(entry_receiver.try_recv().is_err());

    // all ticks are sent after height > min
    poh_recorder.tick();
    assert_eq!(poh_recorder.recorder.tick_height(), 3);
    assert_eq!(poh_recorder.recorder.tick_cache().len(), 0);
    let (bank_, e) = entry_receiver.recv().expect("recv 1");
    assert_eq!(e.len(), 3);
    assert_eq!(bank_.slot, bank.slot);
    assert!(!poh_recorder.recorder.has_bank());
}

#[test]
fn test_poh_recorder_tick_sent_upto_and_including_max() {
    let bank = genesis_bank();
    let prev_hash = zero_hash();
    let (mut poh_recorder, entry_receiver) =
        Node::new(0, prev_hash, 0, Some(4), bank.ticks_per_slot);
    poh_recorder.tick();
    poh_recorder.tick();
    poh_recorder.tick();
    poh_recorder.tick();
    assert_eq!(poh_recorder.recorder.tick_cache().last().unwrap().1, 4);
    assert_eq!(poh_recorder.recorder.tick_height(), 4);

    poh_recorder.set_working_bank(bank, 2, 3);
    poh_recorder.tick();

    assert_eq!(poh_recorder.recorder.tick_height(), 5);
    assert!(!poh_recorder.recorder.has_bank());
    let (_, e) = entry_receiver.recv().expect("recv 1");
    assert_eq!(e.len(), 3);
}

#[test]
fn test_poh_recorder_record_to_early() {
    let bank = genesis_bank();
    let prev_hash = zero_hash();
    let (mut poh_recorder, entry_receiver) =
        Node::new(0, prev_hash, 0, Some(4), bank.ticks_per_slot);
    poh_recorder.set_working_bank(bank, 2, 3);
    poh_recorder.tick();
    let tx = test_tx();
    let h1 = hash(b"hello world!");
    assert!(poh_recorder.record(bank.slot, h1, vec![tx.clone()]).is_err());
    assert!(entry_receiver.try_recv().is_err());
}

#[test]
fn test_poh_recorder_record_bad_slot() {
    let bank = genesis_bank();
    let prev_hash = zero_hash();
    let (mut poh_recorder, _entry_receiver) =
        Node::new(0, prev_hash, 0, Some(4), bank.ticks_per_slot);
    poh_recorder.set_working_bank(bank, 1, 2);
    poh_recorder.tick();
    assert_eq!(poh_recorder.recorder.tick_cache().len(), 1);
    assert_eq!(poh_recorder.recorder.tick_height(), 1);
    let tx = test_tx();
    let h1 = hash(b"hello world!");
    assert!(matches!(
        poh_recorder.record(bank.slot + 1, h1, vec![tx.clone()]),
        Err(Error::PohRecorderError(PohRecorderError::MaxHeightReached))
    ));
}

#[test]
fn test_poh_recorder_record_at_min_passes() {
    let bank = genesis_bank();
    let prev_hash = zero_hash();
    let (mut poh_recorder, entry_receiver) =
        Node::new(0, prev_hash, 0, Some(4), bank.ticks_per_slot);
    poh_recorder.set_working_bank(bank, 1, 2);
    poh_recorder.tick();
    assert_eq!(poh_recorder.recorder.tick_cache().len(), 1);
    assert_eq!(poh_recorder.recorder.tick_height(), 1);
    let tx = test_tx();
    let h1 = hash(b"hello world!");
    assert!(poh_recorder.record(bank.slot, h1, vec![tx.clone()]).is_ok());
    assert_eq!(poh_recorder.recorder.tick_cache().len(), 0);

    //tick in the cache + entry
    let (_b, e) = entry_receiver.recv().expect("recv 1");
    assert_eq!(e.len(), 1);
    assert!(e[0].0.is_tick());
    let (_b, e) = entry_receiver.recv().expect("recv 2");
    assert!(!e[0].0.is_tick());
}

#[test]
fn test_poh_recorder_record_at_max_fails() {
    let bank = genesis_bank();
    let prev_hash = zero_hash();
    let (mut poh_recorder, entry_receiver) =
        Node::new(0, prev_hash, 0, Some(4), bank.ticks_per_slot);
    poh_recorder.set_working_bank(bank, 1, 2);
    poh_recorder.tick();
    poh_recorder.tick();
    assert_eq!(poh_recorder.recorder.tick_height(), 2);
    let tx = test_tx();
    let h1 = hash(b"hello world!");
    assert!(poh_recorder.record(bank.slot, h1, vec![tx.clone()]).is_err());

    let (_bank, e) = entry_receiver.recv().expect("recv 1");
    assert_eq!(e.len(), 2);
    assert!(e[0].0.is_tick());
    assert!(e[1].0.is_tick());
}

#[test]
fn test_poh_cache_on_disconnect() {
    let bank = genesis_bank();
    let prev_hash = zero_hash();
    let (mut poh_recorder, entry_receiver) =
        Node::new(0, prev_hash, 0, Some(4), bank.ticks_per_slot);
    poh_recorder.set_working_bank(bank, 2, 3);
    poh_recorder.tick();
    poh_recorder.tick();
    assert_eq!(poh_recorder.recorder.tick_height(), 2);
    drop(entry_receiver);
    poh_recorder.tick();
    assert!(!poh_recorder.recorder.has_bank());
    assert_eq!(poh_recorder.recorder.tick_cache().len(), 3);
}

#[test]
fn test_reset_current() {
    let (mut poh_recorder, _entry_receiver) =
        Node::new(0, zero_hash(), 0, Some(4), DEFAULT_TICKS_PER_SLOT);
    poh_recorder.tick();
    poh_recorder.tick();
    assert_eq!(poh_recorder.recorder.tick_cache().len(), 2);
    let hash = poh_recorder.hash;
    poh_recorder.reset(hash, 0, Some(4));
    assert_eq!(poh_recorder.recorder.tick_cache().len(), 0);
}

#[test]
fn test_reset_with_cached() {
    let (mut poh_recorder, _entry_receiver) =
        Node::new(0, zero_hash(), 0, Some(4), DEFAULT_TICKS_PER_SLOT);
    poh_recorder.tick();
    poh_recorder.tick();
    assert_eq!(poh_recorder.recorder.tick_cache().len(), 2);
    let hash = poh_recorder.recorder.tick_cache()[0].0.hash;
    poh_recorder.reset(hash, 0, Some(4));
    assert_eq!(poh_recorder.recorder.tick_cache().len(), 0);
}

#[test]
fn test_reset_to_new_value() {
    let (mut poh_recorder, _entry_receiver) =
        Node::new(0, zero_hash(), 0, Some(4), DEFAULT_TICKS_PER_SLOT);
    poh_recorder.tick();
    poh_recorder.tick();
    poh_recorder.tick();
    assert_eq!(poh_recorder.recorder.tick_cache().len(), 3);
    assert_eq!(poh_recorder.recorder.tick_height(), 3);
    poh_recorder.reset(hash(b"hello"), 0, Some(4)); // parent slot 0 implies tick_height of 3
    assert_eq!(poh_recorder.recorder.tick_cache().len(), 0);
    poh_recorder.tick();
    assert_eq!(poh_recorder.recorder.tick_height(), 4);
}

#[test]
fn test_reset_clear_bank() {
    let bank = genesis_bank();
    let (mut poh_recorder, _entry_receiver) =
        Node::new(0, zero_hash(), 0, Some(4), bank.ticks_per_slot);
    poh_recorder.set_working_bank(bank, 2, 3);
    poh_recorder.reset(hash(b"hello"), 0, Some(4));
    assert!(!poh_recorder.recorder.has_bank());
}

#[test]
fn test_clear_signal() {
    let bank = genesis_bank();
    let (sender, receiver) = sync_channel(1);
    let (mut poh_recorder, _entry_receiver) = Node::new_with_clear_signal(
        0,
        zero_hash(),
        0,
        None,
        bank.ticks_per_slot,
        Some(sender),
    );
    poh_recorder.recorder.set_bank(&bank);
    poh_recorder.clear_bank();
    assert!(receiver.try_recv().is_ok());
}

#[test]
fn test_poh_recorder_reset_start_slot() {
    let ticks_per_slot = 5;
    let bank = genesis_bank_with(ticks_per_slot);
    let prev_hash = zero_hash();
    let (mut poh_recorder, _entry_receiver) =
        Node::new(0, prev_hash, 0, Some(4), bank.ticks_per_slot);

    let end_slot = 3;
    let max_tick_height = (end_slot + 1) * ticks_per_slot - 1;
    poh_recorder.set_working_bank(bank, 1, max_tick_height);
    for _ in 0..max_tick_height {
        poh_recorder.tick();
    }

    let tx = test_tx();
    let h1 = hash(b"hello world!");
    assert!(poh_recorder.record(bank.slot, h1, vec![tx.clone()]).is_err());
    assert!(!poh_recorder.recorder.has_bank());
    // Make sure the starting slot is updated
    assert_eq!(poh_recorder.recorder.start_slot(), end_slot);
}

#[test]
fn test_reached_leader_tick() {
    let bank = genesis_bank();
    let prev_hash = zero_hash();
    let (mut poh_recorder, _entry_receiver) = Node::new(0, prev_hash, 0, None, bank.ticks_per_slot);

    // Test that with no leader slot, we don't reach the leader tick
    assert_eq!(poh_recorder.recorder.reached_leader_tick().0, false);

    poh_recorder.reset(prev_hash, 0, None);

    // Test that with no leader slot in reset(), we don't reach the leader tick
    assert_eq!(poh_recorder.recorder.reached_leader_tick().0, false);

    // Provide a leader slot 1 slot down
    poh_recorder.reset(prev_hash, 0, Some(2));

    let init_ticks = poh_recorder.recorder.tick_height();

    // Send one slot worth of ticks
    for _ in 0..bank.ticks_per_slot {
        poh_recorder.tick();
    }

    // Tick should be recorded
    assert_eq!(poh_recorder.recorder.tick_height(), init_ticks + bank.ticks_per_slot);

    // Test that we don't reach the leader tick because of grace ticks
    assert_eq!(poh_recorder.recorder.reached_leader_tick().0, false);

    // reset poh now. we should immediately be leader
    poh_recorder.reset(prev_hash, 1, Some(2));
    assert_eq!(poh_recorder.recorder.reached_leader_tick().0, true);
    assert_eq!(poh_recorder.recorder.reached_leader_tick().1, 0);

    // Now test that with grace ticks we can reach leader ticks
    // Set the leader slot 1 slot down
    poh_recorder.reset(prev_hash, 1, Some(3));

    // Send one slot worth of ticks ("skips" slot 2)
    for _ in 0..bank.ticks_per_slot {
        poh_recorder.tick();
    }

    // We are not the leader yet, as expected
    assert_eq!(poh_recorder.recorder.reached_leader_tick().0, false);

    // Send 1 less tick than the grace ticks
    for _ in 0..bank.ticks_per_slot / GRACE_TICKS_FACTOR {
        poh_recorder.tick();
    }

    // We should be the leader now
    assert_eq!(poh_recorder.recorder.reached_leader_tick().0, true);
    assert_eq!(
        poh_recorder.recorder.reached_leader_tick().1,
        bank.ticks_per_slot / GRACE_TICKS_FACTOR
    );

    // Let's test that correct grace ticks are reported
    // Set the leader slot 1 slot down
    poh_recorder.reset(prev_hash, 2, Some(4));

    // send ticks for a slot
    for _ in 0..bank.ticks_per_slot {
        poh_recorder.tick();
    }

    // We are not the leader yet, as expected
    assert_eq!(poh_recorder.recorder.reached_leader_tick().0, false);
    poh_recorder.reset(prev_hash, 3, Some(4));

    // without sending more ticks, we should be leader now
    assert_eq!(poh_recorder.recorder.reached_leader_tick().0, true);
    assert_eq!(poh_recorder.recorder.reached_leader_tick().1, 0);

    // Let's test that if a node overshoots the ticks for its target
    // leader slot, reached_leader_tick() will return true, because it's overdue
    // Set the leader slot 1 slot down
    poh_recorder.reset(prev_hash, 4, Some(5));

    // Send remaining ticks for the slot (remember we sent extra ticks in the previous part of the test)
    for _ in 0..4 * bank.ticks_per_slot {
        poh_recorder.tick();
    }

    // We are overdue to lead
    assert_eq!(poh_recorder.recorder.reached_leader_tick().0, true);
}

#[test]
fn test_would_be_leader_soon() {
    let bank = genesis_bank();
    let prev_hash = zero_hash();
    let (mut poh_recorder, _entry_receiver) = Node::new(0, prev_hash, 0, None, bank.ticks_per_slot);

    // Test that with no leader slot, we don't reach the leader tick
    assert_eq!(poh_recorder.recorder.would_be_leader(2 * bank.ticks_per_slot), false);

    poh_recorder.reset(prev_hash, 0, None);

    assert_eq!(poh_recorder.recorder.would_be_leader(2 * bank.ticks_per_slot), false);

    // We reset with leader slot after 3 slots
    poh_recorder.reset(prev_hash, 0, Some(bank.slot + 3));

    // Test that the node won't be leader in next 2 slots
    assert_eq!(poh_recorder.recorder.would_be_leader(2 * bank.ticks_per_slot), false);

    // Test that the node will be leader in next 3 slots
    assert_eq!(poh_recorder.recorder.would_be_leader(3 * bank.ticks_per_slot), true);

    assert_eq!(poh_recorder.recorder.would_be_leader(2 * bank.ticks_per_slot), false);

    // If we set the working bank, the node should be leader within next 2 slots
    poh_recorder.recorder.set_bank(&bank);
    assert_eq!(poh_recorder.recorder.would_be_leader(2 * bank.ticks_per_slot), true);
}

#[test]
fn errors_of_refused_records() {
    let bank = genesis_bank();
    let (mut node, receiver) = Node::new(0, zero_hash(), 0, Some(4), 4);
    let h = hash(b"mixin");
    assert_eq!(
        node.record(0, h, vec![test_tx()]),
        Err(Error::PohRecorderError(PohRecorderError::MaxHeightReached))
    );
    node.set_working_bank(bank, 2, 3);
    assert_eq!(
        node.record(0, h, vec![test_tx()]),
        Err(Error::PohRecorderError(PohRecorderError::MinHeightNotReached))
    );
    assert!(node.recorder.has_bank());
    drop(receiver);
    node.set_working_bank(bank, 0, 3);
    // nothing is cached, so the entry is the first thing that cannot be sent
    assert_eq!(node.record(0, h, vec![test_tx()]), Err(Error::SendError));
    assert!(node.recorder.has_bank());
}

#[test]
fn record_sends_what_was_asked() {
    let bank = Bank { slot: 7, ticks_per_slot: 4, tick_height: 0, max_tick_height: 3 };
    let (mut node, receiver) = Node::new(0, zero_hash(), 0, Some(4), 4);
    node.set_working_bank(bank, 0, 3);
    let tx = test_tx();
    let mixin = hash(b"mixin");
    let expected = solana_sdk::hash::hashv(&[zero_hash().as_ref(), mixin.as_ref()]);
    assert_eq!(node.record(7, mixin, vec![tx.clone()]), Ok(()));
    let (sent_to, entries) = receiver.try_recv().unwrap();
    assert_eq!(sent_to, bank);
    assert_eq!(entries.len(), 1);
    assert_eq!(entries[0].0.hash, expected);
    assert_eq!(entries[0].0.num_hashes, 1);
    assert_eq!(entries[0].0.transactions, vec![tx]);
    assert_eq!(entries[0].1, 0);
    assert!(receiver.try_recv().is_err());
    // an entry is not a tick of the bank
    assert!(node.registered.is_empty());
}

#[test]
fn record_ticks_when_poh_needs_it() {
    let bank = genesis_bank();
    let (mut node, receiver) = Node::new(0, zero_hash(), 0, Some(4), 4);
    node.set_working_bank(bank, 0, 3);
    node.refusals = 2;
    let tx = test_tx();
    assert_eq!(node.record(0, hash(b"mixin"), vec![tx.clone()]), Ok(()));
    assert_eq!(node.recorder.tick_height(), 2);
    assert_eq!(sent_heights(&receiver.try_recv().unwrap().1), vec![1]);
    assert_eq!(sent_heights(&receiver.try_recv().unwrap().1), vec![2]);
    let (_, entries) = receiver.try_recv().unwrap();
    assert_eq!(sent_heights(&entries), vec![2]);
    assert_eq!(entries[0].0.transactions, vec![tx]);
}

#[test]
fn record_that_ticks_to_the_end_is_refused() {
    let bank = genesis_bank();
    let (mut node, receiver) = Node::new(0, zero_hash(), 0, Some(4), 4);
    node.set_working_bank(bank, 0, 2);
    node.refusals = 5;
    assert_eq!(
        node.record(0, hash(b"mixin"), vec![test_tx()]),
        Err(Error::PohRecorderError(PohRecorderError::MaxHeightReached))
    );
    assert_eq!(node.recorder.tick_height(), 2);
    assert!(!node.recorder.has_bank());
    assert_eq!(sent_heights(&receiver.try_recv().unwrap().1), vec![1]);
    assert_eq!(sent_heights(&receiver.try_recv().unwrap().1), vec![2]);
    assert!(receiver.try_recv().is_err());
}

#[test]
fn record_without_a_slot_to_lead_counts_poh_ticks() {
    let bank = genesis_bank();
    let (mut node, receiver) = Node::new(0, zero_hash(), 0, None, 4);
    node.set_working_bank(bank, 0, 3);
    node.refusals = 1;
    assert_eq!(node.record(0, hash(b"mixin"), vec![test_tx()]), Ok(()));
    assert_eq!(node.recorder.tick_height(), 1);
    let (_, entries) = receiver.try_recv().unwrap();
    assert!(!entries[0].0.is_tick());
    assert!(receiver.try_recv().is_err());
}

#[test]
fn record_for_other_slot_flushes_first() {
    let bank = genesis_bank();
    let (mut node, receiver) = Node::new(0, zero_hash(), 0, Some(4), 4);
    node.tick();
    node.set_working_bank(bank, 1, 3);
    assert_eq!(
        node.record(9, hash(b"mixin"), vec![test_tx()]),
        Err(Error::PohRecorderError(PohRecorderError::MaxHeightReached))
    );
    assert_eq!(sent_heights(&receiver.try_recv().unwrap().1), vec![1]);
    assert!(receiver.try_recv().is_err());
    assert!(node.recorder.has_bank());
}

#[test]
fn no_tick_from_poh_changes_nothing() {
    let (mut node, _receiver) = Node::new(3, zero_hash(), 0, Some(4), 4);
    let action = node.recorder.tick(None);
    assert!(matches!(action, Action::Done(Ok(()))));
    assert_eq!(node.recorder.tick_height(), 3);
    assert!(node.recorder.tick_cache().is_empty());
}

#[test]
fn without_a_slot_to_lead_ticks_are_only_counted() {
    let (mut node, _receiver) = Node::new(0, zero_hash(), 0, None, 4);
    node.tick();
    node.tick();
    assert_eq!(node.recorder.tick_height(), 2);
    assert!(node.recorder.tick_cache().is_empty());
    assert_eq!(node.recorder.start_leader_at_tick(), None);
}

#[test]
fn late_bank_leaves_later_ticks_cached() {
    let bank = genesis_bank();
    let (mut node, receiver) = Node::new(0, zero_hash(), 0, Some(4), 4);
    for _ in 0..4 {
        node.tick();
    }
    node.set_working_bank(bank, 1, 3);
    node.tick();
    assert_eq!(sent_heights(&receiver.try_recv().unwrap().1), vec![1, 2, 3]);
    assert_eq!(node.heights(), vec![4, 5]);
    assert!(!node.recorder.has_bank());
    // a bank that takes the rest
    let next = Bank { slot: 1, ticks_per_slot: 4, tick_height: 3, max_tick_height: 7 };
    node.recorder.set_bank(&next);
    let _ = node.record(1, hash(b"mixin"), vec![test_tx()]);
    let (sent_to, entries) = receiver.try_recv().unwrap();
    assert_eq!(sent_to.slot, 1);
    assert_eq!(sent_heights(&entries), vec![4, 5]);
}

#[test]
fn bank_without_due_ticks_is_cleared() {
    let bank = genesis_bank();
    let (mut node, receiver) = Node::new(5, zero_hash(), 0, Some(4), 4);
    node.set_working_bank(bank, 1, 3);
    assert_eq!(
        node.record(0, hash(b"mixin"), vec![test_tx()]),
        Err(Error::PohRecorderError(PohRecorderError::MaxHeightReached))
    );
    assert!(!node.recorder.has_bank());
    assert!(receiver.try_recv().is_err());
    assert_eq!(node.asked, vec![(Pubkey::default(), 0)]);
}

#[test]
fn every_tick_is_sent_once_and_registered() {
    let bank = genesis_bank();
    let (mut node, receiver) = Node::new(0, zero_hash(), 0, Some(4), 4);
    node.next_leader_slot = Some(1);
    node.tick();
    node.set_working_bank(bank, 1, 3);
    node.tick();
    node.tick();
    assert!(!node.recorder.has_bank());
    node.tick();
    node.recorder.set_bank(&Bank {
        slot: 1,
        ticks_per_slot: 4,
        tick_height: 3,
        max_tick_height: 7,
    });
    for _ in 0..3 {
        node.tick();
    }
    let mut heights: Vec<u64> = vec![];
    let mut hashes: Vec<solana_sdk::hash::Hash> = vec![];
    while let Ok((_, entries)) = receiver.try_recv() {
        heights.extend(sent_heights(&entries));
        hashes.extend(entries.iter().map(|e| e.0.hash));
    }
    assert_eq!(heights, vec![1, 2, 3, 4, 5, 6, 7]);
    assert!(node.heights().is_empty());
    let registered: Vec<solana_sdk::hash::Hash> = node.registered.iter().map(|r| r.1).collect();
    assert_eq!(registered, hashes);
    let slots: Vec<Slot> = node.registered.iter().map(|r| r.0).collect();
    assert_eq!(slots, vec![0, 0, 0, 1, 1, 1, 1]);
}

#[test]
fn ledger_heights_never_fall() {
    let bank = genesis_bank_with(8);
    let (mut node, receiver) = Node::new(0, zero_hash(), 0, Some(4), 8);
    node.set_working_bank(bank, 0, 7);
    node.tick();
    assert_eq!(node.record(0, hash(b"a"), vec![test_tx()]), Ok(()));
    node.tick();
    node.tick();
    assert_eq!(node.record(0, hash(b"b"), vec![test_tx()]), Ok(()));
    node.refusals = 1;
    assert_eq!(node.record(0, hash(b"c"), vec![test_tx()]), Ok(()));
    let mut ledger: Vec<(bool, u64)> = vec![];
    while let Ok((_, entries)) = receiver.try_recv() {
        ledger.extend(entries.iter().map(|e| (e.0.is_tick(), e.1)));
    }
    assert_eq!(
        ledger,
        vec![(true, 1), (false, 1), (true, 2), (true, 3), (false, 3), (true, 4), (false, 4)]
    );
}

#[test]
fn complete_bank_moves_the_start() {
    let bank = genesis_bank();
    let (mut node, _receiver) = Node::new(0, zero_hash(), 0, Some(4), 4);
    node.next_leader_slot = Some(1);
    node.set_working_bank(bank, 0, 3);
    for _ in 0..3 {
        node.tick();
    }
    assert_eq!(node.recorder.start_slot(), 0);
    assert_eq!(node.recorder.start_tick(), 4);
    // slot 1 starts at tick 4, after two grace ticks
    assert_eq!(node.recorder.start_leader_at_tick(), Some(6));
    // it follows at once, so it can be led at once
    assert_eq!(node.recorder.reached_leader_tick(), (true, 0, 1, 0));
    assert_eq!(node.asked, vec![(Pubkey::default(), 0)]);
}

#[test]
fn clearing_without_a_bank_asks_nothing() {
    let (mut node, _receiver) = Node::new(0, zero_hash(), 0, Some(4), 4);
    node.next_leader_slot = Some(9);
    assert!(matches!(node.recorder.clear_bank(), Action::Done(Ok(()))));
    assert_eq!(node.recorder.start_leader_at_tick(), Some(18));
}

#[test]
fn clearing_takes_the_next_slot_to_lead() {
    let bank = genesis_bank();
    let (mut node, _receiver) = Node::new(0, zero_hash(), 0, Some(4), 4);
    node.next_leader_slot = Some(9);
    node.recorder.set_bank(&bank);
    assert_eq!(node.recorder.bank(), Some(bank));
    node.clear_bank();
    assert_eq!(node.recorder.bank(), None);
    assert_eq!(node.recorder.start_leader_at_tick(), Some(38));
}

#[test]
fn signal_without_a_bank() {
    let (sender, receiver) = sync_channel(2);
    let (mut node, _receiver) =
        Node::new_with_clear_signal(0, zero_hash(), 0, Some(4), 4, Some(sender));
    node.next_leader_slot = Some(9);
    node.clear_bank();
    assert!(receiver.try_recv().is_ok());
    assert!(receiver.try_recv().is_err());
    assert!(node.asked.is_empty());
    // there was no bank, so the slot to lead stays
    assert_eq!(node.recorder.start_leader_at_tick(), Some(18));
}

#[test]
fn disconnect_at_the_end_signals_twice() {
    let bank = genesis_bank();
    let (sender, signals) = sync_channel(5);
    let (mut node, receiver) =
        Node::new_with_clear_signal(0, zero_hash(), 0, Some(4), 4, Some(sender));
    node.next_leader_slot = Some(6);
    node.set_working_bank(bank, 0, 1);
    drop(receiver);
    node.tick();
    assert!(signals.try_recv().is_ok());
    assert!(signals.try_recv().is_ok());
    assert!(signals.try_recv().is_err());
    assert_eq!(node.asked.len(), 1);
    assert_eq!(node.heights(), vec![1]);
    assert_eq!(node.recorder.start_leader_at_tick(), Some(26));
}

#[test]
fn disconnect_within_the_range_signals_once() {
    let bank = genesis_bank();
    let (sender, signals) = sync_channel(5);
    let (mut node, receiver) =
        Node::new_with_clear_signal(0, zero_hash(), 0, Some(4), 4, Some(sender));
    node.tick();
    node.set_working_bank(bank, 0, 3);
    drop(receiver);
    assert_eq!(
        node.record(0, hash(b"mixin"), vec![test_tx()]),
        Err(Error::PohRecorderError(PohRecorderError::MaxHeightReached))
    );
    assert!(signals.try_recv().is_ok());
    assert!(signals.try_recv().is_err());
    assert!(!node.recorder.has_bank());
    assert_eq!(node.heights(), vec![1]);
    assert_eq!(node.recorder.start_slot(), 0);
    assert_eq!(node.recorder.start_tick(), 1);
}

#[test]
fn reset_makes_a_recorder_new() {
    let bank = genesis_bank();
    let (mut node, _receiver) = Node::new(0, zero_hash(), 0, Some(4), 4);
    node.tick();
    node.set_working_bank(bank, 5, 6);
    node.next_leader_slot = Some(50);
    node.reset(hash(b"hello"), 6, Some(9));
    let (other, _) = Node::new(27, zero_hash(), 6, Some(9), 4);
    assert_eq!(node.recorder.tick_height(), 27);
    assert_eq!(node.recorder.tick_height(), other.recorder.tick_height());
    assert_eq!(node.recorder.start_slot(), other.recorder.start_slot());
    assert_eq!(node.recorder.start_tick(), other.recorder.start_tick());
    assert_eq!(node.recorder.start_leader_at_tick(), other.recorder.start_leader_at_tick());
    assert_eq!(node.recorder.bank(), None);
    assert!(node.recorder.tick_cache().is_empty());
    assert_eq!(node.resets, vec![PohStart { hash: hash(b"hello"), hashes_per_tick: None }]);
}

#[test]
fn poh_configuration_is_passed_on() {
    let (mut recorder, start) = PohRecorder::new(
        0,
        hash(b"last"),
        0,
        None,
        4,
        &Pubkey::default(),
        &PohConfig { hashes_per_tick: Some(12) },
    );
    assert_eq!(start, PohStart { hash: hash(b"last"), hashes_per_tick: Some(12) });
    match recorder.reset(hash(b"next"), 2, None) {
        Action::ResetPoh(start) => {
            assert_eq!(start, PohStart { hash: hash(b"next"), hashes_per_tick: Some(12) });
        }
        other => panic!("{:?}", other),
    }
}

#[test]
fn slots_of_leaders_that_are_asked_for() {
    let (node, _receiver) = Node::new(27, zero_hash(), 6, None, 4);
    assert_eq!(node.recorder.leader_after_slots(0), 6);
    assert_eq!(node.recorder.leader_after_slots(5), 11);
    assert_eq!(node.recorder.next_slot_leader(), 7);
    assert_eq!(node.recorder.ticks_per_slot(), 4);
}

#[test]
fn leader_window_has_exact_ends() {
    // slot 3 has ticks 12 to 15
    let (mut node, _receiver) = Node::new(9, zero_hash(), 1, Some(3), 4);
    assert!(!node.recorder.would_be_leader(2));
    assert!(node.recorder.would_be_leader(3));
    assert!(node.recorder.would_be_leader(4));
    for _ in 0..6 {
        node.tick();
    }
    assert_eq!(node.recorder.tick_height(), 15);
    assert!(node.recorder.would_be_leader(0));
    node.tick();
    assert!(!node.recorder.would_be_leader(0));
    assert!(!node.recorder.would_be_leader(100));
}

#[test]
fn leader_tick_comes_after_the_grace_ticks() {
    // slot 3 starts at tick 12, the leader tick is 14
    let (mut node, _receiver) = Node::new(10, zero_hash(), 1, Some(3), 4);
    assert_eq!(node.recorder.reached_leader_tick(), (false, 0, 2, 1));
    node.tick();
    assert_eq!(node.recorder.reached_leader_tick(), (false, 0, 3, 1));
    node.tick();
    assert_eq!(node.recorder.reached_leader_tick(), (false, 0, 3, 1));
    node.tick();
    assert_eq!(node.recorder.reached_leader_tick(), (true, 2, 3, 1));
    node.tick();
    assert_eq!(node.recorder.reached_leader_tick(), (true, 3, 3, 1));
    assert!(node.recorder.would_be_leader(1));
}

#[test]
fn recorder_without_ticks_per_slot() {
    let (mut recorder, _) = PohRecorder::new(
        0,
        zero_hash(),
        0,
        None,
        0,
        &Pubkey::default(),
        &PohConfig { hashes_per_tick: None },
    );
    let action = recorder.tick(Some(PohEntry { num_hashes: 1, hash: zero_hash() }));
    assert!(matches!(action, Action::Done(Ok(()))));
    assert_eq!(recorder.tick_height(), 1);
    assert!(!recorder.would_be_leader(10));
}

#[test]
fn range_without_end_keeps_its_bank() {
    let bank = genesis_bank();
    let (mut node, receiver) = Node::new(u64::MAX - 2, zero_hash(), 0, Some(4), 4);
    node.set_working_bank(bank, 0, u64::MAX);
    node.tick();
    assert_eq!(node.recorder.tick_height(), u64::MAX - 1);
    assert!(node.recorder.has_bank());
    assert_eq!(sent_heights(&receiver.try_recv().unwrap().1), vec![u64::MAX - 1]);
}

#[test]
fn record_asks_for_one_thing_after_another() {
    let (mut node, _receiver) = Node::new(0, zero_hash(), 0, Some(4), 4);
    node.tick();
    node.set_working_bank(genesis_bank(), 1, 3);
    let tx = test_tx();
    let poh_entry = PohEntry { num_hashes: 7, hash: hash(b"poh") };
    let recorder = &mut node.recorder;
    match recorder.record(0, hash(b"mixin"), vec![tx.clone()]) {
        Action::Flush { bank, entries } => {
            assert_eq!(bank, genesis_bank());
            assert_eq!(sent_heights(&entries), vec![1]);
        }
        other => panic!("{:?}", other),
    }
    match recorder.flushed(true) {
        Action::RecordPoh { mixin } => assert_eq!(mixin, hash(b"mixin")),
        other => panic!("{:?}", other),
    }
    assert!(matches!(recorder.poh_recorded(None), Action::TickPoh));
    match recorder.poh_ticked(Some(poh_entry)) {
        Action::Flush { entries, .. } => {
            assert_eq!(sent_heights(&entries), vec![2]);
            assert_eq!(entries[0].0.num_hashes, 7);
            assert_eq!(entries[0].0.hash, hash(b"poh"));
            assert!(entries[0].0.is_tick());
        }
        other => panic!("{:?}", other),
    }
    // what was asked is still known after the tick
    match recorder.flushed(true) {
        Action::RecordPoh { mixin } => assert_eq!(mixin, hash(b"mixin")),
        other => panic!("{:?}", other),
    }
    match recorder.poh_recorded(Some(poh_entry)) {
        Action::Send { bank, entries } => {
            assert_eq!(bank, genesis_bank());
            assert_eq!(sent_heights(&entries), vec![2]);
            assert_eq!(entries[0].0.transactions, vec![tx]);
        }
        other => panic!("{:?}", other),
    }
    assert!(matches!(recorder.entry_sent(true), Action::Done(Ok(()))));
}

#[test]
fn poh_that_does_not_tick_is_asked_again() {
    let (mut node, _receiver) = Node::new(0, zero_hash(), 0, Some(4), 4);
    node.set_working_bank(genesis_bank(), 0, 3);
    let recorder = &mut node.recorder;
    let action = recorder.record(0, hash(b"mixin"), vec![test_tx()]);
    assert!(matches!(action, Action::RecordPoh { .. }));
    assert!(matches!(recorder.poh_recorded(None), Action::TickPoh));
    assert!(matches!(recorder.poh_ticked(None), Action::RecordPoh { .. }));
    assert_eq!(recorder.tick_height(), 0);
}

#[test]
fn setup_outlives_banks_and_resets() {
    let id = Keypair::new().pubkey();
    let (mut recorder, _) = PohRecorder::new(
        0,
        zero_hash(),
        0,
        Some(4),
        4,
        &id,
        &PohConfig { hashes_per_tick: Some(3) },
    );
    recorder.set_bank(&genesis_bank());
    match recorder.reset(hash(b"one"), 2, Some(5)) {
        Action::ClearBank { id: asked, given_up, signal } => {
            assert_eq!(asked, id);
            assert_eq!(given_up, Some(genesis_bank()));
            assert!(!signal);
        }
        other => panic!("{:?}", other),
    }
    match recorder.bank_cleared(Some(8)) {
        Action::ResetPoh(start) => assert_eq!(start.hashes_per_tick, Some(3)),
        other => panic!("{:?}", other),
    }
    assert_eq!(recorder.ticks_per_slot(), 4);
    // the slot that was asked for in the reset counts
    assert_eq!(recorder.start_leader_at_tick(), Some(22));
}

#[test]
fn recorder_stays_in_step() {
    let (mut node, _receiver) = Node::new(0, zero_hash(), 0, Some(4), 4);
    node.next_leader_slot = Some(1);
    node.set_working_bank(genesis_bank(), 0, 3);
    for _ in 0..6 {
        node.tick();
        assert!(node.recorder.tick_height() + 1 >= node.recorder.start_tick());
    }
    node.reset(hash(b"next"), 5, Some(6));
    assert_eq!(node.recorder.tick_height() + 1, node.recorder.start_tick());
    // the leader tick was reached by the reset, and stays reached
    assert!(node.recorder.reached_leader_tick().0);
    node.tick();
    assert!(node.recorder.reached_leader_tick().0);
}

#[test]
fn refused_flush_needs_no_next_slot() {
    let full = Bank {
        slot: u64::MAX / 4,
        ticks_per_slot: 4,
        tick_height: u64::MAX - 1,
        max_tick_height: u64::MAX - 1,
    };
    let (mut node, receiver) = Node::new(u64::MAX - 2, zero_hash(), 0, Some(4), 4);
    node.recorder.set_bank(&full);
    assert_eq!(
        node.record(full.slot, hash(b"mixin"), vec![test_tx()]),
        Err(Error::PohRecorderError(PohRecorderError::MinHeightNotReached))
    );
    node.tick();
    assert_eq!(node.recorder.tick_height(), u64::MAX - 1);
    assert_eq!(node.recorder.bank(), Some(full));
    assert!(receiver.try_recv().is_err());
}
