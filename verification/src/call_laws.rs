//! What each call does to every part of a recorder, and what it asks for.
use crate::action::ActionModel;
use crate::preservation::{lemma_cut, lemma_with_tick_inv};
use crate::state::{Flusher, RecorderState, RequestModel, Stage};
use crate::types::{EntryModel, Error, PohEntry, PohRecorderError, PohStart, WorkingBank};
use vstd::prelude::*;

verus! {

/// Where the cache is cut for the working bank: the ticks that are due come first.
proof fn lemma_due(s: RecorderState) -> (n: int)
    requires
        s.cache_ordered(),
    ensures
        0 <= n <= s.tick_cache.len(),
        s.due_ticks() == s.tick_cache.take(n),
        s.due_ticks().len() == n,
        n > 0 <==> s.tick_cache.len() > 0 && s.tick_cache[0].1
            <= s.working_bank->0.max_tick_height,
        n == 0 ==> s.flush_sent(Flusher::Tick, true).0.tick_cache == s.tick_cache,
        n == 0 ==> s.flush_sent(Flusher::Record, true).0.tick_cache == s.tick_cache,
        forall|i: int|
            0 <= i < n ==> (#[trigger] s.tick_cache[i]).1 <= s.working_bank->0.max_tick_height,
        forall|i: int|
            n <= i < s.tick_cache.len() ==> (#[trigger] s.tick_cache[i]).1
                > s.working_bank->0.max_tick_height,
{
    let n = lemma_cut(s.tick_cache, s.working_bank->0.max_tick_height);
    assert(s.tick_cache.skip(0) =~= s.tick_cache);
    n
}

/// With a tick the height goes up by one, and the tick goes to the end of the cache, as an entry
/// without transactions, while a slot to lead is known. The slot to lead, the working bank with
/// its range and the setup stay as they are. So does the slot that the recorder goes on from,
/// unless the bank's range was over before this tick and nothing is left to send for it.
pub proof fn law_tick_counts_and_caches(s: RecorderState, poh_entry: PohEntry)
    requires
        s.inv(),
        s.stage is Idle,
        s.tick_height < u64::MAX,
    ensures
        ({
            let t = s.tick(Some(poh_entry)).0;
            let w = s.working_bank->0;
            let nothing_left = {
                &&& s.start_leader_at_tick is Some
                &&& s.working_bank is Some
                &&& w.min_tick_height <= s.tick_height
                &&& w.max_tick_height <= s.tick_height
                &&& s.tick_cache.len() > 0 ==> s.tick_cache[0].1 > w.max_tick_height
            };
            &&& t.tick_height == s.tick_height + 1
            &&& s.start_leader_at_tick is None ==> t.tick_cache == s.tick_cache
            &&& s.start_leader_at_tick is Some ==> {
                &&& t.tick_cache.len() == s.tick_cache.len() + 1
                &&& t.tick_cache.drop_last() == s.tick_cache
                &&& t.tick_cache.last().0 == (EntryModel {
                    num_hashes: poh_entry.num_hashes,
                    hash: poh_entry.hash,
                    transactions: Seq::empty(),
                })
                &&& t.tick_cache.last().1 == s.tick_height + 1
            }
            &&& t.start_leader_at_tick == s.start_leader_at_tick
            &&& t.last_leader_tick == s.last_leader_tick
            &&& t.working_bank == s.working_bank
            &&& nothing_left ==> t.start_slot == w.max_tick_height as nat / s.ticks_per_slot
            &&& nothing_left ==> t.start_tick == (w.max_tick_height as nat / s.ticks_per_slot + 1)
                * s.ticks_per_slot
            &&& !nothing_left ==> t.start_slot == s.start_slot && t.start_tick == s.start_tick
            &&& t.request is None
            &&& t.id == s.id
            &&& t.ticks_per_slot == s.ticks_per_slot
            &&& t.grace_ticks == s.grace_ticks
            &&& t.hashes_per_tick == s.hashes_per_tick
            &&& t.clear_bank_signal == s.clear_bank_signal
        }),
{
    let ticked = s.with_tick(poh_entry);
    lemma_with_tick_inv(s, poh_entry);
    let n = lemma_due(ticked);
    assert(s.tick_cache.push(ticked.tick_cache.last()).drop_last() =~= s.tick_cache);
    if s.tick_cache.len() > 0 {
        assert(ticked.start_leader_at_tick is Some ==> ticked.tick_cache[0] == s.tick_cache[0]);
    }
}

/// A tick is answered with a flush when a slot to lead is known, the tick is past the start of
/// the bank's range, and a tick of that range is cached. The flush is for that bank and holds
/// the cached ticks up to the end of the range, this one included, and no later ones. When the
/// range is over and no tick of it is cached, the bank is given up. Otherwise the tick is done.
pub proof fn law_tick_asks(s: RecorderState, poh_entry: PohEntry)
    requires
        s.inv(),
        s.stage is Idle,
        s.tick_height < u64::MAX,
    ensures
        ({
            let (t, action) = s.tick(Some(poh_entry));
            let w = s.working_bank->0;
            let begun = {
                &&& s.start_leader_at_tick is Some
                &&& s.working_bank is Some
                &&& w.min_tick_height < s.tick_height + 1
            };
            let due = t.tick_cache.len() > 0 && t.tick_cache[0].1 <= w.max_tick_height;
            &&& begun && due ==> {
                &&& t.stage == (Stage::Flushing { by: Flusher::Tick })
                &&& action matches ActionModel::Flush { bank, entries }
                &&& bank == w.bank
                &&& 0 < entries.len() <= t.tick_cache.len()
                &&& entries == t.tick_cache.take(entries.len() as int)
                &&& forall|i: int|
                    0 <= i < t.tick_cache.len() ==> (i < entries.len() <==> (
                    #[trigger] t.tick_cache[i]).1 <= w.max_tick_height)
            }
            &&& begun && !due ==> {
                &&& t.stage == (Stage::FlushClearing { by: Flusher::Tick, again: false })
                &&& action == (ActionModel::ClearBank {
                    id: s.id,
                    given_up: Some(w.bank),
                    signal: s.clear_bank_signal,
                })
            }
            &&& !begun ==> t.stage is Idle && action == ActionModel::Done(Ok(()))
        }),
{
    let ticked = s.with_tick(poh_entry);
    lemma_with_tick_inv(s, poh_entry);
    let n = lemma_due(ticked);
    if s.start_leader_at_tick is Some && s.working_bank is Some && n == 0 {
        assert(ticked.tick_cache.last().1 > s.working_bank->0.max_tick_height);
    }
}

/// When PoH has no tick to give, a tick does nothing.
pub proof fn law_missing_tick(s: RecorderState)
    requires
        s.inv(),
        s.stage is Idle,
    ensures
        s.tick(None).0 == s,
        s.tick(None).1 == ActionModel::Done(Ok(())),
{
}

/// PoH that ticks in the course of a record counts as any other tick: the height goes up by
/// one, the slot to lead, the bank with its range and the request stay. The tick is flushed to
/// the bank at once, by itself, while a slot to lead is known. Otherwise PoH is asked again, or
/// the bank is given up when the tick ends its range.
pub proof fn law_tick_within_record(s: RecorderState, poh_entry: PohEntry)
    requires
        s.inv(),
        s.stage is TickingPoh,
    ensures
        ({
            let (t, action) = s.poh_ticked(Some(poh_entry));
            let w = s.working_bank->0;
            let entry = (
                EntryModel {
                    num_hashes: poh_entry.num_hashes,
                    hash: poh_entry.hash,
                    transactions: Seq::empty(),
                },
                (s.tick_height + 1) as u64,
            );
            let ends = s.start_leader_at_tick is None && s.tick_height + 1 == w.max_tick_height;
            &&& s.working_bank is Some
            &&& s.request is Some
            &&& s.tick_cache.len() == 0
            &&& s.tick_height < w.max_tick_height
            &&& t.tick_height == s.tick_height + 1
            &&& s.start_leader_at_tick is Some ==> {
                &&& t.tick_cache == seq![entry]
                &&& t.stage == (Stage::Flushing { by: Flusher::RecordTick })
                &&& action == (ActionModel::Flush { bank: w.bank, entries: seq![entry] })
            }
            &&& s.start_leader_at_tick is None ==> t.tick_cache.len() == 0
            &&& s.start_leader_at_tick is None && !ends ==> {
                &&& t.stage is RecordingPoh
                &&& action == (ActionModel::RecordPoh { mixin: s.request->0.mixin })
            }
            &&& ends ==> {
                &&& t.stage == (Stage::FlushClearing { by: Flusher::Record, again: false })
                &&& action == (ActionModel::ClearBank {
                    id: s.id,
                    given_up: Some(w.bank),
                    signal: s.clear_bank_signal,
                })
                &&& t.start_slot == w.max_tick_height as nat / s.ticks_per_slot
                &&& t.start_tick == (w.max_tick_height as nat / s.ticks_per_slot + 1)
                    * s.ticks_per_slot
            }
            &&& !ends ==> t.start_slot == s.start_slot && t.start_tick == s.start_tick
            &&& t.request == s.request
            &&& t.start_leader_at_tick == s.start_leader_at_tick
            &&& t.last_leader_tick == s.last_leader_tick
            &&& t.working_bank == s.working_bank
            &&& t.id == s.id
            &&& t.ticks_per_slot == s.ticks_per_slot
            &&& t.grace_ticks == s.grace_ticks
            &&& t.hashes_per_tick == s.hashes_per_tick
            &&& t.clear_bank_signal == s.clear_bank_signal
        }),
{
    let ticked = s.with_tick(poh_entry);
    assert(s.tick_cache =~= Seq::empty());
    lemma_with_tick_inv(s, poh_entry);
    let n = lemma_due(ticked);
    assert(ticked.tick_cache.take(n) =~= ticked.tick_cache);
}

/// PoH that has no tick to give in the course of a record is asked to record again.
pub proof fn law_missing_tick_within_record(s: RecorderState)
    requires
        s.inv(),
        s.stage is TickingPoh,
    ensures
        s.request is Some,
        s.poh_ticked(None).0 == (RecorderState { stage: Stage::RecordingPoh, ..s }),
        s.poh_ticked(None).1 == (ActionModel::RecordPoh { mixin: s.request->0.mixin }),
{
    let n = lemma_due(s);
    assert(s.tick_cache =~= Seq::empty());
}

/// Ticks that were sent leave the cache, and they are the ticks up to the end of the bank's
/// range; ticks that could not be sent all stay. The height, the slot to lead, the bank with its
/// range and the setup stay as they are. When the range is complete the recorder goes on from
/// the slot of its last tick.
pub proof fn law_flush_commits(s: RecorderState, sent: bool)
    requires
        s.inv(),
        s.stage is Flushing,
    ensures
        ({
            let t = s.flushed(sent).0;
            let w = s.working_bank->0;
            let complete = s.tick_height >= w.max_tick_height;
            let gone = s.tick_cache.len() - t.tick_cache.len();
            &&& s.working_bank is Some
            &&& !sent ==> t.tick_cache == s.tick_cache
            &&& sent ==> {
                &&& 0 < gone
                &&& t.tick_cache == s.tick_cache.skip(gone)
                &&& forall|i: int|
                    0 <= i < s.tick_cache.len() ==> (i < gone <==> (#[trigger] s.tick_cache[i]).1
                        <= w.max_tick_height)
            }
            &&& sent && !complete ==> t.tick_cache.len() == 0
            &&& complete ==> t.start_slot == w.max_tick_height as nat / s.ticks_per_slot
            &&& complete ==> t.start_tick == (w.max_tick_height as nat / s.ticks_per_slot + 1)
                * s.ticks_per_slot
            &&& !complete ==> t.start_slot == s.start_slot && t.start_tick == s.start_tick
            &&& t.tick_height == s.tick_height
            &&& t.start_leader_at_tick == s.start_leader_at_tick
            &&& t.last_leader_tick == s.last_leader_tick
            &&& t.working_bank == s.working_bank
            &&& t.id == s.id
            &&& t.ticks_per_slot == s.ticks_per_slot
            &&& t.grace_ticks == s.grace_ticks
            &&& t.hashes_per_tick == s.hashes_per_tick
            &&& t.clear_bank_signal == s.clear_bank_signal
        }),
{
    let by = s.stage->Flushing_by;
    let n = lemma_due(s);
    let m = lemma_cut(s.tick_cache, s.working_bank->0.max_tick_height);
    assert(s.tick_cache.take(m).len() == m);
    let u = s.flush_sent(by, sent).0;
    if sent && s.tick_height < s.working_bank->0.max_tick_height {
        assert(n == s.tick_cache.len()) by {
            if n < s.tick_cache.len() {
                assert(s.tick_cache[n].1 > s.working_bank->0.max_tick_height);
            }
        }
        assert(u.tick_cache =~= Seq::empty());
        let k = lemma_due(u);
    }
}

/// What comes after a flush. A complete bank is given up, and so is the bank of ticks that could
/// not be sent; a bank to which both apply is to be signalled once more. Otherwise a tick is
/// done, and a record asks PoH if it is for the slot of the bank and is refused if it is not.
pub proof fn law_flush_goes_on(s: RecorderState, sent: bool)
    requires
        s.inv(),
        s.stage is Flushing,
    ensures
        ({
            let (t, action) = s.flushed(sent);
            let w = s.working_bank->0;
            let by = s.stage->Flushing_by;
            let complete = s.tick_height >= w.max_tick_height;
            &&& by is Tick <==> s.request is None
            &&& complete || !sent ==> {
                &&& t.stage == (Stage::FlushClearing { by, again: complete && !sent })
                &&& t.request == s.request
                &&& action == (ActionModel::ClearBank {
                    id: s.id,
                    given_up: Some(w.bank),
                    signal: s.clear_bank_signal,
                })
            }
            &&& !complete && sent && by is Tick ==> {
                &&& t.stage is Idle
                &&& t.request is None
                &&& action == ActionModel::Done(Ok(()))
            }
            &&& !complete && sent && !(by is Tick) && s.request->0.bank_slot == w.bank.slot ==> {
                &&& t.stage is RecordingPoh
                &&& t.request == s.request
                &&& action == (ActionModel::RecordPoh { mixin: s.request->0.mixin })
            }
            &&& !complete && sent && !(by is Tick) && s.request->0.bank_slot != w.bank.slot ==> {
                &&& t.stage is Idle
                &&& t.request is None
                &&& action == ActionModel::Done(
                    Err(Error::PohRecorderError(PohRecorderError::MaxHeightReached)),
                )
            }
        }),
{
    let by = s.stage->Flushing_by;
    let n = lemma_due(s);
    let m = lemma_cut(s.tick_cache, s.working_bank->0.max_tick_height);
    assert(s.tick_cache.take(m).len() == m);
    let u = s.flush_sent(by, sent).0;
    if sent && s.tick_height < s.working_bank->0.max_tick_height {
        assert(n == s.tick_cache.len()) by {
            if n < s.tick_cache.len() {
                assert(s.tick_cache[n].1 > s.working_bank->0.max_tick_height);
            }
        }
        assert(u.tick_cache =~= Seq::empty());
        let k = lemma_due(u);
    }
}

/// Whenever a bank is given up, other than for a reset, the recorder takes over the leader ticks
/// of whatever slot the schedule answers: from the grace ticks after the slot's first tick to its
/// last tick, or none at all. Without a bank the answer is of no account. Height, cache and the
/// slot that the recorder goes on from stay as they are.
pub proof fn law_clearing_takes_the_answer(s: RecorderState, next_leader_slot: Option<u64>)
    requires
        s.inv(),
        s.stage is Clearing || s.stage is FlushClearing,
        next_leader_slot is Some ==> s.ticks_per_slot > 0,
    ensures
        ({
            let t = s.bank_cleared(next_leader_slot).0;
            &&& t.working_bank is None
            &&& s.working_bank is Some && next_leader_slot is None ==> {
                &&& t.start_leader_at_tick is None
                &&& t.last_leader_tick == 0
            }
            &&& s.working_bank is Some ==> (next_leader_slot matches Some(slot) ==> {
                &&& t.start_leader_at_tick == Some(
                    (slot as nat * s.ticks_per_slot + s.grace_ticks) as nat,
                )
                &&& t.last_leader_tick == (slot + 1) * s.ticks_per_slot - 1
            })
            &&& s.working_bank is None ==> {
                &&& t.start_leader_at_tick == s.start_leader_at_tick
                &&& t.last_leader_tick == s.last_leader_tick
            }
            &&& t.tick_height == s.tick_height
            &&& t.tick_cache == s.tick_cache
            &&& t.start_slot == s.start_slot
            &&& t.start_tick == s.start_tick
            &&& t.id == s.id
            &&& t.ticks_per_slot == s.ticks_per_slot
            &&& t.grace_ticks == s.grace_ticks
            &&& t.hashes_per_tick == s.hashes_per_tick
            &&& t.clear_bank_signal == s.clear_bank_signal
        }),
{
    if let Some(slot) = next_leader_slot {
        assert((slot + 1) * s.ticks_per_slot >= 1) by (nonlinear_arith)
            requires
                s.ticks_per_slot > 0,
        ;
    }
}

/// What comes after the bank was cleared, other than for a reset. A bank that has to be
/// signalled a second time is, if there is a signal. Otherwise the operation ends: well if it was
/// a tick or asked for the clearing only, and with a refusal if it was a record.
pub proof fn law_clearing_goes_on(s: RecorderState, next_leader_slot: Option<u64>)
    requires
        s.inv(),
        s.stage is Clearing || s.stage is FlushClearing,
    ensures
        ({
            let (t, action) = s.bank_cleared(next_leader_slot);
            let again = s.stage is FlushClearing && s.stage->again && s.clear_bank_signal;
            &&& s.stage is Clearing ==> s.request is None
            &&& s.stage is FlushClearing ==> (s.stage->FlushClearing_by is Tick <==> s.request
                is None)
            &&& again ==> {
                &&& t.stage == (Stage::FlushClearing {
                    by: s.stage->FlushClearing_by,
                    again: false,
                })
                &&& t.request == s.request
                &&& action == (ActionModel::ClearBank { id: s.id, given_up: None, signal: true })
            }
            &&& !again ==> t.stage is Idle && t.request is None
            &&& !again && s.request is None ==> action == ActionModel::Done(Ok(()))
            &&& !again && s.request is Some ==> action == ActionModel::Done(
                Err(Error::PohRecorderError(PohRecorderError::MaxHeightReached)),
            )
        }),
{
}

/// Clearing a bank asks the schedule about it and signals, and changes nothing before the answer
/// has come; without a bank and without a signal there is nothing to ask and nothing to change.
pub proof fn law_clear_asks_first(s: RecorderState)
    requires
        s.inv(),
        s.stage is Idle,
    ensures
        ({
            let (t, action) = s.clear_bank();
            &&& s.working_bank is Some || s.clear_bank_signal ==> {
                &&& t == (RecorderState { stage: Stage::Clearing, ..s })
                &&& action is ClearBank
                &&& action->id == s.id
                &&& action->signal == s.clear_bank_signal
                &&& s.working_bank is None ==> action->given_up is None
                &&& s.working_bank matches Some(w) ==> action->given_up == Some(w.bank)
            }
            &&& s.working_bank is None && !s.clear_bank_signal ==> {
                &&& t == s
                &&& action == ActionModel::Done(Ok(()))
            }
        }),
{
}

/// A reset with a bank or a signal first clears the bank, and keeps in mind what it was asked
/// for; nothing else changes before the answer has come.
pub proof fn law_reset_asks_first(
    s: RecorderState,
    blockhash: solana_sdk::hash::Hash,
    start_slot: u64,
    next_leader_slot: Option<u64>,
)
    requires
        s.inv(),
        s.stage is Idle,
    ensures
        ({
            let (t, action) = s.reset(blockhash, start_slot, next_leader_slot);
            s.working_bank is Some || s.clear_bank_signal ==> {
                &&& t == (RecorderState {
                    stage: Stage::Resetting { blockhash, start_slot, next_leader_slot },
                    ..s
                })
                &&& action is ClearBank
                &&& action->id == s.id
                &&& action->signal == s.clear_bank_signal
                &&& s.working_bank is None ==> action->given_up is None
                &&& s.working_bank matches Some(w) ==> action->given_up == Some(w.bank)
            }
        }),
{
}

/// A reset that has ended leaves the recorder with the parent slot that it was asked for, at the
/// last tick of that slot, with the first tick of the following slot as the first to observe,
/// with the leader ticks of the slot that it was asked to lead, with no bank and no cached ticks.
/// PoH starts over from the hash that was given. The setup stays, and neither what the recorder
/// was before nor what the schedule answered makes a difference.
pub proof fn law_reset_ends(
    s: RecorderState,
    blockhash: solana_sdk::hash::Hash,
    start_slot: u64,
    next_leader_slot: Option<u64>,
    found: Option<u64>,
)
    requires
        s.inv(),
        s.stage is Idle,
        s.ticks_per_slot > 0,
    ensures
        ({
            let (s1, a1) = s.reset(blockhash, start_slot, next_leader_slot);
            let (t, action) = if s.working_bank is Some || s.clear_bank_signal {
                s1.bank_cleared(found)
            } else {
                (s1, a1)
            };
            &&& t.start_slot == start_slot
            &&& t.start_tick == (start_slot + 1) * s.ticks_per_slot
            &&& t.tick_height == (start_slot + 1) * s.ticks_per_slot - 1
            &&& t.tick_cache.len() == 0
            &&& t.working_bank is None
            &&& next_leader_slot is None ==> {
                &&& t.start_leader_at_tick is None
                &&& t.last_leader_tick == 0
            }
            &&& next_leader_slot matches Some(slot) ==> {
                &&& t.start_leader_at_tick == Some(
                    (slot as nat * s.ticks_per_slot + s.grace_ticks) as nat,
                )
                &&& t.last_leader_tick == (slot + 1) * s.ticks_per_slot - 1
            }
            &&& t.stage is Idle
            &&& t.request is None
            &&& t.id == s.id
            &&& t.ticks_per_slot == s.ticks_per_slot
            &&& t.grace_ticks == s.grace_ticks
            &&& t.hashes_per_tick == s.hashes_per_tick
            &&& t.clear_bank_signal == s.clear_bank_signal
            &&& action == ActionModel::ResetPoh(
                PohStart { hash: blockhash, hashes_per_tick: s.hashes_per_tick },
            )
        }),
{
    assert((start_slot + 1) * s.ticks_per_slot >= 1) by (nonlinear_arith)
        requires
            s.ticks_per_slot > 0,
    ;
    if let Some(slot) = next_leader_slot {
        assert((slot + 1) * s.ticks_per_slot >= 1) by (nonlinear_arith)
            requires
                s.ticks_per_slot > 0,
        ;
    }
}

/// A new recorder has the parent slot and the height that it was made with, whatever they are,
/// and the leader ticks of the slot that it was asked to lead. Half a slot is grace. It observes
/// the tick after its height first, with no bank, no cached ticks and nothing under way.
pub proof fn law_new_recorder(
    tick_height: nat,
    start_slot: nat,
    next_leader_slot: Option<nat>,
    ticks_per_slot: nat,
    id: solana_sdk::pubkey::Pubkey,
    clear_bank_signal: bool,
    hashes_per_tick: Option<u64>,
)
    requires
        next_leader_slot is Some ==> ticks_per_slot > 0,
    ensures
        ({
            let s = RecorderState::initial(
                tick_height,
                start_slot,
                next_leader_slot,
                ticks_per_slot,
                id,
                clear_bank_signal,
                hashes_per_tick,
            );
            &&& s.tick_height == tick_height
            &&& s.start_slot == start_slot
            &&& s.start_tick == tick_height + 1
            &&& s.tick_cache.len() == 0
            &&& s.working_bank is None
            &&& next_leader_slot is None ==> {
                &&& s.start_leader_at_tick is None
                &&& s.last_leader_tick == 0
            }
            &&& next_leader_slot matches Some(slot) ==> {
                &&& s.start_leader_at_tick == Some(slot * ticks_per_slot + ticks_per_slot / 2)
                &&& s.last_leader_tick == (slot + 1) * ticks_per_slot - 1
            }
            &&& s.grace_ticks == ticks_per_slot / 2
            &&& s.ticks_per_slot == ticks_per_slot
            &&& s.id == id
            &&& s.clear_bank_signal == clear_bank_signal
            &&& s.hashes_per_tick == hashes_per_tick
            &&& s.stage is Idle
            &&& s.request is None
        }),
{
    if let Some(slot) = next_leader_slot {
        assert((slot + 1) * ticks_per_slot >= 1) by (nonlinear_arith)
            requires
                ticks_per_slot > 0,
        ;
    }
}

/// A working bank that is set is kept with exactly the range that was given, and nothing else
/// changes. A bank that is set after it takes its place.
pub proof fn law_range_is_kept(s: RecorderState, w: WorkingBank, other: WorkingBank)
    requires
        s.inv(),
        s.stage is Idle,
    ensures
        s.set_working_bank(w).working_bank == Some(w),
        (RecorderState { working_bank: s.working_bank, ..s.set_working_bank(w) }) == s,
        s.set_working_bank(other).set_working_bank(w) == s.set_working_bank(w),
{
}

/// A record at the start of the range of a bank that was just set is not too early, and one
/// before it is; a tick at the start of the range is held back, and the next one is not.
pub proof fn law_range_starts_where_set(
    s: RecorderState,
    w: WorkingBank,
    request: RequestModel,
    poh_entry: PohEntry,
)
    requires
        s.inv(),
        s.stage is Idle,
        s.tick_cache.len() == 0,
        s.tick_height < w.max_tick_height,
        w.bank.slot == request.bank_slot,
    ensures
        ({
            let t = s.set_working_bank(w);
            &&& s.tick_height >= w.min_tick_height <==> t.record(request).1
                == (ActionModel::RecordPoh { mixin: request.mixin })
            &&& s.tick_height < w.min_tick_height <==> t.record(request).1 == ActionModel::Done(
                Err(Error::PohRecorderError(PohRecorderError::MinHeightNotReached)),
            )
            &&& s.start_leader_at_tick is Some ==> {
                &&& s.tick_height >= w.min_tick_height <==> t.tick(Some(poh_entry)).1 is Flush
                &&& s.tick_height < w.min_tick_height <==> t.tick(Some(poh_entry)).1
                    == ActionModel::Done(Ok(()))
            }
        }),
{
    let t = s.set_working_bank(w);
    let next = choose|next: Option<nat>| #[trigger] s.leader_ticks_of(next);
    assert(t.leader_ticks_of(next));
    let n = lemma_due(t);
    let ticked = t.with_tick(poh_entry);
    assert(ticked.cache_ordered());
    let m = lemma_due(ticked);
}

/// What a record is answered with, and what it changes. Without a bank, or before the bank's
/// range, it is refused and nothing changes. If ticks of the range are cached, they are flushed
/// first: all of those up to the end of the range, and no others. If the range is over, the bank
/// is given up. Otherwise PoH is asked if the record is for the slot of the bank, and the record
/// is refused if it is not.
pub proof fn law_record_asks(s: RecorderState, request: RequestModel)
    requires
        s.inv(),
        s.stage is Idle,
    ensures
        ({
            let (t, action) = s.record(request);
            let w = s.working_bank->0;
            let begun = s.working_bank is Some && w.min_tick_height <= s.tick_height;
            let due = s.tick_cache.len() > 0 && s.tick_cache[0].1 <= w.max_tick_height;
            let complete = s.tick_height >= w.max_tick_height;
            let meant = w.bank.slot == request.bank_slot;
            &&& s.working_bank is None ==> {
                &&& t == s
                &&& action == ActionModel::Done(
                    Err(Error::PohRecorderError(PohRecorderError::MaxHeightReached)),
                )
            }
            &&& s.working_bank is Some && !begun ==> {
                &&& t == s
                &&& action == ActionModel::Done(
                    Err(Error::PohRecorderError(PohRecorderError::MinHeightNotReached)),
                )
            }
            &&& begun && due ==> {
                &&& t == (RecorderState {
                    stage: Stage::Flushing { by: Flusher::Record },
                    request: Some(request),
                    ..s
                })
                &&& action matches ActionModel::Flush { bank, entries }
                &&& bank == w.bank
                &&& 0 < entries.len() <= s.tick_cache.len()
                &&& entries == s.tick_cache.take(entries.len() as int)
                &&& forall|i: int|
                    0 <= i < s.tick_cache.len() ==> (i < entries.len() <==> (
                    #[trigger] s.tick_cache[i]).1 <= w.max_tick_height)
            }
            &&& begun && !due && complete ==> {
                &&& t == (RecorderState {
                    start_slot: w.max_tick_height as nat / s.ticks_per_slot,
                    start_tick: (w.max_tick_height as nat / s.ticks_per_slot + 1)
                        * s.ticks_per_slot,
                    stage: Stage::FlushClearing { by: Flusher::Record, again: false },
                    request: Some(request),
                    ..s
                })
                &&& action == (ActionModel::ClearBank {
                    id: s.id,
                    given_up: Some(w.bank),
                    signal: s.clear_bank_signal,
                })
            }
            &&& begun && !due && !complete && meant ==> {
                &&& t == (RecorderState {
                    stage: Stage::RecordingPoh,
                    request: Some(request),
                    ..s
                })
                &&& action == (ActionModel::RecordPoh { mixin: request.mixin })
            }
            &&& begun && !due && !complete && !meant ==> {
                &&& t == s
                &&& action == ActionModel::Done(
                    Err(Error::PohRecorderError(PohRecorderError::MaxHeightReached)),
                )
            }
        }),
{
    let n = lemma_due(s);
    let u = RecorderState { request: Some(request), ..s };
    let m = lemma_due(u);
}

/// The entry that PoH has recorded is handed out for the working bank: one entry, at the current
/// height, with what PoH answered and with the transactions that were asked to be recorded. When
/// PoH has not recorded it is ticked. Beyond that nothing changes.
pub proof fn law_entry_is_made(s: RecorderState, poh_entry: PohEntry)
    requires
        s.inv(),
        s.stage is RecordingPoh,
    ensures
        ({
            let (t, action) = s.poh_recorded(Some(poh_entry));
            &&& s.working_bank is Some
            &&& s.request is Some
            &&& t == (RecorderState { stage: Stage::SendingEntry, request: None, ..s })
            &&& action matches ActionModel::Send { bank, entries }
            &&& bank == s.working_bank->0.bank
            &&& entries.len() == 1
            &&& entries[0].1 == s.tick_height
            &&& entries[0].0.num_hashes == poh_entry.num_hashes
            &&& entries[0].0.hash == poh_entry.hash
            &&& entries[0].0.transactions == s.request->0.transactions
        }),
        s.poh_recorded(None).0 == (RecorderState { stage: Stage::TickingPoh, ..s }),
        s.poh_recorded(None).1 is TickPoh,
{
}

/// A record ends as the sending of its entry did, and changes nothing in ending.
pub proof fn law_entry_is_sent(s: RecorderState, sent: bool)
    requires
        s.inv(),
        s.stage is SendingEntry,
    ensures
        s.request is None,
        s.entry_sent(sent).0 == (RecorderState { stage: Stage::Idle, ..s }),
        sent ==> s.entry_sent(sent).1 == ActionModel::Done(Ok(())),
        !sent ==> s.entry_sent(sent).1 == ActionModel::Done(Err(Error::SendError)),
{
}

} // verus!
