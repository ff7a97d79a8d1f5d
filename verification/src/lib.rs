//! The decisions of a Proof of History recorder.
//!
//! A `PohRecorder` keeps Proof of History (PoH), the tick register of a bank and the ledger
//! in step. It counts the ticks that PoH produces, holds them back until a bank wants them,
//! and records transactions while a bank takes entries. What has to be done outside of it
//! it returns as an `Action`, and it goes on when the answer is handed back.
//!
//! * `types`, `action`: the values that go in and out, and their mathematical content
//! * `leader`, `state`: what a recorder is, and what each call does to it
//! * `recorder`: the recorder itself
//! * `run`: calls made one after the other
//! * `laws`, `operation_laws`, `schedule_laws`: what holds of every recorder
//! * `call_laws`, `range_laws`, `content_laws`: what each call does to every part of a recorder,
//!   what calls that follow each other come to, and what goes in and out
//! * `preservation`, `frame`: the lemmas behind them
pub mod action;
pub mod call_laws;
pub mod content_laws;
pub mod frame;
pub mod laws;
pub mod leader;
pub mod operation_laws;
pub mod preservation;
pub mod range_laws;
pub mod recorder;
pub mod run;
pub mod schedule_laws;
pub mod state;
pub mod types;

pub use crate::action::Action;
pub use crate::recorder::PohRecorder;
pub use crate::state::GRACE_TICKS_FACTOR;
pub use crate::types::{
    Bank, Entry, Error, PohConfig, PohEntry, PohRecorderError, PohStart, WorkingBank,
};
pub use solana_sdk::clock::Slot;
