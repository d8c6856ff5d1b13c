//! What the explorer can be asked to do, by a key press or by the sync task.
use vstd::prelude::*;

use crate::types::{BlockInfo, NoteInfo, TransactionInfo};

verus! {

#[derive(Debug, Clone, PartialEq, Eq)]
pub enum Action {
    Tick,
    Quit,
    Up(usize),
    Down(usize),
    Enter,
    Back,
    NewBlockReceived {
        block: BlockInfo,
        transactions: Vec<TransactionInfo>,
        notes: Vec<NoteInfo>,
    },
    BatchBlocksLoaded {
        blocks: Vec<(BlockInfo, Vec<TransactionInfo>, Vec<NoteInfo>)>,
    },
    SyncError(String),
    ScrollUp,
    ScrollDown,
    HalfPageUp,
    HalfPageDown,
    GoToTop,
    GoToBottom,
    ToggleHelp,
    ToggleErrorLog,
    ClearErrorLog,
    SearchBlock(u32),
    NavBack,
    NavForward,
    SyncProgress {
        current: u32,
        target: u32,
    },
    LoadProgress {
        current: u32,
        target: u32,
    },
    SyncDone,
    Latency(u64),
    ToggleExpandHashes,
    CopyHash,
    SwitchDetailFocus,
    CycleFilter,
}

} // verus!
