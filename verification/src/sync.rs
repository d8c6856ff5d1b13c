//! The decisions of the sync task: where to start, when to resume from the
//! local database, which block to fetch next, and what to report when the node
//! fails. The task itself (timers, network, database) runs outside and feeds
//! the outcome of each command back as an event.
use vstd::prelude::*;

use crate::text::{dec, u32_to_dec};
use crate::types::{NoteInfo, StartFrom, SyncResult, TransactionInfo, BlockInfo};

verus! {

/// How many cached blocks are shown when the explorer starts.
pub const CACHED_BLOCKS_SHOWN: u32 = 100;

#[derive(Debug, Clone, Copy, PartialEq, Eq, Structural)]
pub enum SyncStage {
    /// Waiting for the chain tip that starting at the tip needs.
    ResolveStart,
    /// Waiting for the latest block of the local database.
    Resume,
    /// Following the chain.
    Tail,
}

/// What the sync task is asked to do next.
#[derive(Debug, Clone, Copy, PartialEq, Eq, Structural)]
pub enum SyncCommand {
    /// Ask the node for its chain tip.
    GetChainTip,
    /// Show the cached blocks and report the latest block stored.
    LoadCache,
    /// Wait for the next poll.
    WaitTick,
    /// Fetch this block, store it and show it.
    FetchBlock(u32),
}

/// The outcome of a command.
#[derive(Debug, Clone, PartialEq, Eq)]
pub enum SyncEvent {
    ChainTip(u32),
    ChainTipFailed(String),
    Latest(Option<u32>),
    Ticked,
    BlockFetched,
    BlockFailed(String),
}

#[derive(Debug, Clone, Copy, PartialEq, Eq, Structural)]
pub struct Syncer {
    /// Whether the start block was given (genesis or a number) rather than the tip.
    pub explicit_start: bool,
    /// The next block to fetch.
    pub current_block: u32,
    /// The chain tip being caught up to.
    pub chain_tip: u32,
    pub stage: SyncStage,
}

/// The message for a failed chain-tip request.
pub open spec fn tip_error_text(e: Seq<char>) -> Seq<char> {
    "Failed to get chain tip: "@ + e
}

/// The message for a block that could not be fetched.
pub open spec fn fetch_error_text(block: u32, e: Seq<char>) -> Seq<char> {
    "Failed to fetch block "@ + dec(block as nat) + ": "@ + e
}

/// The syncer and first command for a start point.
pub open spec fn sync_start(start: StartFrom) -> (Syncer, SyncCommand) {
    match start {
        StartFrom::Tip => (
            Syncer { explicit_start: false, current_block: 0, chain_tip: 0, stage: SyncStage::ResolveStart },
            SyncCommand::GetChainTip,
        ),
        StartFrom::Genesis => (
            Syncer { explicit_start: true, current_block: 0, chain_tip: 0, stage: SyncStage::Resume },
            SyncCommand::LoadCache,
        ),
        StartFrom::Block(n) => (
            Syncer { explicit_start: true, current_block: n, chain_tip: 0, stage: SyncStage::Resume },
            SyncCommand::LoadCache,
        ),
    }
}

/// The command that follows once the tip is known: fetch the next block while
/// it is not past the tip, else wait.
pub open spec fn next_fetch(current: u32, tip: u32) -> SyncCommand {
    if current <= tip {
        SyncCommand::FetchBlock(current)
    } else {
        SyncCommand::WaitTick
    }
}

/// Where syncing goes on from once the local database reports its latest block:
/// right after it, so that syncing resumes where it left off, unless a start
/// was given.
pub open spec fn resumed_block(explicit: bool, current: u32, latest: Option<u32>) -> u32 {
    match latest {
        Some(l) => if !explicit {
            (l + 1) as u32
        } else {
            current
        },
        None => current,
    }
}

impl Syncer {
    /// The next state, the next command, and the error to report, if any.
    /// Events that the stage does not wait for change nothing.
    pub open spec fn step_spec(self, ev: SyncEvent) -> (Syncer, SyncCommand, Option<Seq<char>>) {
        match self.stage {
            SyncStage::ResolveStart => match ev {
                SyncEvent::ChainTip(t) => (
                    Syncer { current_block: t, stage: SyncStage::Resume, ..self },
                    SyncCommand::LoadCache,
                    None,
                ),
                SyncEvent::ChainTipFailed(e) => (
                    Syncer { current_block: 0, stage: SyncStage::Resume, ..self },
                    SyncCommand::LoadCache,
                    Some(tip_error_text(e@)),
                ),
                _ => (self, SyncCommand::GetChainTip, None),
            },
            SyncStage::Resume => match ev {
                SyncEvent::Latest(l) => (
                    Syncer {
                        current_block: resumed_block(self.explicit_start, self.current_block, l),
                        stage: SyncStage::Tail,
                        ..self
                    },
                    SyncCommand::WaitTick,
                    None,
                ),
                _ => (self, SyncCommand::LoadCache, None),
            },
            SyncStage::Tail => match ev {
                SyncEvent::Ticked => (self, SyncCommand::GetChainTip, None),
                SyncEvent::ChainTip(t) => (
                    Syncer { chain_tip: t, ..self },
                    next_fetch(self.current_block, t),
                    None,
                ),
                SyncEvent::ChainTipFailed(e) => (
                    self,
                    SyncCommand::WaitTick,
                    Some(tip_error_text(e@)),
                ),
                SyncEvent::BlockFetched => {
                    let next = (self.current_block + 1) as u32;
                    (
                        Syncer { current_block: next, ..self },
                        next_fetch(next, self.chain_tip),
                        None,
                    )
                },
                SyncEvent::BlockFailed(e) => (
                    self,
                    SyncCommand::WaitTick,
                    Some(fetch_error_text(self.current_block, e@)),
                ),
                SyncEvent::Latest(_) => (self, SyncCommand::WaitTick, None),
            },
        }
    }

    /// The event can be taken without passing the largest block number.
    pub open spec fn step_fits(self, ev: SyncEvent) -> bool {
        match self.stage {
            SyncStage::Resume => match ev {
                SyncEvent::Latest(Some(l)) => self.explicit_start || l < u32::MAX,
                _ => true,
            },
            SyncStage::Tail => match ev {
                SyncEvent::BlockFetched => self.current_block < u32::MAX,
                _ => true,
            },
            _ => true,
        }
    }

    /// The syncer for a start point and its first command: the tip is asked for
    /// first when starting at the tip, else the cache is loaded.
    pub fn new(start: StartFrom) -> (r: (Syncer, SyncCommand))
        ensures
            r == sync_start(start),
    {
        match start {
            StartFrom::Tip => (
                Syncer {
                    explicit_start: false,
                    current_block: 0,
                    chain_tip: 0,
                    stage: SyncStage::ResolveStart,
                },
                SyncCommand::GetChainTip,
            ),
            StartFrom::Genesis => (
                Syncer {
                    explicit_start: true,
                    current_block: 0,
                    chain_tip: 0,
                    stage: SyncStage::Resume,
                },
                SyncCommand::LoadCache,
            ),
            StartFrom::Block(n) => (
                Syncer {
                    explicit_start: true,
                    current_block: n,
                    chain_tip: 0,
                    stage: SyncStage::Resume,
                },
                SyncCommand::LoadCache,
            ),
        }
    }

    /// Whether `step` can take the event: the last block number cannot be passed.
    pub fn can_step(&self, ev: &SyncEvent) -> (r: bool)
        ensures
            r == self.step_fits(*ev),
    {
        match self.stage {
            SyncStage::Resume => match ev {
                SyncEvent::Latest(Some(l)) => self.explicit_start || *l < u32::MAX,
                _ => true,
            },
            SyncStage::Tail => match ev {
                SyncEvent::BlockFetched => self.current_block < u32::MAX,
                _ => true,
            },
            _ => true,
        }
    }

    /// Takes the outcome of the last command; returns the next command and the
    /// error message to report, if any.
    pub fn step(&mut self, ev: SyncEvent) -> (r: (SyncCommand, Option<String>))
        requires
            old(self).step_fits(ev),
        ensures
            ({
                let (s, c, m) = old(self).step_spec(ev);
                &&& *final(self) == s
                &&& r.0 == c
                &&& match (r.1, m) {
                    (Some(a), Some(b)) => a@ == b,
                    (None, None) => true,
                    _ => false,
                }
            }),
    {
        match self.stage {
            SyncStage::ResolveStart => match ev {
                SyncEvent::ChainTip(t) => {
                    self.current_block = t;
                    self.stage = SyncStage::Resume;
                    (SyncCommand::LoadCache, None)
                },
                SyncEvent::ChainTipFailed(e) => {
                    self.current_block = 0;
                    self.stage = SyncStage::Resume;
                    (SyncCommand::LoadCache, Some(tip_error(e.as_str())))
                },
                _ => (SyncCommand::GetChainTip, None),
            },
            SyncStage::Resume => match ev {
                SyncEvent::Latest(l) => {
                    if let Some(latest) = l {
                        if !self.explicit_start {
                            self.current_block = latest + 1;
                        }
                    }
                    self.stage = SyncStage::Tail;
                    (SyncCommand::WaitTick, None)
                },
                _ => (SyncCommand::LoadCache, None),
            },
            SyncStage::Tail => match ev {
                SyncEvent::Ticked => (SyncCommand::GetChainTip, None),
                SyncEvent::ChainTip(t) => {
                    self.chain_tip = t;
                    (fetch_or_wait(self.current_block, t), None)
                },
                SyncEvent::ChainTipFailed(e) => (
                    SyncCommand::WaitTick,
                    Some(tip_error(e.as_str())),
                ),
                SyncEvent::BlockFetched => {
                    self.current_block = self.current_block + 1;
                    (fetch_or_wait(self.current_block, self.chain_tip), None)
                },
                SyncEvent::BlockFailed(e) => (
                    SyncCommand::WaitTick,
                    Some(fetch_error(self.current_block, e.as_str())),
                ),
                SyncEvent::Latest(_) => (SyncCommand::WaitTick, None),
            },
        }
    }
}

fn fetch_or_wait(current: u32, tip: u32) -> (r: SyncCommand)
    ensures
        r == next_fetch(current, tip),
{
    if current <= tip {
        SyncCommand::FetchBlock(current)
    } else {
        SyncCommand::WaitTick
    }
}

/// The first block of the newest cached blocks shown at start, for a database
/// whose latest block is `latest`.
pub fn cached_window_start(latest: u32) -> (r: u32)
    ensures
        r == (if latest >= CACHED_BLOCKS_SHOWN - 1 {
            latest - (CACHED_BLOCKS_SHOWN - 1)
        } else {
            0
        }),
{
    latest.saturating_sub(CACHED_BLOCKS_SHOWN - 1)
}

/// The message reported when the chain tip cannot be read.
pub fn tip_error(e: &str) -> (r: String)
    ensures
        r@ == tip_error_text(e@),
{
    let mut r = "Failed to get chain tip: ".to_owned();
    r.append(e);
    r
}

/// The message reported when a block cannot be fetched.
pub fn fetch_error(block: u32, e: &str) -> (r: String)
    ensures
        r@ == fetch_error_text(block, e@),
{
    let mut r = "Failed to fetch block ".to_owned();
    r.append(u32_to_dec(block).as_str());
    r.append(": ");
    r.append(e);
    r
}

/// The record of a fetched block: its header with the transaction and note
/// counts of what came with it.
pub fn sync_result(
    block: BlockInfo,
    transactions: Vec<TransactionInfo>,
    notes: Vec<NoteInfo>,
) -> (r: SyncResult)
    ensures
        r.block == (BlockInfo {
            tx_count: transactions@.len() as usize,
            note_count: notes@.len() as usize,
            ..block
        }),
        r.transactions@ == transactions@,
        r.notes@ == notes@,
{
    let mut block = block;
    block.tx_count = transactions.len();
    block.note_count = notes.len();
    SyncResult { block, transactions, notes }
}

/// While following the chain, a fetched block is followed by a request for the
/// very next block, as long as it is not past the tip.
pub proof fn lemma_fetches_are_consecutive(s: Syncer)
    requires
        s.stage == SyncStage::Tail,
        s.current_block < u32::MAX,
    ensures
        ({
            let (t, c, m) = s.step_spec(SyncEvent::BlockFetched);
            &&& t.current_block == s.current_block + 1
            &&& m is None
            &&& (c matches SyncCommand::FetchBlock(n) ==> n == s.current_block + 1 && n
                <= s.chain_tip)
            &&& (c == SyncCommand::WaitTick <==> s.current_block + 1 > s.chain_tip)
        }),
{
}

/// While following the chain the next block never moves back, and a failed
/// fetch keeps it, so the same block is tried again at the next poll.
pub proof fn lemma_tail_never_moves_back(s: Syncer, ev: SyncEvent)
    requires
        s.stage == SyncStage::Tail,
        s.step_fits(ev),
    ensures
        s.step_spec(ev).0.current_block >= s.current_block,
        s.step_spec(ev).0.stage == SyncStage::Tail,
        ev is BlockFailed ==> s.step_spec(ev).0 == s && s.step_spec(ev).1 == SyncCommand::WaitTick,
{
}

/// Starting from the tip, a database that already holds blocks is continued
/// right after its latest block, whatever the chain tip; a given start is kept.
pub proof fn lemma_resume(explicit: bool, current: u32, latest: u32)
    requires
        latest < u32::MAX,
    ensures
        !explicit ==> resumed_block(explicit, current, Some(latest)) == latest + 1,
        explicit ==> resumed_block(explicit, current, Some(latest)) == current,
        resumed_block(explicit, current, None) == current,
{
}

/// Each command is answered in turn: a chain tip at or past the next block asks
/// for that block, one before it waits for the next poll.
pub proof fn lemma_tip_then_fetch(s: Syncer, tip: u32)
    requires
        s.stage == SyncStage::Tail,
    ensures
        s.step_spec(SyncEvent::ChainTip(tip)).1 == (if s.current_block <= tip {
            SyncCommand::FetchBlock(s.current_block)
        } else {
            SyncCommand::WaitTick
        }),
        s.step_spec(SyncEvent::ChainTip(tip)).0.chain_tip == tip,
{
}

/// Started at the tip over a database whose latest block is `latest`, the first
/// block fetched is `latest + 1`, once the node's tip has reached it: no stored
/// block is fetched again and none after it is skipped.
pub proof fn lemma_tip_start_resumes_after_stored(tip0: u32, latest: u32, tip: u32)
    requires
        latest < u32::MAX,
    ensures
        ({
            let (s0, c0) = sync_start(StartFrom::Tip);
            let (s1, c1, _) = s0.step_spec(SyncEvent::ChainTip(tip0));
            let (s2, c2, _) = s1.step_spec(SyncEvent::Latest(Some(latest)));
            let (s3, c3, _) = s2.step_spec(SyncEvent::Ticked);
            let (s4, c4, _) = s3.step_spec(SyncEvent::ChainTip(tip));
            &&& c0 == SyncCommand::GetChainTip
            &&& c1 == SyncCommand::LoadCache
            &&& c2 == SyncCommand::WaitTick
            &&& c3 == SyncCommand::GetChainTip
            &&& c4 == (if latest + 1 <= tip {
                SyncCommand::FetchBlock((latest + 1) as u32)
            } else {
                SyncCommand::WaitTick
            })
        }),
{
}

} // verus!
