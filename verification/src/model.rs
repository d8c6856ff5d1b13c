//! The explorer's state as mathematical values, and what each action does to it.
//!
//! `AppView` is the abstract state of an `App`; the functions here say, for every
//! action and key press, which state comes next. The executable `App` in
//! `app.rs` is proved to follow them.
use vstd::prelude::*;

use crate::action::Action;
use crate::app::{BlockFilter, DetailFocus, NavEntry, Pane};
use crate::event::{KeyCode, KeyPress};
use crate::text::parse_unsigned;
use crate::types::{BlockInfo, NoteInfo, TransactionInfo};

verus! {

/// How many rows a half-page jump moves.
pub const HALF_PAGE: usize = 15;

#[verifier::ext_equal]
pub struct AppView {
    pub active_pane: Pane,
    pub blocks: Seq<BlockInfo>,
    pub block_list_selected: Option<usize>,
    pub block_transactions: Map<u32, Seq<TransactionInfo>>,
    pub block_notes: Map<u32, Seq<NoteInfo>>,
    pub browsing_block_num: Option<u32>,
    pub selected_block_txs: Seq<TransactionInfo>,
    pub selected_block_notes: Seq<NoteInfo>,
    pub tx_list_selected: Option<usize>,
    pub note_list_selected: Option<usize>,
    pub error_log: Seq<Seq<char>>,
    pub error_list_selected: Option<usize>,
    pub show_error_log: bool,
    pub should_quit: bool,
    pub detail_scroll: u16,
    pub pending_g: bool,
    pub count_buf: Seq<char>,
    pub show_help: bool,
    pub nav_back: Seq<NavEntry>,
    pub nav_forward: Seq<NavEntry>,
    pub sync_progress: Option<(u32, u32)>,
    pub search_input: Option<Seq<char>>,
    pub filter: BlockFilter,
    /// Number of the block that arrived last (its arrival time is not modelled).
    pub last_received_block: Option<u32>,
    pub load_progress: Option<(u32, u32)>,
    pub sync_done: bool,
    pub network: Seq<char>,
    pub latency_ms: Option<u64>,
    pub expand_hashes: bool,
    pub detail_focus: DetailFocus,
    /// Message of the clipboard notice (its time is not modelled).
    pub clipboard_flash: Option<Seq<char>>,
    pub detail_row_selected: Option<usize>,
    pub detail_rows: Seq<(Seq<char>, Seq<char>)>,
}

// ---------------------------------------------------------------------------
// Filtering and searching the block list
// ---------------------------------------------------------------------------

/// Whether a block is shown under a filter.
pub open spec fn block_matches(b: BlockInfo, f: BlockFilter) -> bool {
    match f {
        BlockFilter::All => true,
        BlockFilter::WithTransactions => b.tx_count > 0,
        BlockFilter::WithNotes => b.note_count > 0,
    }
}

/// Indices among the first `k` blocks that the filter shows, in increasing order.
pub open spec fn filtered_upto(blocks: Seq<BlockInfo>, f: BlockFilter, k: nat) -> Seq<usize>
    decreases k,
{
    if k == 0 {
        seq![]
    } else {
        let prev = filtered_upto(blocks, f, (k - 1) as nat);
        if block_matches(blocks[k - 1], f) {
            prev.push((k - 1) as usize)
        } else {
            prev
        }
    }
}

/// Indices of the blocks that the filter shows, in list order.
pub open spec fn filtered(blocks: Seq<BlockInfo>, f: BlockFilter) -> Seq<usize> {
    filtered_upto(blocks, f, blocks.len())
}

/// The first position `p >= i` of the filtered list whose block number equals `bn`
/// (`exact`) or is at most `bn` (not `exact`).
pub open spec fn find_filtered(
    blocks: Seq<BlockInfo>,
    fidx: Seq<usize>,
    bn: u32,
    exact: bool,
    i: nat,
) -> Option<nat>
    decreases fidx.len() - i,
{
    if i >= fidx.len() {
        None
    } else {
        let b = blocks[fidx[i as int] as int].block_num;
        if (exact && b == bn) || (!exact && b <= bn) {
            Some(i)
        } else {
            find_filtered(blocks, fidx, bn, exact, i + 1)
        }
    }
}

/// The first index from `i` on whose block number is at most `bn`, or the length.
pub open spec fn insert_pos_from(blocks: Seq<BlockInfo>, bn: u32, i: nat) -> nat
    decreases blocks.len() - i,
{
    if i >= blocks.len() {
        blocks.len()
    } else if blocks[i as int].block_num <= bn {
        i
    } else {
        insert_pos_from(blocks, bn, i + 1)
    }
}

/// Where a block numbered `bn` goes in a newest-first list.
pub open spec fn insert_pos(blocks: Seq<BlockInfo>, bn: u32) -> nat {
    insert_pos_from(blocks, bn, 0)
}

/// The first block numbered `bn`, if any.
pub open spec fn find_block_from(blocks: Seq<BlockInfo>, bn: u32, i: nat) -> Option<nat>
    decreases blocks.len() - i,
{
    if i >= blocks.len() {
        None
    } else if blocks[i as int].block_num == bn {
        Some(i)
    } else {
        find_block_from(blocks, bn, i + 1)
    }
}

/// The block list is newest first with no block number twice.
pub open spec fn newest_first(blocks: Seq<BlockInfo>) -> bool {
    forall|i: int, j: int|
        0 <= i < j < blocks.len() ==> #[trigger] blocks[i].block_num > #[trigger] blocks[j].block_num
}

/// The filtered indices are increasing positions of the list, and a position is
/// among them exactly when its block is shown.
pub proof fn lemma_filtered_upto(blocks: Seq<BlockInfo>, f: BlockFilter, k: nat)
    requires
        k <= blocks.len(),
        blocks.len() <= usize::MAX,
    ensures
        filtered_upto(blocks, f, k).len() <= k,
        forall|j: int|
            0 <= j < filtered_upto(blocks, f, k).len() ==> #[trigger] filtered_upto(
                blocks,
                f,
                k,
            )[j] < k,
        forall|j1: int, j2: int|
            0 <= j1 < j2 < filtered_upto(blocks, f, k).len() ==> #[trigger] filtered_upto(
                blocks,
                f,
                k,
            )[j1] < #[trigger] filtered_upto(blocks, f, k)[j2],
        forall|i: int|
            0 <= i < k ==> (block_matches(#[trigger] blocks[i], f) <==> filtered_upto(
                blocks,
                f,
                k,
            ).contains(i as usize)),
    decreases k,
{
    if k > 0 {
        lemma_filtered_upto(blocks, f, (k - 1) as nat);
        let prev = filtered_upto(blocks, f, (k - 1) as nat);
        let cur = filtered_upto(blocks, f, k);
        assert forall|i: int| 0 <= i < k implies (block_matches(#[trigger] blocks[i], f)
            <==> cur.contains(i as usize)) by {
            if i < k - 1 {
                if block_matches(blocks[k - 1], f) {
                    if cur.contains(i as usize) {
                        let j = choose|j: int| 0 <= j < cur.len() && cur[j] == i as usize;
                        if j < prev.len() {
                            assert(prev[j] == i as usize);
                        }
                    }
                    if prev.contains(i as usize) {
                        let j = choose|j: int| 0 <= j < prev.len() && prev[j] == i as usize;
                        assert(cur[j] == i as usize);
                    }
                }
            } else {
                if block_matches(blocks[k - 1], f) {
                    assert(cur[cur.len() - 1] == i as usize);
                } else {
                    if cur.contains(i as usize) {
                        let j = choose|j: int| 0 <= j < cur.len() && cur[j] == i as usize;
                        assert(prev[j] < k - 1);
                    }
                }
            }
        }
    }
}

/// Facts about the whole filtered list.
pub proof fn lemma_filtered(blocks: Seq<BlockInfo>, f: BlockFilter)
    requires
        blocks.len() <= usize::MAX,
    ensures
        filtered(blocks, f).len() <= blocks.len(),
        forall|j: int|
            0 <= j < filtered(blocks, f).len() ==> #[trigger] filtered(blocks, f)[j]
                < blocks.len(),
        forall|j1: int, j2: int|
            0 <= j1 < j2 < filtered(blocks, f).len() ==> #[trigger] filtered(blocks, f)[j1]
                < #[trigger] filtered(blocks, f)[j2],
        forall|i: int|
            0 <= i < blocks.len() ==> (block_matches(#[trigger] blocks[i], f) <==> filtered(
                blocks,
                f,
            ).contains(i as usize)),
{
    lemma_filtered_upto(blocks, f, blocks.len());
}

// ---------------------------------------------------------------------------
// Moving a selection
// ---------------------------------------------------------------------------

/// Moving a selection `n` rows down in a list of `len` rows: nothing on an empty
/// list, the first row when nothing is selected, else clamped to the last row.
pub open spec fn sel_next(sel: Option<usize>, n: usize, len: nat) -> Option<usize> {
    if len == 0 {
        sel
    } else {
        match sel {
            Some(i) => Some(
                if i + n <= len - 1 {
                    (i + n) as usize
                } else {
                    (len - 1) as usize
                },
            ),
            None => Some(0),
        }
    }
}

/// Moving a selection `n` rows up: nothing on an empty list, the first row when
/// nothing is selected, else stopping at the first row.
pub open spec fn sel_prev(sel: Option<usize>, n: usize, len: nat) -> Option<usize> {
    if len == 0 {
        sel
    } else {
        match sel {
            Some(i) => Some(
                if i >= n {
                    (i - n) as usize
                } else {
                    0
                },
            ),
            None => Some(0),
        }
    }
}

/// Moving `n` rows down from `sel` does not exceed the largest `usize`.
pub open spec fn advance_fits(sel: Option<usize>, n: usize, len: nat) -> bool {
    len == 0 || match sel {
        Some(i) => i + n <= usize::MAX,
        None => true,
    }
}

/// `sel.unwrap_or(0)`.
pub open spec fn sel_or_zero(sel: Option<usize>) -> usize {
    match sel {
        Some(i) => i,
        None => 0,
    }
}

/// The selection a half-page jump down gives in a list of `len > 0` rows.
pub open spec fn half_down(sel: Option<usize>, len: nat) -> usize {
    if sel_or_zero(sel) + HALF_PAGE <= len - 1 {
        (sel_or_zero(sel) + HALF_PAGE) as usize
    } else {
        (len - 1) as usize
    }
}

/// The selection a half-page jump up gives.
pub open spec fn half_up(sel: Option<usize>) -> usize {
    if sel_or_zero(sel) >= HALF_PAGE {
        (sel_or_zero(sel) - HALF_PAGE) as usize
    } else {
        0
    }
}

/// The value of a typed count prefix: the digits as a number, 1 when empty,
/// unparseable or zero.
pub open spec fn count_value(buf: Seq<char>) -> usize {
    if buf.len() == 0 {
        1
    } else {
        match parse_unsigned(buf, usize::MAX as nat) {
            Some(v) => if v == 0 {
                1
            } else {
                v as usize
            },
            None => 1,
        }
    }
}

/// The next filter in the cycle All, Has txs, Has notes.
pub open spec fn filter_next(f: BlockFilter) -> BlockFilter {
    match f {
        BlockFilter::All => BlockFilter::WithTransactions,
        BlockFilter::WithTransactions => BlockFilter::WithNotes,
        BlockFilter::WithNotes => BlockFilter::All,
    }
}

/// The next panel in the cycle Block, Txs, Notes.
pub open spec fn focus_next(f: DetailFocus) -> DetailFocus {
    match f {
        DetailFocus::Block => DetailFocus::Txs,
        DetailFocus::Txs => DetailFocus::Notes,
        DetailFocus::Notes => DetailFocus::Block,
    }
}

/// A block with its transaction and note counts set from the lists that came with it.
pub open spec fn with_counts(block: BlockInfo, ntx: nat, nnotes: nat) -> BlockInfo {
    BlockInfo { tx_count: ntx as usize, note_count: nnotes as usize, ..block }
}

impl AppView {
    /// The state of a freshly started explorer.
    pub open spec fn initial(network: Seq<char>) -> AppView {
        AppView {
            active_pane: Pane::BlockList,
            blocks: seq![],
            block_list_selected: None,
            block_transactions: Map::empty(),
            block_notes: Map::empty(),
            browsing_block_num: None,
            selected_block_txs: seq![],
            selected_block_notes: seq![],
            tx_list_selected: None,
            note_list_selected: None,
            error_log: seq![],
            error_list_selected: None,
            show_error_log: false,
            should_quit: false,
            detail_scroll: 0,
            pending_g: false,
            count_buf: seq![],
            show_help: false,
            nav_back: seq![],
            nav_forward: seq![],
            sync_progress: None,
            search_input: None,
            filter: BlockFilter::All,
            last_received_block: None,
            load_progress: None,
            sync_done: false,
            network,
            latency_ms: None,
            expand_hashes: false,
            detail_focus: DetailFocus::Block,
            clipboard_flash: None,
            detail_row_selected: None,
            detail_rows: seq![],
        }
    }

    // -----------------------------------------------------------------------
    // Pieces shared by several actions
    // -----------------------------------------------------------------------

    /// The indices of the blocks currently shown.
    pub open spec fn filtered(self) -> Seq<usize> {
        filtered(self.blocks, self.filter)
    }

    /// The navigation position recorded in the history.
    pub open spec fn snapshot(self) -> NavEntry {
        NavEntry {
            pane: self.active_pane,
            browsing_block_num: self.browsing_block_num,
            block_list_selected: self.block_list_selected,
            tx_list_selected: self.tx_list_selected,
            note_list_selected: self.note_list_selected,
            detail_scroll: self.detail_scroll,
            detail_focus: self.detail_focus,
            detail_row_selected: self.detail_row_selected,
        }
    }

    /// Records the current position in the back history and forgets the forward one.
    pub open spec fn push_nav(self) -> AppView {
        AppView { nav_back: self.nav_back.push(self.snapshot()), nav_forward: seq![], ..self }
    }

    /// The transactions recorded for block `bn`, empty when none are.
    pub open spec fn txs_of(self, bn: u32) -> Seq<TransactionInfo> {
        if self.block_transactions.contains_key(bn) {
            self.block_transactions[bn]
        } else {
            seq![]
        }
    }

    /// The notes recorded for block `bn`, empty when none are.
    pub open spec fn notes_of(self, bn: u32) -> Seq<NoteInfo> {
        if self.block_notes.contains_key(bn) {
            self.block_notes[bn]
        } else {
            seq![]
        }
    }

    /// Goes back to a recorded position.
    pub open spec fn restore(self, e: NavEntry) -> AppView {
        let s = AppView {
            active_pane: e.pane,
            browsing_block_num: e.browsing_block_num,
            block_list_selected: e.block_list_selected,
            detail_scroll: e.detail_scroll,
            detail_focus: e.detail_focus,
            detail_row_selected: e.detail_row_selected,
            ..self
        };
        match e.browsing_block_num {
            Some(bn) => AppView {
                selected_block_txs: self.txs_of(bn),
                selected_block_notes: self.notes_of(bn),
                tx_list_selected: e.tx_list_selected,
                note_list_selected: e.note_list_selected,
                ..s
            },
            None => s,
        }
    }

    /// Pins the detail view to block `bn`.
    pub open spec fn browse(self, bn: u32) -> AppView {
        let txs = self.txs_of(bn);
        let notes = self.notes_of(bn);
        AppView {
            browsing_block_num: Some(bn),
            selected_block_txs: txs,
            selected_block_notes: notes,
            tx_list_selected: if txs.len() > 0 {
                Some(0)
            } else {
                None
            },
            note_list_selected: if notes.len() > 0 {
                Some(0)
            } else {
                None
            },
            detail_focus: DetailFocus::Block,
            detail_row_selected: Some(0),
            detail_rows: seq![],
            ..self
        }
    }

    /// Opens a transaction or note detail view.
    pub open spec fn enter_detail(self, pane: Pane) -> AppView {
        AppView { active_pane: pane, detail_row_selected: Some(0), detail_rows: seq![], ..self }
    }

    /// Adds or replaces a block with its transactions and notes.
    pub open spec fn insert_block(
        self,
        block: BlockInfo,
        txs: Seq<TransactionInfo>,
        notes: Seq<NoteInfo>,
    ) -> AppView {
        let bn = block.block_num;
        let updated = with_counts(block, txs.len(), notes.len());
        let pos = insert_pos(self.blocks, bn);
        let blocks = if pos < self.blocks.len() && self.blocks[pos as int].block_num == bn {
            self.blocks.update(pos as int, updated)
        } else {
            self.blocks.insert(pos as int, updated)
        };
        AppView {
            blocks,
            block_transactions: self.block_transactions.insert(bn, txs),
            block_notes: self.block_notes.insert(bn, notes),
            ..self
        }
    }

    /// Adds the blocks of a batch in order.
    pub open spec fn insert_all(
        self,
        batch: Seq<(BlockInfo, Vec<TransactionInfo>, Vec<NoteInfo>)>,
    ) -> AppView
        decreases batch.len(),
    {
        if batch.len() == 0 {
            self
        } else {
            let last = batch.last();
            self.insert_all(batch.drop_last()).insert_block(last.0, last.1@, last.2@)
        }
    }

    /// The number of the block selected in the filtered list.
    pub open spec fn selected_block_num_filtered(self) -> Option<u32> {
        let f = self.filtered();
        match self.block_list_selected {
            Some(fi) => if fi < f.len() && f[fi as int] < self.blocks.len() {
                Some(self.blocks[f[fi as int] as int].block_num)
            } else {
                None
            },
            None => None,
        }
    }

    /// After blocks arrive: stay at the head (or on a list of at most one block),
    /// else keep the block that was selected.
    pub open spec fn reselect(self, at_head: bool, selected_bn: Option<u32>) -> AppView {
        let f = self.filtered();
        if at_head || f.len() <= 1 {
            AppView { block_list_selected: Some(0), ..self }
        } else {
            match selected_bn {
                Some(bn) => match find_filtered(self.blocks, f, bn, true, 0) {
                    Some(fi) => AppView { block_list_selected: Some(fi as usize), ..self },
                    None => self,
                },
                None => self,
            }
        }
    }

    // -----------------------------------------------------------------------
    // Actions
    // -----------------------------------------------------------------------

    pub open spec fn toggle_error_log(self) -> AppView {
        let show = !self.show_error_log;
        AppView {
            show_error_log: show,
            error_list_selected: if show && self.error_log.len() > 0 {
                Some((self.error_log.len() - 1) as usize)
            } else {
                self.error_list_selected
            },
            ..self
        }
    }

    pub open spec fn clear_error_log(self) -> AppView {
        AppView {
            error_log: seq![],
            error_list_selected: None,
            show_error_log: false,
            ..self
        }
    }

    pub open spec fn up(self, n: usize) -> AppView {
        if self.show_error_log {
            AppView {
                error_list_selected: sel_prev(self.error_list_selected, n, self.error_log.len()),
                ..self
            }
        } else {
            match self.active_pane {
                Pane::BlockList => {
                    let s = if n > 1 {
                        self.push_nav()
                    } else {
                        self
                    };
                    AppView {
                        block_list_selected: sel_prev(s.block_list_selected, n, s.filtered().len()),
                        ..s
                    }
                },
                Pane::BlockDetail => match self.detail_focus {
                    DetailFocus::Block => self.detail_rows_prev(n),
                    DetailFocus::Txs => AppView {
                        tx_list_selected: sel_prev(
                            self.tx_list_selected,
                            n,
                            self.selected_block_txs.len(),
                        ),
                        ..self
                    },
                    DetailFocus::Notes => AppView {
                        note_list_selected: sel_prev(
                            self.note_list_selected,
                            n,
                            self.selected_block_notes.len(),
                        ),
                        ..self
                    },
                },
                _ => self.detail_rows_prev(n),
            }
        }
    }

    pub open spec fn detail_rows_prev(self, n: usize) -> AppView {
        AppView {
            detail_row_selected: sel_prev(self.detail_row_selected, n, self.detail_rows.len()),
            ..self
        }
    }

    pub open spec fn detail_rows_next(self, n: usize) -> AppView {
        AppView {
            detail_row_selected: sel_next(self.detail_row_selected, n, self.detail_rows.len()),
            ..self
        }
    }

    pub open spec fn down(self, n: usize) -> AppView {
        if self.show_error_log {
            AppView {
                error_list_selected: sel_next(self.error_list_selected, n, self.error_log.len()),
                ..self
            }
        } else {
            match self.active_pane {
                Pane::BlockList => {
                    let s = if n > 1 {
                        self.push_nav()
                    } else {
                        self
                    };
                    AppView {
                        block_list_selected: sel_next(s.block_list_selected, n, s.filtered().len()),
                        ..s
                    }
                },
                Pane::BlockDetail => match self.detail_focus {
                    DetailFocus::Block => self.detail_rows_next(n),
                    DetailFocus::Txs => AppView {
                        tx_list_selected: sel_next(
                            self.tx_list_selected,
                            n,
                            self.selected_block_txs.len(),
                        ),
                        ..self
                    },
                    DetailFocus::Notes => AppView {
                        note_list_selected: sel_next(
                            self.note_list_selected,
                            n,
                            self.selected_block_notes.len(),
                        ),
                        ..self
                    },
                },
                _ => self.detail_rows_next(n),
            }
        }
    }

    /// Moving down `n` rows stays within `usize`.
    pub open spec fn down_fits(self, n: usize) -> bool {
        if self.show_error_log {
            advance_fits(self.error_list_selected, n, self.error_log.len())
        } else {
            match self.active_pane {
                Pane::BlockList => advance_fits(self.block_list_selected, n, self.filtered().len()),
                Pane::BlockDetail => match self.detail_focus {
                    DetailFocus::Block => advance_fits(
                        self.detail_row_selected,
                        n,
                        self.detail_rows.len(),
                    ),
                    DetailFocus::Txs => advance_fits(
                        self.tx_list_selected,
                        n,
                        self.selected_block_txs.len(),
                    ),
                    DetailFocus::Notes => advance_fits(
                        self.note_list_selected,
                        n,
                        self.selected_block_notes.len(),
                    ),
                },
                _ => advance_fits(self.detail_row_selected, n, self.detail_rows.len()),
            }
        }
    }

    /// A half-page jump down stays within `usize`.
    pub open spec fn half_page_down_fits(self) -> bool {
        match self.active_pane {
            Pane::BlockList => self.filtered().len() == 0 || sel_or_zero(self.block_list_selected)
                + HALF_PAGE <= usize::MAX,
            Pane::BlockDetail => match self.detail_focus {
                DetailFocus::Block => advance_fits(
                    self.detail_row_selected,
                    HALF_PAGE,
                    self.detail_rows.len(),
                ),
                DetailFocus::Txs => self.selected_block_txs.len() == 0 || sel_or_zero(
                    self.tx_list_selected,
                ) + HALF_PAGE <= usize::MAX,
                DetailFocus::Notes => self.selected_block_notes.len() == 0 || sel_or_zero(
                    self.note_list_selected,
                ) + HALF_PAGE <= usize::MAX,
            },
            _ => advance_fits(self.detail_row_selected, HALF_PAGE, self.detail_rows.len()),
        }
    }

    pub open spec fn enter(self) -> AppView {
        match self.active_pane {
            Pane::BlockList => {
                let f = self.filtered();
                match self.block_list_selected {
                    Some(fi) => if fi < f.len() {
                        let bn = self.blocks[f[fi as int] as int].block_num;
                        AppView { active_pane: Pane::BlockDetail, ..self.push_nav().browse(bn) }
                    } else {
                        self
                    },
                    None => self,
                }
            },
            Pane::BlockDetail => match self.detail_focus {
                DetailFocus::Block => self,
                DetailFocus::Notes => match self.note_list_selected {
                    Some(idx) => if idx < self.selected_block_notes.len() {
                        self.push_nav().enter_detail(Pane::NoteDetail)
                    } else {
                        self
                    },
                    None => self,
                },
                DetailFocus::Txs => match self.tx_list_selected {
                    Some(idx) => if idx < self.selected_block_txs.len() {
                        self.push_nav().enter_detail(Pane::TxDetail)
                    } else {
                        self
                    },
                    None => self,
                },
            },
            Pane::TxDetail => if self.selected_block_notes.len() > 0 {
                let s = self.push_nav();
                let s2 = if s.note_list_selected is None {
                    AppView { note_list_selected: Some(0), ..s }
                } else {
                    s
                };
                s2.enter_detail(Pane::NoteDetail)
            } else {
                self
            },
            Pane::NoteDetail => self,
        }
    }

    pub open spec fn back(self) -> AppView {
        match self.active_pane {
            Pane::BlockDetail => AppView {
                browsing_block_num: None,
                active_pane: Pane::BlockList,
                ..self.push_nav()
            },
            Pane::TxDetail | Pane::NoteDetail => AppView {
                active_pane: Pane::BlockDetail,
                detail_scroll: 0,
                ..self.push_nav()
            },
            Pane::BlockList => self,
        }
    }

    pub open spec fn nav_back_step(self) -> AppView {
        if self.nav_back.len() > 0 {
            let e = self.nav_back.last();
            AppView {
                nav_back: self.nav_back.drop_last(),
                nav_forward: self.nav_forward.push(self.snapshot()),
                ..self
            }.restore(e)
        } else {
            self
        }
    }

    pub open spec fn nav_forward_step(self) -> AppView {
        if self.nav_forward.len() > 0 {
            let e = self.nav_forward.last();
            AppView {
                nav_forward: self.nav_forward.drop_last(),
                nav_back: self.nav_back.push(self.snapshot()),
                ..self
            }.restore(e)
        } else {
            self
        }
    }

    pub open spec fn new_block(
        self,
        block: BlockInfo,
        txs: Seq<TransactionInfo>,
        notes: Seq<NoteInfo>,
    ) -> AppView {
        let at_head = self.block_list_selected == Some(0usize);
        let selected_bn = self.selected_block_num_filtered();
        let s = AppView {
            last_received_block: Some(block.block_num),
            ..self.insert_block(block, txs, notes)
        };
        s.reselect(at_head, selected_bn)
    }

    pub open spec fn batch_loaded(
        self,
        batch: Seq<(BlockInfo, Vec<TransactionInfo>, Vec<NoteInfo>)>,
    ) -> AppView {
        let at_head = self.block_list_selected == Some(0usize) || self.block_list_selected is None;
        let selected_bn = self.selected_block_num_filtered();
        self.insert_all(batch).reselect(at_head, selected_bn)
    }

    pub open spec fn half_page_up(self) -> AppView {
        match self.active_pane {
            Pane::BlockList => if self.filtered().len() > 0 {
                let s = self.push_nav();
                AppView { block_list_selected: Some(half_up(s.block_list_selected)), ..s }
            } else {
                self
            },
            Pane::BlockDetail => match self.detail_focus {
                DetailFocus::Block => self.detail_rows_prev(HALF_PAGE),
                DetailFocus::Txs => AppView {
                    tx_list_selected: Some(half_up(self.tx_list_selected)),
                    ..self
                },
                DetailFocus::Notes => AppView {
                    note_list_selected: Some(half_up(self.note_list_selected)),
                    ..self
                },
            },
            _ => self.detail_rows_prev(HALF_PAGE),
        }
    }

    pub open spec fn half_page_down(self) -> AppView {
        match self.active_pane {
            Pane::BlockList => if self.filtered().len() > 0 {
                let s = self.push_nav();
                AppView {
                    block_list_selected: Some(half_down(s.block_list_selected, s.filtered().len())),
                    ..s
                }
            } else {
                self
            },
            Pane::BlockDetail => match self.detail_focus {
                DetailFocus::Block => self.detail_rows_next(HALF_PAGE),
                DetailFocus::Txs => if self.selected_block_txs.len() > 0 {
                    AppView {
                        tx_list_selected: Some(
                            half_down(self.tx_list_selected, self.selected_block_txs.len()),
                        ),
                        ..self
                    }
                } else {
                    self
                },
                DetailFocus::Notes => if self.selected_block_notes.len() > 0 {
                    AppView {
                        note_list_selected: Some(
                            half_down(self.note_list_selected, self.selected_block_notes.len()),
                        ),
                        ..self
                    }
                } else {
                    self
                },
            },
            _ => self.detail_rows_next(HALF_PAGE),
        }
    }

    pub open spec fn go_to_top(self) -> AppView {
        match self.active_pane {
            Pane::BlockList => if self.filtered().len() > 0 {
                AppView { block_list_selected: Some(0), ..self.push_nav() }
            } else {
                self
            },
            Pane::BlockDetail => match self.detail_focus {
                DetailFocus::Block => self.detail_rows_top(),
                DetailFocus::Txs => if self.selected_block_txs.len() > 0 {
                    AppView { tx_list_selected: Some(0), ..self }
                } else {
                    self
                },
                DetailFocus::Notes => if self.selected_block_notes.len() > 0 {
                    AppView { note_list_selected: Some(0), ..self }
                } else {
                    self
                },
            },
            _ => self.detail_rows_top(),
        }
    }

    pub open spec fn detail_rows_top(self) -> AppView {
        if self.detail_rows.len() > 0 {
            AppView { detail_row_selected: Some(0), ..self }
        } else {
            self
        }
    }

    pub open spec fn detail_rows_bottom(self) -> AppView {
        if self.detail_rows.len() > 0 {
            AppView { detail_row_selected: Some((self.detail_rows.len() - 1) as usize), ..self }
        } else {
            self
        }
    }

    pub open spec fn go_to_bottom(self) -> AppView {
        match self.active_pane {
            Pane::BlockList => if self.filtered().len() > 0 {
                AppView {
                    block_list_selected: Some((self.filtered().len() - 1) as usize),
                    ..self.push_nav()
                }
            } else {
                self
            },
            Pane::BlockDetail => match self.detail_focus {
                DetailFocus::Block => self.detail_rows_bottom(),
                DetailFocus::Txs => if self.selected_block_txs.len() > 0 {
                    AppView {
                        tx_list_selected: Some((self.selected_block_txs.len() - 1) as usize),
                        ..self
                    }
                } else {
                    self
                },
                DetailFocus::Notes => if self.selected_block_notes.len() > 0 {
                    AppView {
                        note_list_selected: Some((self.selected_block_notes.len() - 1) as usize),
                        ..self
                    }
                } else {
                    self
                },
            },
            _ => self.detail_rows_bottom(),
        }
    }

    /// Jumps to the block numbered `bn`, or else to the nearest lower one shown.
    pub open spec fn search(self, bn: u32) -> AppView {
        let s = self.push_nav();
        match find_filtered(s.blocks, s.filtered(), bn, false, 0) {
            Some(fi) => AppView { block_list_selected: Some(fi as usize), ..s },
            None => s,
        }
    }

    pub open spec fn cycle_filter(self) -> AppView {
        let s = AppView { filter: filter_next(self.filter), ..self };
        AppView {
            block_list_selected: if s.filtered().len() == 0 {
                None
            } else {
                Some(0)
            },
            ..s
        }
    }

    pub open spec fn switch_detail_focus(self) -> AppView {
        if self.active_pane == Pane::BlockDetail {
            let focus = focus_next(self.detail_focus);
            let s = AppView { detail_focus: focus, ..self };
            match focus {
                DetailFocus::Block => if s.detail_row_selected is None && s.detail_rows.len() > 0 {
                    AppView { detail_row_selected: Some(0), ..s }
                } else {
                    s
                },
                DetailFocus::Txs => if s.tx_list_selected is None && s.selected_block_txs.len()
                    > 0 {
                    AppView { tx_list_selected: Some(0), ..s }
                } else {
                    s
                },
                DetailFocus::Notes => if s.note_list_selected is None
                    && s.selected_block_notes.len() > 0 {
                    AppView { note_list_selected: Some(0), ..s }
                } else {
                    s
                },
            }
        } else {
            self
        }
    }

    /// The state after `action`.
    pub open spec fn step(self, action: Action) -> AppView {
        match action {
            Action::Tick => self,
            Action::ScrollUp => self,
            Action::ScrollDown => self,
            Action::ToggleErrorLog => self.toggle_error_log(),
            Action::ClearErrorLog => self.clear_error_log(),
            Action::Quit => AppView { should_quit: true, ..self },
            Action::Up(n) => self.up(n),
            Action::Down(n) => self.down(n),
            Action::Enter => self.enter(),
            Action::Back => self.back(),
            Action::NavBack => self.nav_back_step(),
            Action::NavForward => self.nav_forward_step(),
            Action::NewBlockReceived { block, transactions, notes } => self.new_block(
                block,
                transactions@,
                notes@,
            ),
            Action::BatchBlocksLoaded { blocks } => self.batch_loaded(blocks@),
            Action::SyncError(msg) => AppView { error_log: self.error_log.push(msg@), ..self },
            Action::HalfPageUp => self.half_page_up(),
            Action::HalfPageDown => self.half_page_down(),
            Action::GoToTop => self.go_to_top(),
            Action::GoToBottom => self.go_to_bottom(),
            Action::SearchBlock(bn) => self.search(bn),
            Action::CycleFilter => self.cycle_filter(),
            Action::ToggleHelp => AppView { show_help: !self.show_help, ..self },
            Action::LoadProgress { current, target } => AppView {
                load_progress: Some((current, target)),
                ..self
            },
            Action::SyncProgress { current, target } => AppView {
                load_progress: None,
                sync_progress: Some((current, target)),
                sync_done: false,
                ..self
            },
            Action::SyncDone => AppView { sync_done: true, ..self },
            Action::Latency(ms) => AppView { latency_ms: Some(ms), ..self },
            Action::ToggleExpandHashes => AppView { expand_hashes: !self.expand_hashes, ..self },
            Action::CopyHash => self,
            Action::SwitchDetailFocus => self.switch_detail_focus(),
        }
    }

    /// `action` can be applied without an arithmetic overflow.
    pub open spec fn step_fits(self, action: Action) -> bool {
        match action {
            Action::Down(n) => self.down_fits(n),
            Action::HalfPageDown => self.half_page_down_fits(),
            _ => true,
        }
    }

    /// The value that copying takes from the current view: the selected detail row's
    /// value, or the id of the selected transaction or note.
    pub open spec fn copy_value(self) -> Option<Seq<char>> {
        match self.active_pane {
            Pane::BlockDetail => match self.detail_focus {
                DetailFocus::Block => self.selected_detail_value(),
                DetailFocus::Txs => match self.selected_tx() {
                    Some(t) => Some(t.tx_id@),
                    None => None,
                },
                DetailFocus::Notes => match self.selected_note() {
                    Some(n) => Some(n.note_id@),
                    None => None,
                },
            },
            Pane::TxDetail | Pane::NoteDetail => self.selected_detail_value(),
            _ => None,
        }
    }

    pub open spec fn selected_detail_value(self) -> Option<Seq<char>> {
        match self.detail_row_selected {
            Some(i) => if i < self.detail_rows.len() {
                Some(self.detail_rows[i as int].1)
            } else {
                None
            },
            None => None,
        }
    }

    pub open spec fn selected_tx(self) -> Option<TransactionInfo> {
        match self.tx_list_selected {
            Some(i) => if i < self.selected_block_txs.len() {
                Some(self.selected_block_txs[i as int])
            } else {
                None
            },
            None => None,
        }
    }

    pub open spec fn selected_note(self) -> Option<NoteInfo> {
        match self.note_list_selected {
            Some(i) => if i < self.selected_block_notes.len() {
                Some(self.selected_block_notes[i as int])
            } else {
                None
            },
            None => None,
        }
    }

    /// The pinned block, or else the block highlighted in the filtered list.
    pub open spec fn selected_block(self) -> Option<BlockInfo> {
        match self.browsing_block_num {
            Some(bn) => match find_block_from(self.blocks, bn, 0) {
                Some(i) => Some(self.blocks[i as int]),
                None => None,
            },
            None => match self.block_list_selected {
                Some(fi) => if fi < self.filtered().len() && self.filtered()[fi as int]
                    < self.blocks.len() {
                    Some(self.blocks[self.filtered()[fi as int] as int])
                } else {
                    None
                },
                None => None,
            },
        }
    }

    // -----------------------------------------------------------------------
    // Keys
    // -----------------------------------------------------------------------

    /// The typed count, and the state with the count consumed.
    pub open spec fn take_count(self) -> (AppView, usize) {
        if self.count_buf.len() == 0 {
            (self, 1)
        } else {
            (AppView { count_buf: seq![], ..self }, count_value(self.count_buf))
        }
    }

    /// What a key does while the error log is open.
    pub open spec fn error_log_key(code: KeyCode) -> Option<Action> {
        match code {
            KeyCode::Char('!') | KeyCode::Esc => Some(Action::ToggleErrorLog),
            KeyCode::Char('q') => Some(Action::Quit),
            KeyCode::Char('j') | KeyCode::Down => Some(Action::Down(1)),
            KeyCode::Char('k') | KeyCode::Up => Some(Action::Up(1)),
            KeyCode::Char('c') => Some(Action::ClearErrorLog),
            _ => None,
        }
    }

    /// What a key does while a block number is being typed.
    pub open spec fn search_key(self, input: Seq<char>, code: KeyCode) -> (AppView, Option<Action>) {
        match code {
            KeyCode::Esc => (AppView { search_input: None, ..self }, None),
            KeyCode::Enter => (
                AppView { search_input: None, ..self },
                match parse_unsigned(input, u32::MAX as nat) {
                    Some(v) => Some(Action::SearchBlock(v as u32)),
                    None => None,
                },
            ),
            KeyCode::Backspace => {
                let rest = if input.len() > 0 {
                    input.drop_last()
                } else {
                    input
                };
                (
                    AppView {
                        search_input: if rest.len() == 0 {
                            None
                        } else {
                            Some(rest)
                        },
                        ..self
                    },
                    None,
                )
            },
            KeyCode::Char(c) => if '0' <= c && c <= '9' {
                (AppView { search_input: Some(input.push(c)), ..self }, None)
            } else {
                (self, None)
            },
            _ => (self, None),
        }
    }

    /// What a key does in a pane once modifiers, sequences and counts are handled.
    pub open spec fn pane_key(self, code: KeyCode, count: usize) -> (AppView, Option<Action>) {
        match self.active_pane {
            Pane::BlockList => match code {
                KeyCode::Char('q') => (self, Some(Action::Quit)),
                KeyCode::Char('j') | KeyCode::Down => (self, Some(Action::Down(count))),
                KeyCode::Char('k') | KeyCode::Up => (self, Some(Action::Up(count))),
                KeyCode::Enter | KeyCode::Char('l') | KeyCode::Right => (self, Some(Action::Enter)),
                KeyCode::Char('/') => (AppView { search_input: Some(seq![]), ..self }, None),
                KeyCode::Char('f') => (self, Some(Action::CycleFilter)),
                _ => (self, None),
            },
            Pane::BlockDetail | Pane::TxDetail => match code {
                KeyCode::Char('q') => (self, Some(Action::Quit)),
                KeyCode::Esc | KeyCode::Char('h') | KeyCode::Left | KeyCode::Backspace => (
                    self,
                    Some(Action::Back),
                ),
                KeyCode::Char('j') | KeyCode::Down => (self, Some(Action::Down(count))),
                KeyCode::Char('k') | KeyCode::Up => (self, Some(Action::Up(count))),
                KeyCode::Enter | KeyCode::Char('l') | KeyCode::Right => (self, Some(Action::Enter)),
                KeyCode::Char('e') => (self, Some(Action::ToggleExpandHashes)),
                KeyCode::Char('y') => (self, Some(Action::CopyHash)),
                _ => (self, None),
            },
            Pane::NoteDetail => match code {
                KeyCode::Char('q') => (self, Some(Action::Quit)),
                KeyCode::Esc | KeyCode::Char('h') | KeyCode::Left | KeyCode::Backspace => (
                    self,
                    Some(Action::Back),
                ),
                KeyCode::Char('j') | KeyCode::Down => (self, Some(Action::Down(count))),
                KeyCode::Char('k') | KeyCode::Up => (self, Some(Action::Up(count))),
                KeyCode::Char('e') => (self, Some(Action::ToggleExpandHashes)),
                KeyCode::Char('y') => (self, Some(Action::CopyHash)),
                _ => (self, None),
            },
        }
    }

    /// The state after a key press and the action it asks for.
    pub open spec fn key(self, k: KeyPress) -> (AppView, Option<Action>) {
        if k.control && k.code == KeyCode::Char('c') {
            (self, Some(Action::Quit))
        } else if self.show_help {
            (self, Some(Action::ToggleHelp))
        } else if self.show_error_log {
            (self, AppView::error_log_key(k.code))
        } else if self.search_input is Some {
            self.search_key(self.search_input->0, k.code)
        } else if k.code == KeyCode::Char('?') {
            (self, Some(Action::ToggleHelp))
        } else if k.code == KeyCode::Char('!') {
            (self, Some(Action::ToggleErrorLog))
        } else if k.control && k.code == KeyCode::Char('u') {
            (AppView { pending_g: false, ..self }, Some(Action::HalfPageUp))
        } else if k.control && k.code == KeyCode::Char('d') {
            (AppView { pending_g: false, ..self }, Some(Action::HalfPageDown))
        } else if k.control && k.code == KeyCode::Char('o') {
            (AppView { pending_g: false, ..self }, Some(Action::NavBack))
        } else if k.control && k.code == KeyCode::Char('i') {
            (AppView { pending_g: false, ..self }, Some(Action::NavForward))
        } else if k.code == KeyCode::Tab {
            (
                AppView { pending_g: false, ..self },
                Some(
                    if self.active_pane == Pane::BlockDetail {
                        Action::SwitchDetailFocus
                    } else {
                        Action::NavForward
                    },
                ),
            )
        } else if k.code == KeyCode::Char('g') && !k.shift {
            if self.pending_g {
                (AppView { pending_g: false, ..self }, Some(Action::GoToTop))
            } else {
                (AppView { pending_g: true, ..self }, None)
            }
        } else if k.code == KeyCode::Char('G') {
            (AppView { pending_g: false, ..self }, Some(Action::GoToBottom))
        } else {
            let s = AppView { pending_g: false, ..self };
            match k.code {
                KeyCode::Char(c) if '0' <= c && c <= '9' && !k.control => (
                    AppView { count_buf: s.count_buf.push(c), ..s },
                    None,
                ),
                _ => {
                    let (s2, count) = s.take_count();
                    s2.pane_key(k.code, count)
                },
            }
        }
    }
}

} // verus!
