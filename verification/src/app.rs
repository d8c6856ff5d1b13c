//! The explorer's state and the way keys and actions change it.
use std::collections::HashMap;
use std::time::Instant;

use vstd::prelude::*;

use crate::action::Action;
use crate::event::{Event, KeyCode, KeyPress};
use crate::model::{
    advance_fits, filter_next, filtered, filtered_upto, find_block_from,
    find_filtered, focus_next, insert_pos, insert_pos_from, lemma_filtered,
    sel_next, sel_or_zero, sel_prev,
    AppView, HALF_PAGE,
};
use crate::text::{parse_unsigned, parse_usize, parse_u32, string_pop, string_push};
use crate::types::{BlockInfo, NoteInfo, TransactionInfo};

verus! {

broadcast use vstd::std_specs::hash::group_hash_axioms;

#[verifier::external_type_specification]
#[verifier::external_body]
pub struct ExInstant(Instant);

/// `Instant::now`: the current reading of the monotonic clock.
#[verifier::external_body]
fn instant_now() -> Instant {
    Instant::now()
}

#[derive(Debug, Clone, Copy, PartialEq, Eq, Structural)]
pub enum BlockFilter {
    All,
    WithTransactions,
    WithNotes,
}

impl BlockFilter {
    pub fn next(self) -> (r: Self)
        ensures
            r == filter_next(self),
    {
        match self {
            Self::All => Self::WithTransactions,
            Self::WithTransactions => Self::WithNotes,
            Self::WithNotes => Self::All,
        }
    }

    /// The label shown in the title bar.
    pub fn label(self) -> (r: &'static str)
        ensures
            r@ == filter_label(self),
    {
        match self {
            Self::All => "All",
            Self::WithTransactions => "Has txs",
            Self::WithNotes => "Has notes",
        }
    }
}

/// The title-bar label of a filter.
pub open spec fn filter_label(f: BlockFilter) -> Seq<char> {
    match f {
        BlockFilter::All => "All"@,
        BlockFilter::WithTransactions => "Has txs"@,
        BlockFilter::WithNotes => "Has notes"@,
    }
}

#[derive(Debug, Clone, Copy, PartialEq, Eq, Structural)]
pub enum Pane {
    BlockList,
    BlockDetail,
    TxDetail,
    NoteDetail,
}

/// Which sub-panel has focus within the BlockDetail view.
#[derive(Debug, Clone, Copy, PartialEq, Eq, Structural)]
pub enum DetailFocus {
    Block,
    Txs,
    Notes,
}

impl DetailFocus {
    pub fn next(self) -> (r: Self)
        ensures
            r == focus_next(self),
    {
        match self {
            Self::Block => Self::Txs,
            Self::Txs => Self::Notes,
            Self::Notes => Self::Block,
        }
    }
}

/// A position in the navigation history.
#[derive(Debug, Clone, Copy, PartialEq, Eq, Structural)]
pub struct NavEntry {
    pub pane: Pane,
    pub browsing_block_num: Option<u32>,
    pub block_list_selected: Option<usize>,
    pub tx_list_selected: Option<usize>,
    pub note_list_selected: Option<usize>,
    pub detail_scroll: u16,
    pub detail_focus: DetailFocus,
    pub detail_row_selected: Option<usize>,
}

pub struct App {
    pub active_pane: Pane,
    pub blocks: Vec<BlockInfo>,
    /// Selected row of the (filtered) block list
    pub block_list_selected: Option<usize>,
    pub block_transactions: HashMap<u32, Vec<TransactionInfo>>,
    pub block_notes: HashMap<u32, Vec<NoteInfo>>,
    /// The block number currently being browsed (pinned across new block arrivals)
    pub browsing_block_num: Option<u32>,
    pub selected_block_txs: Vec<TransactionInfo>,
    pub selected_block_notes: Vec<NoteInfo>,
    pub tx_list_selected: Option<usize>,
    pub note_list_selected: Option<usize>,
    pub error_log: Vec<String>,
    pub error_list_selected: Option<usize>,
    pub show_error_log: bool,
    pub should_quit: bool,
    pub detail_scroll: u16,
    /// Tracks a pending 'g' keypress for the gg sequence
    pub pending_g: bool,
    /// Numeric prefix for vim-style count (e.g. 200j)
    pub count_buf: String,
    pub show_help: bool,
    /// Navigation history for Ctrl+o / Ctrl+i
    pub nav_back: Vec<NavEntry>,
    pub nav_forward: Vec<NavEntry>,
    /// Sync progress for status bar display
    pub sync_progress: Option<(u32, u32)>,
    /// Search input state: when Some, the user is typing a block number
    pub search_input: Option<String>,
    /// Active block list filter
    pub filter: BlockFilter,
    /// Block number and time of the most recently received block (for flash highlight)
    pub last_received_block: Option<(u32, Instant)>,
    /// Loading from DB progress
    pub load_progress: Option<(u32, u32)>,
    /// Whether sync has caught up to the target
    pub sync_done: bool,
    /// Network name derived from the RPC URL
    pub network: String,
    /// Last measured RPC latency in milliseconds
    pub latency_ms: Option<u64>,
    /// Whether to show full hex hashes or truncated
    pub expand_hashes: bool,
    /// Which sub-panel has focus in BlockDetail
    pub detail_focus: DetailFocus,
    /// Clipboard status message (shown briefly)
    pub clipboard_flash: Option<(String, Instant)>,
    /// Row selection for detail views (TxDetail, NoteDetail)
    pub detail_row_selected: Option<usize>,
    /// The key-value rows currently displayed in the detail view (for copy)
    pub detail_rows: Vec<(String, String)>,
}

pub open spec fn opt_string_view(s: Option<String>) -> Option<Seq<char>> {
    match s {
        Some(v) => Some(v@),
        None => None,
    }
}

pub open spec fn rows_view(rows: Seq<(String, String)>) -> Seq<(Seq<char>, Seq<char>)> {
    rows.map_values(|r: (String, String)| (r.0@, r.1@))
}

pub open spec fn strings_view(v: Seq<String>) -> Seq<Seq<char>> {
    v.map_values(|s: String| s@)
}

impl View for App {
    type V = AppView;

    open spec fn view(&self) -> AppView {
        AppView {
            active_pane: self.active_pane,
            blocks: self.blocks@,
            block_list_selected: self.block_list_selected,
            block_transactions: self.block_transactions@.map_values(
                |v: Vec<TransactionInfo>| v@,
            ),
            block_notes: self.block_notes@.map_values(|v: Vec<NoteInfo>| v@),
            browsing_block_num: self.browsing_block_num,
            selected_block_txs: self.selected_block_txs@,
            selected_block_notes: self.selected_block_notes@,
            tx_list_selected: self.tx_list_selected,
            note_list_selected: self.note_list_selected,
            error_log: strings_view(self.error_log@),
            error_list_selected: self.error_list_selected,
            show_error_log: self.show_error_log,
            should_quit: self.should_quit,
            detail_scroll: self.detail_scroll,
            pending_g: self.pending_g,
            count_buf: self.count_buf@,
            show_help: self.show_help,
            nav_back: self.nav_back@,
            nav_forward: self.nav_forward@,
            sync_progress: self.sync_progress,
            search_input: opt_string_view(self.search_input),
            filter: self.filter,
            last_received_block: match self.last_received_block {
                Some(p) => Some(p.0),
                None => None,
            },
            load_progress: self.load_progress,
            sync_done: self.sync_done,
            network: self.network@,
            latency_ms: self.latency_ms,
            expand_hashes: self.expand_hashes,
            detail_focus: self.detail_focus,
            clipboard_flash: match self.clipboard_flash {
                Some(p) => Some(p.0@),
                None => None,
            },
            detail_row_selected: self.detail_row_selected,
            detail_rows: rows_view(self.detail_rows@),
        }
    }
}

/// Copies a list of transactions.
fn copy_txs(v: &Vec<TransactionInfo>) -> (r: Vec<TransactionInfo>)
    ensures
        r@ == v@,
{
    let r = v.clone();
    assert(r@ =~= v@);
    r
}

/// Copies a list of notes.
fn copy_notes(v: &Vec<NoteInfo>) -> (r: Vec<NoteInfo>)
    ensures
        r@ == v@,
{
    let r = v.clone();
    assert(r@ =~= v@);
    r
}

impl App {
    pub fn new(network: String) -> (app: Self)
        ensures
            app@ == AppView::initial(network@),
    {
        let app = Self {
            active_pane: Pane::BlockList,
            blocks: Vec::new(),
            block_list_selected: None,
            block_transactions: HashMap::new(),
            block_notes: HashMap::new(),
            browsing_block_num: None,
            selected_block_txs: Vec::new(),
            selected_block_notes: Vec::new(),
            tx_list_selected: None,
            note_list_selected: None,
            error_log: Vec::new(),
            error_list_selected: None,
            show_error_log: false,
            should_quit: false,
            detail_scroll: 0,
            pending_g: false,
            count_buf: String::new(),
            show_help: false,
            nav_back: Vec::new(),
            nav_forward: Vec::new(),
            sync_progress: None,
            search_input: None,
            filter: BlockFilter::All,
            last_received_block: None,
            load_progress: None,
            sync_done: false,
            network,
            latency_ms: None,
            expand_hashes: false,
            detail_focus: DetailFocus::Block,
            clipboard_flash: None,
            detail_row_selected: None,
            detail_rows: Vec::new(),
        };
        assert(app@ =~= AppView::initial(network@));
        app
    }

    /// Returns indices into `self.blocks` that match the current filter
    pub fn filtered_indices(&self) -> (r: Vec<usize>)
        ensures
            r@ == filtered(self.blocks@, self.filter),
    {
        let mut r: Vec<usize> = Vec::new();
        let mut i: usize = 0;
        while i < self.blocks.len()
            invariant
                i <= self.blocks@.len(),
                r@ == filtered_upto(self.blocks@, self.filter, i as nat),
            decreases self.blocks@.len() - i,
        {
            let b = &self.blocks[i];
            let keep = match self.filter {
                BlockFilter::All => true,
                BlockFilter::WithTransactions => b.tx_count > 0,
                BlockFilter::WithNotes => b.note_count > 0,
            };
            if keep {
                r.push(i);
            }
            i = i + 1;
        }
        r
    }

    /// The first position `p >= 0` in `fidx` whose block number equals (`exact`)
    /// or is at most `bn`.
    fn find_in_filtered(&self, fidx: &Vec<usize>, bn: u32, exact: bool) -> (r: Option<usize>)
        requires
            fidx@ == filtered(self.blocks@, self.filter),
        ensures
            match r {
                Some(p) => find_filtered(self.blocks@, fidx@, bn, exact, 0) == Some(p as nat),
                None => find_filtered(self.blocks@, fidx@, bn, exact, 0) is None,
            },
    {
        let _blen = self.blocks.len();
        proof {
            lemma_filtered(self.blocks@, self.filter);
        }
        let mut i: usize = 0;
        while i < fidx.len()
            invariant
                i <= fidx@.len(),
                fidx@ == filtered(self.blocks@, self.filter),
                forall|j: int| 0 <= j < fidx@.len() ==> #[trigger] fidx@[j] < self.blocks@.len(),
                find_filtered(self.blocks@, fidx@, bn, exact, 0) == find_filtered(
                    self.blocks@,
                    fidx@,
                    bn,
                    exact,
                    i as nat,
                ),
            decreases fidx@.len() - i,
        {
            let b = self.blocks[fidx[i]].block_num;
            if (exact && b == bn) || (!exact && b <= bn) {
                return Some(i);
            }
            i = i + 1;
        }
        None
    }

    /// Where a block numbered `bn` goes in the newest-first list.
    fn find_insert_pos(&self, bn: u32) -> (r: usize)
        ensures
            r as nat == insert_pos(self.blocks@, bn),
            r <= self.blocks@.len(),
    {
        let mut i: usize = 0;
        while i < self.blocks.len()
            invariant
                i <= self.blocks@.len(),
                insert_pos(self.blocks@, bn) == insert_pos_from(self.blocks@, bn, i as nat),
            decreases self.blocks@.len() - i,
        {
            if self.blocks[i].block_num <= bn {
                return i;
            }
            i = i + 1;
        }
        i
    }

    fn insert_block(
        &mut self,
        block: BlockInfo,
        transactions: Vec<TransactionInfo>,
        notes: Vec<NoteInfo>,
    )
        ensures
            final(self)@ == old(self)@.insert_block(block, transactions@, notes@),
    {
        let block_num = block.block_num;
        let mut updated_block = block;
        updated_block.tx_count = transactions.len();
        updated_block.note_count = notes.len();
        let pos = self.find_insert_pos(block_num);
        if pos < self.blocks.len() && self.blocks[pos].block_num == block_num {
            self.blocks.set(pos, updated_block);
        } else {
            self.blocks.insert(pos, updated_block);
        }
        let ghost tx_view = transactions@;
        let ghost note_view = notes@;
        self.block_transactions.insert(block_num, transactions);
        self.block_notes.insert(block_num, notes);
        proof {
            assert(self.block_transactions@.map_values(|v: Vec<TransactionInfo>| v@)
                =~= old(self)@.block_transactions.insert(block_num, tx_view));
            assert(self.block_notes@.map_values(|v: Vec<NoteInfo>| v@)
                =~= old(self)@.block_notes.insert(block_num, note_view));
        }
        assert(self@ =~= old(self)@.insert_block(block, tx_view, note_view));
    }

    /// Get the block number currently selected in the filtered block list
    fn selected_block_num_filtered(&self) -> (r: Option<u32>)
        ensures
            r == self@.selected_block_num_filtered(),
    {
        let filtered = self.filtered_indices();
        match self.block_list_selected {
            Some(fi) => {
                if fi < filtered.len() && filtered[fi] < self.blocks.len() {
                    Some(self.blocks[filtered[fi]].block_num)
                } else {
                    None
                }
            },
            None => None,
        }
    }

    fn snapshot(&self) -> (e: NavEntry)
        ensures
            e == self@.snapshot(),
    {
        NavEntry {
            pane: self.active_pane,
            browsing_block_num: self.browsing_block_num,
            block_list_selected: self.block_list_selected,
            tx_list_selected: self.tx_list_selected,
            note_list_selected: self.note_list_selected,
            detail_scroll: self.detail_scroll,
            detail_focus: self.detail_focus,
            detail_row_selected: self.detail_row_selected,
        }
    }

    fn push_nav(&mut self)
        ensures
            final(self)@ == old(self)@.push_nav(),
    {
        let e = self.snapshot();
        self.nav_back.push(e);
        self.nav_forward = Vec::new();
        assert(self@ =~= old(self)@.push_nav());
    }

    fn txs_of(&self, bn: u32) -> (r: Vec<TransactionInfo>)
        ensures
            r@ == self@.txs_of(bn),
    {
        match self.block_transactions.get(&bn) {
            Some(v) => copy_txs(v),
            None => Vec::new(),
        }
    }

    fn notes_of(&self, bn: u32) -> (r: Vec<NoteInfo>)
        ensures
            r@ == self@.notes_of(bn),
    {
        match self.block_notes.get(&bn) {
            Some(v) => copy_notes(v),
            None => Vec::new(),
        }
    }

    fn restore_nav(&mut self, entry: NavEntry)
        ensures
            final(self)@ == old(self)@.restore(entry),
            entry.browsing_block_num matches Some(bn) ==> final(self)@.selected_block_txs == old(
                self,
            )@.txs_of(bn) && final(self)@.selected_block_notes == old(self)@.notes_of(bn),
    {
        self.active_pane = entry.pane;
        self.browsing_block_num = entry.browsing_block_num;
        self.block_list_selected = entry.block_list_selected;
        self.detail_scroll = entry.detail_scroll;
        self.detail_focus = entry.detail_focus;
        if let Some(bn) = entry.browsing_block_num {
            self.selected_block_txs = self.txs_of(bn);
            self.selected_block_notes = self.notes_of(bn);
            self.tx_list_selected = entry.tx_list_selected;
            self.note_list_selected = entry.note_list_selected;
        }
        self.detail_row_selected = entry.detail_row_selected;
        assert(self@ =~= old(self)@.restore(entry));
    }

    /// Pin the detail view to a specific block number
    fn browse_block(&mut self, block_num: u32)
        ensures
            final(self)@ == old(self)@.browse(block_num),
    {
        self.browsing_block_num = Some(block_num);
        self.selected_block_txs = self.txs_of(block_num);
        self.selected_block_notes = self.notes_of(block_num);
        self.tx_list_selected = None;
        self.note_list_selected = None;
        self.detail_focus = DetailFocus::Block;
        self.detail_row_selected = Some(0);
        self.detail_rows = Vec::new();
        if self.selected_block_txs.len() > 0 {
            self.tx_list_selected = Some(0);
        }
        if self.selected_block_notes.len() > 0 {
            self.note_list_selected = Some(0);
        }
        assert(self@ =~= old(self)@.browse(block_num));
    }

    /// Enter a detail view (TxDetail or NoteDetail), resetting row selection
    fn enter_detail_view(&mut self, pane: Pane)
        ensures
            final(self)@ == old(self)@.enter_detail(pane),
    {
        self.active_pane = pane;
        self.detail_row_selected = Some(0);
        self.detail_rows = Vec::new();
        assert(self@ =~= old(self)@.enter_detail(pane));
    }
}

impl App {
    fn filtered_len(&self) -> (r: usize)
        ensures
            r as nat == self@.filtered().len(),
    {
        self.filtered_indices().len()
    }

    fn move_up(&mut self, n: usize)
        ensures
            final(self)@ == old(self)@.up(n),
    {
        if self.show_error_log {
            self.error_list_selected = select_prev(self.error_list_selected, n, self.error_log.len());
            proof { assert(self@ =~= old(self)@.up(n)); }
            return;
        }
        match self.active_pane {
            Pane::BlockList => {
                if n > 1 {
                    self.push_nav();
                }
                let flen = self.filtered_len();
                self.block_list_selected = select_prev(self.block_list_selected, n, flen);
            },
            Pane::BlockDetail => match self.detail_focus {
                DetailFocus::Block => {
                    self.detail_row_selected = select_prev(
                        self.detail_row_selected,
                        n,
                        self.detail_rows.len(),
                    );
                },
                DetailFocus::Txs => {
                    self.tx_list_selected = select_prev(
                        self.tx_list_selected,
                        n,
                        self.selected_block_txs.len(),
                    );
                },
                DetailFocus::Notes => {
                    self.note_list_selected = select_prev(
                        self.note_list_selected,
                        n,
                        self.selected_block_notes.len(),
                    );
                },
            },
            _ => {
                self.detail_row_selected = select_prev(
                    self.detail_row_selected,
                    n,
                    self.detail_rows.len(),
                );
            },
        }
        proof { assert(self@ =~= old(self)@.up(n)); }
    }

    fn move_down(&mut self, n: usize)
        requires
            old(self)@.down_fits(n),
        ensures
            final(self)@ == old(self)@.down(n),
    {
        if self.show_error_log {
            self.error_list_selected = select_next(self.error_list_selected, n, self.error_log.len());
            proof { assert(self@ =~= old(self)@.down(n)); }
            return;
        }
        match self.active_pane {
            Pane::BlockList => {
                if n > 1 {
                    self.push_nav();
                }
                let flen = self.filtered_len();
                self.block_list_selected = select_next(self.block_list_selected, n, flen);
            },
            Pane::BlockDetail => match self.detail_focus {
                DetailFocus::Block => {
                    self.detail_row_selected = select_next(
                        self.detail_row_selected,
                        n,
                        self.detail_rows.len(),
                    );
                },
                DetailFocus::Txs => {
                    self.tx_list_selected = select_next(
                        self.tx_list_selected,
                        n,
                        self.selected_block_txs.len(),
                    );
                },
                DetailFocus::Notes => {
                    self.note_list_selected = select_next(
                        self.note_list_selected,
                        n,
                        self.selected_block_notes.len(),
                    );
                },
            },
            _ => {
                self.detail_row_selected = select_next(
                    self.detail_row_selected,
                    n,
                    self.detail_rows.len(),
                );
            },
        }
        proof { assert(self@ =~= old(self)@.down(n)); }
    }

    fn enter(&mut self)
        ensures
            final(self)@ == old(self)@.enter(),
    {
        match self.active_pane {
            Pane::BlockList => {
                let filtered = self.filtered_indices();
                let _blen = self.blocks.len();
                proof {
                    lemma_filtered(self.blocks@, self.filter);
                }
                if let Some(fi) = self.block_list_selected {
                    if fi < filtered.len() {
                        let real_idx = filtered[fi];
                        let block_num = self.blocks[real_idx].block_num;
                        self.push_nav();
                        self.browse_block(block_num);
                        self.active_pane = Pane::BlockDetail;
                    }
                }
            },
            Pane::BlockDetail => match self.detail_focus {
                DetailFocus::Block => {},
                DetailFocus::Notes => {
                    if let Some(idx) = self.note_list_selected {
                        if idx < self.selected_block_notes.len() {
                            self.push_nav();
                            self.enter_detail_view(Pane::NoteDetail);
                        }
                    }
                },
                DetailFocus::Txs => {
                    if let Some(idx) = self.tx_list_selected {
                        if idx < self.selected_block_txs.len() {
                            self.push_nav();
                            self.enter_detail_view(Pane::TxDetail);
                        }
                    }
                },
            },
            Pane::TxDetail => {
                if self.selected_block_notes.len() > 0 {
                    self.push_nav();
                    if self.note_list_selected.is_none() {
                        self.note_list_selected = Some(0);
                    }
                    self.enter_detail_view(Pane::NoteDetail);
                }
            },
            Pane::NoteDetail => {},
        }
        proof { assert(self@ =~= old(self)@.enter()); }
    }

    fn back(&mut self)
        ensures
            final(self)@ == old(self)@.back(),
    {
        match self.active_pane {
            Pane::BlockDetail => {
                self.push_nav();
                self.browsing_block_num = None;
                self.active_pane = Pane::BlockList;
            },
            Pane::TxDetail | Pane::NoteDetail => {
                self.push_nav();
                self.active_pane = Pane::BlockDetail;
                self.detail_scroll = 0;
            },
            Pane::BlockList => {},
        }
        proof { assert(self@ =~= old(self)@.back()); }
    }

    fn nav_back_step(&mut self)
        ensures
            final(self)@ == old(self)@.nav_back_step(),
    {
        if let Some(entry) = self.nav_back.pop() {
            let snap = self.snapshot();
            self.nav_forward.push(snap);
            proof {
                assert(self@ =~= AppView {
                    nav_back: old(self)@.nav_back.drop_last(),
                    nav_forward: old(self)@.nav_forward.push(old(self)@.snapshot()),
                    ..old(self)@
                });
            }
            self.restore_nav(entry);
        }
    }

    fn nav_forward_step(&mut self)
        ensures
            final(self)@ == old(self)@.nav_forward_step(),
    {
        if let Some(entry) = self.nav_forward.pop() {
            let snap = self.snapshot();
            self.nav_back.push(snap);
            proof {
                assert(self@ =~= AppView {
                    nav_forward: old(self)@.nav_forward.drop_last(),
                    nav_back: old(self)@.nav_back.push(old(self)@.snapshot()),
                    ..old(self)@
                });
            }
            self.restore_nav(entry);
        }
    }

    fn reselect(&mut self, at_head: bool, selected_bn: Option<u32>)
        ensures
            final(self)@ == old(self)@.reselect(at_head, selected_bn),
    {
        let filtered = self.filtered_indices();
        if at_head || filtered.len() <= 1 {
            self.block_list_selected = Some(0);
        } else if let Some(bn) = selected_bn {
            if let Some(fi) = self.find_in_filtered(&filtered, bn, true) {
                self.block_list_selected = Some(fi);
            }
        }
        proof { assert(self@ =~= old(self)@.reselect(at_head, selected_bn)); }
    }

    fn new_block(
        &mut self,
        block: BlockInfo,
        transactions: Vec<TransactionInfo>,
        notes: Vec<NoteInfo>,
    )
        ensures
            final(self)@ == old(self)@.new_block(block, transactions@, notes@),
    {
        let at_head = self.block_list_selected == Some(0usize);
        let selected_bn = self.selected_block_num_filtered();
        let block_num = block.block_num;
        let ghost tv = transactions@;
        let ghost nv = notes@;
        self.insert_block(block, transactions, notes);
        self.last_received_block = Some((block_num, instant_now()));
        proof {
            assert(self@ =~= AppView {
                last_received_block: Some(block_num),
                ..old(self)@.insert_block(block, tv, nv)
            });
        }
        self.reselect(at_head, selected_bn);
    }

    fn batch_loaded(&mut self, blocks: Vec<(BlockInfo, Vec<TransactionInfo>, Vec<NoteInfo>)>)
        ensures
            final(self)@ == old(self)@.batch_loaded(blocks@),
    {
        let at_head = self.block_list_selected == Some(0usize) || self.block_list_selected.is_none();
        let selected_bn = self.selected_block_num_filtered();
        let ghost start = self@;
        let ghost all = blocks@;
        let mut rest = blocks;
        // insert in the order the batch lists them
        let mut pending: Vec<(BlockInfo, Vec<TransactionInfo>, Vec<NoteInfo>)> = Vec::new();
        while rest.len() > 0
            invariant
                pending@ + rest@.reverse() == all.reverse(),
            decreases rest@.len(),
        {
            let item = rest.pop().unwrap();
            proof {
                assert(pending@.push(item) + rest@.reverse() =~= pending@ + (rest@.push(item)).reverse());
            }
            pending.push(item);
        }
        assert(pending@ =~= all.reverse());
        while pending.len() > 0
            invariant
                self@ == start.insert_all(all.take(all.len() - pending@.len())),
                pending@.len() <= all.len(),
                forall|i: int| 0 <= i < pending@.len() ==> #[trigger] pending@[i] == all[all.len() - 1 - i],
            decreases pending@.len(),
        {
            let ghost before = pending@.len();
            let item = pending.pop().unwrap();
            let ghost idx = all.len() - before;
            proof {
                assert(item == all[idx]);
                assert(all.take(idx + 1).drop_last() =~= all.take(idx));
                assert(all.take(idx + 1).last() == all[idx]);
            }
            let (b, t, n) = item;
            self.insert_block(b, t, n);
        }
        assert(all.take(all.len() as int) =~= all);
        self.reselect(at_head, selected_bn);
    }
}

impl App {
    fn half_page_up(&mut self)
        ensures
            final(self)@ == old(self)@.half_page_up(),
    {
        match self.active_pane {
            Pane::BlockList => {
                let flen = self.filtered_len();
                if flen > 0 {
                    self.push_nav();
                    let current = match self.block_list_selected {
                        Some(i) => i,
                        None => 0,
                    };
                    self.block_list_selected = Some(current.saturating_sub(HALF_PAGE));
                }
            },
            Pane::BlockDetail => match self.detail_focus {
                DetailFocus::Block => {
                    self.detail_row_selected = select_prev(
                        self.detail_row_selected,
                        HALF_PAGE,
                        self.detail_rows.len(),
                    );
                },
                DetailFocus::Txs => {
                    let current = match self.tx_list_selected {
                        Some(i) => i,
                        None => 0,
                    };
                    self.tx_list_selected = Some(current.saturating_sub(HALF_PAGE));
                },
                DetailFocus::Notes => {
                    let current = match self.note_list_selected {
                        Some(i) => i,
                        None => 0,
                    };
                    self.note_list_selected = Some(current.saturating_sub(HALF_PAGE));
                },
            },
            _ => {
                self.detail_row_selected = select_prev(
                    self.detail_row_selected,
                    HALF_PAGE,
                    self.detail_rows.len(),
                );
            },
        }
        proof { assert(self@ =~= old(self)@.half_page_up()); }
    }

    fn half_page_down(&mut self)
        requires
            old(self)@.half_page_down_fits(),
        ensures
            final(self)@ == old(self)@.half_page_down(),
    {
        match self.active_pane {
            Pane::BlockList => {
                let flen = self.filtered_len();
                if flen > 0 {
                    self.push_nav();
                    let current = match self.block_list_selected {
                        Some(i) => i,
                        None => 0,
                    };
                    let t = current + HALF_PAGE;
                    self.block_list_selected = Some(
                        if t <= flen - 1 {
                            t
                        } else {
                            flen - 1
                        },
                    );
                }
            },
            Pane::BlockDetail => match self.detail_focus {
                DetailFocus::Block => {
                    self.detail_row_selected = select_next(
                        self.detail_row_selected,
                        HALF_PAGE,
                        self.detail_rows.len(),
                    );
                },
                DetailFocus::Txs => {
                    let len = self.selected_block_txs.len();
                    if len > 0 {
                        let current = match self.tx_list_selected {
                            Some(i) => i,
                            None => 0,
                        };
                        let t = current + HALF_PAGE;
                        self.tx_list_selected = Some(
                            if t <= len - 1 {
                                t
                            } else {
                                len - 1
                            },
                        );
                    }
                },
                DetailFocus::Notes => {
                    let len = self.selected_block_notes.len();
                    if len > 0 {
                        let current = match self.note_list_selected {
                            Some(i) => i,
                            None => 0,
                        };
                        let t = current + HALF_PAGE;
                        self.note_list_selected = Some(
                            if t <= len - 1 {
                                t
                            } else {
                                len - 1
                            },
                        );
                    }
                },
            },
            _ => {
                self.detail_row_selected = select_next(
                    self.detail_row_selected,
                    HALF_PAGE,
                    self.detail_rows.len(),
                );
            },
        }
        proof { assert(self@ =~= old(self)@.half_page_down()); }
    }

    fn go_to_top(&mut self)
        ensures
            final(self)@ == old(self)@.go_to_top(),
    {
        match self.active_pane {
            Pane::BlockList => {
                if self.filtered_len() > 0 {
                    self.push_nav();
                    self.block_list_selected = Some(0);
                }
            },
            Pane::BlockDetail => match self.detail_focus {
                DetailFocus::Block => {
                    if self.detail_rows.len() > 0 {
                        self.detail_row_selected = Some(0);
                    }
                },
                DetailFocus::Txs => {
                    if self.selected_block_txs.len() > 0 {
                        self.tx_list_selected = Some(0);
                    }
                },
                DetailFocus::Notes => {
                    if self.selected_block_notes.len() > 0 {
                        self.note_list_selected = Some(0);
                    }
                },
            },
            _ => {
                if self.detail_rows.len() > 0 {
                    self.detail_row_selected = Some(0);
                }
            },
        }
        proof { assert(self@ =~= old(self)@.go_to_top()); }
    }

    fn go_to_bottom(&mut self)
        ensures
            final(self)@ == old(self)@.go_to_bottom(),
    {
        match self.active_pane {
            Pane::BlockList => {
                let flen = self.filtered_len();
                if flen > 0 {
                    self.push_nav();
                    self.block_list_selected = Some(flen - 1);
                }
            },
            Pane::BlockDetail => match self.detail_focus {
                DetailFocus::Block => {
                    if self.detail_rows.len() > 0 {
                        self.detail_row_selected = Some(self.detail_rows.len() - 1);
                    }
                },
                DetailFocus::Txs => {
                    if self.selected_block_txs.len() > 0 {
                        self.tx_list_selected = Some(self.selected_block_txs.len() - 1);
                    }
                },
                DetailFocus::Notes => {
                    if self.selected_block_notes.len() > 0 {
                        self.note_list_selected = Some(self.selected_block_notes.len() - 1);
                    }
                },
            },
            _ => {
                if self.detail_rows.len() > 0 {
                    self.detail_row_selected = Some(self.detail_rows.len() - 1);
                }
            },
        }
        proof { assert(self@ =~= old(self)@.go_to_bottom()); }
    }

    fn search_block(&mut self, block_num: u32)
        ensures
            final(self)@ == old(self)@.search(block_num),
    {
        self.push_nav();
        let filtered = self.filtered_indices();
        if let Some(fi) = self.find_in_filtered(&filtered, block_num, false) {
            self.block_list_selected = Some(fi);
        }
        proof { assert(self@ =~= old(self)@.search(block_num)); }
    }

    fn cycle_filter(&mut self)
        ensures
            final(self)@ == old(self)@.cycle_filter(),
    {
        self.filter = self.filter.next();
        let flen = self.filtered_len();
        if flen == 0 {
            self.block_list_selected = None;
        } else {
            self.block_list_selected = Some(0);
        }
        proof { assert(self@ =~= old(self)@.cycle_filter()); }
    }

    fn switch_detail_focus(&mut self)
        ensures
            final(self)@ == old(self)@.switch_detail_focus(),
    {
        if self.active_pane == Pane::BlockDetail {
            self.detail_focus = self.detail_focus.next();
            match self.detail_focus {
                DetailFocus::Block => {
                    if self.detail_row_selected.is_none() && self.detail_rows.len() > 0 {
                        self.detail_row_selected = Some(0);
                    }
                },
                DetailFocus::Txs => {
                    if self.tx_list_selected.is_none() && self.selected_block_txs.len() > 0 {
                        self.tx_list_selected = Some(0);
                    }
                },
                DetailFocus::Notes => {
                    if self.note_list_selected.is_none() && self.selected_block_notes.len() > 0 {
                        self.note_list_selected = Some(0);
                    }
                },
            }
        }
        proof { assert(self@ =~= old(self)@.switch_detail_focus()); }
    }

    fn toggle_error_log(&mut self)
        ensures
            final(self)@ == old(self)@.toggle_error_log(),
    {
        self.show_error_log = !self.show_error_log;
        if self.show_error_log && self.error_log.len() > 0 {
            self.error_list_selected = Some(self.error_log.len() - 1);
        }
        proof { assert(self@ =~= old(self)@.toggle_error_log()); }
    }

    fn clear_error_log(&mut self)
        ensures
            final(self)@ == old(self)@.clear_error_log(),
    {
        self.error_log = Vec::new();
        self.error_list_selected = None;
        self.show_error_log = false;
        proof { assert(self@ =~= old(self)@.clear_error_log()); }
    }

    fn push_error(&mut self, msg: String)
        ensures
            final(self)@ == (AppView { error_log: old(self)@.error_log.push(msg@), ..old(self)@ }),
    {
        let ghost m = msg@;
        self.error_log.push(msg);
        proof {
            assert(strings_view(self.error_log@) =~= strings_view(old(self).error_log@).push(m));
            assert(self@ =~= AppView { error_log: old(self)@.error_log.push(m), ..old(self)@ });
        }
    }

    /// Whether `update` can apply `action` without an arithmetic overflow; a
    /// count so large that a selection would pass the largest `usize` cannot.
    pub fn can_apply(&self, action: &Action) -> (r: bool)
        ensures
            r == self@.step_fits(*action),
    {
        match action {
            Action::Down(n) => self.down_fits(*n),
            Action::HalfPageDown => self.half_page_down_fits(),
            _ => true,
        }
    }

    fn down_fits(&self, n: usize) -> (r: bool)
        ensures
            r == self@.down_fits(n),
    {
        if self.show_error_log {
            return fits(self.error_list_selected, n, self.error_log.len());
        }
        match self.active_pane {
            Pane::BlockList => fits(self.block_list_selected, n, self.filtered_len()),
            Pane::BlockDetail => match self.detail_focus {
                DetailFocus::Block => fits(self.detail_row_selected, n, self.detail_rows.len()),
                DetailFocus::Txs => fits(self.tx_list_selected, n, self.selected_block_txs.len()),
                DetailFocus::Notes => fits(
                    self.note_list_selected,
                    n,
                    self.selected_block_notes.len(),
                ),
            },
            _ => fits(self.detail_row_selected, n, self.detail_rows.len()),
        }
    }

    fn half_page_down_fits(&self) -> (r: bool)
        ensures
            r == self@.half_page_down_fits(),
    {
        match self.active_pane {
            Pane::BlockList => self.filtered_len() == 0 || fits_from_zero(
                self.block_list_selected,
                HALF_PAGE,
            ),
            Pane::BlockDetail => match self.detail_focus {
                DetailFocus::Block => fits(
                    self.detail_row_selected,
                    HALF_PAGE,
                    self.detail_rows.len(),
                ),
                DetailFocus::Txs => self.selected_block_txs.len() == 0 || fits_from_zero(
                    self.tx_list_selected,
                    HALF_PAGE,
                ),
                DetailFocus::Notes => self.selected_block_notes.len() == 0 || fits_from_zero(
                    self.note_list_selected,
                    HALF_PAGE,
                ),
            },
            _ => fits(self.detail_row_selected, HALF_PAGE, self.detail_rows.len()),
        }
    }
}

/// The view of an optional borrowed transaction.
pub open spec fn opt_ref_view<T>(r: Option<&T>) -> Option<T> {
    match r {
        Some(t) => Some(*t),
        None => None,
    }
}

impl App {
    #[verifier::spinoff_prover]
    #[verifier::rlimit(40)]
    /// Applies an action. For `CopyHash` it returns the value to put on the
    /// clipboard and changes nothing; for every other action it returns `None`.
    pub fn update(&mut self, action: Action) -> (copy: Option<String>)
        requires
            old(self)@.step_fits(action),
        ensures
            final(self)@ == old(self)@.step(action),
            opt_string_view(copy) == (if action is CopyHash {
                old(self)@.copy_value()
            } else {
                None
            }),
    {
        let ghost a = action;
        match action {
            Action::Tick => {},
            Action::ScrollUp => {},
            Action::ScrollDown => {},
            Action::ToggleErrorLog => self.toggle_error_log(),
            Action::ClearErrorLog => self.clear_error_log(),
            Action::Quit => {
                self.should_quit = true;
                proof { assert(self@ =~= old(self)@.step(a)); }
            },
            Action::Up(n) => self.move_up(n),
            Action::Down(n) => self.move_down(n),
            Action::Enter => self.enter(),
            Action::Back => self.back(),
            Action::NavBack => self.nav_back_step(),
            Action::NavForward => self.nav_forward_step(),
            Action::NewBlockReceived { block, transactions, notes } => {
                self.new_block(block, transactions, notes)
            },
            Action::BatchBlocksLoaded { blocks } => self.batch_loaded(blocks),
            Action::SyncError(msg) => self.push_error(msg),
            Action::HalfPageUp => self.half_page_up(),
            Action::HalfPageDown => self.half_page_down(),
            Action::GoToTop => self.go_to_top(),
            Action::GoToBottom => self.go_to_bottom(),
            Action::SearchBlock(block_num) => self.search_block(block_num),
            Action::CycleFilter => self.cycle_filter(),
            Action::ToggleHelp => {
                self.show_help = !self.show_help;
                proof { assert(self@ =~= old(self)@.step(a)); }
            },
            Action::LoadProgress { current, target } => {
                self.load_progress = Some((current, target));
                proof { assert(self@ =~= old(self)@.step(a)); }
            },
            Action::SyncProgress { current, target } => {
                self.load_progress = None;
                self.sync_progress = Some((current, target));
                self.sync_done = false;
                proof { assert(self@ =~= old(self)@.step(a)); }
            },
            Action::SyncDone => {
                self.sync_done = true;
                proof { assert(self@ =~= old(self)@.step(a)); }
            },
            Action::Latency(ms) => {
                self.latency_ms = Some(ms);
                proof { assert(self@ =~= old(self)@.step(a)); }
            },
            Action::ToggleExpandHashes => {
                self.expand_hashes = !self.expand_hashes;
                proof { assert(self@ =~= old(self)@.step(a)); }
            },
            Action::CopyHash => {
                return self.copy_value();
            },
            Action::SwitchDetailFocus => self.switch_detail_focus(),
        }
        None
    }

    /// The value that `y` copies in the current view.
    pub fn copy_value(&self) -> (r: Option<String>)
        ensures
            opt_string_view(r) == self@.copy_value(),
    {
        match self.active_pane {
            Pane::BlockDetail => match self.detail_focus {
                DetailFocus::Block => self.selected_detail_value(),
                DetailFocus::Txs => match self.selected_tx() {
                    Some(t) => Some(t.tx_id.clone()),
                    None => None,
                },
                DetailFocus::Notes => match self.selected_note() {
                    Some(n) => Some(n.note_id.clone()),
                    None => None,
                },
            },
            Pane::TxDetail | Pane::NoteDetail => self.selected_detail_value(),
            _ => None,
        }
    }

    fn selected_detail_value(&self) -> (r: Option<String>)
        ensures
            opt_string_view(r) == self@.selected_detail_value(),
    {
        match self.detail_row_selected {
            Some(i) => {
                if i < self.detail_rows.len() {
                    Some(self.detail_rows[i].1.clone())
                } else {
                    None
                }
            },
            None => None,
        }
    }

    /// Shows the clipboard notice after a copy succeeded at time `at`.
    pub fn mark_copied(&mut self, at: Instant)
        ensures
            final(self)@ == (AppView { clipboard_flash: Some("Copied!"@), ..old(self)@ }),
            final(self).clipboard_flash matches Some((_, t)) && t == at,
    {
        self.clipboard_flash = Some(("Copied!".to_owned(), at));
        proof { assert(self@ =~= AppView { clipboard_flash: Some("Copied!"@), ..old(self)@ }); }
    }

    pub fn selected_tx(&self) -> (r: Option<&TransactionInfo>)
        ensures
            opt_ref_view(r) == self@.selected_tx(),
    {
        match self.tx_list_selected {
            Some(i) => {
                if i < self.selected_block_txs.len() {
                    Some(&self.selected_block_txs[i])
                } else {
                    None
                }
            },
            None => None,
        }
    }

    pub fn selected_note(&self) -> (r: Option<&NoteInfo>)
        ensures
            opt_ref_view(r) == self@.selected_note(),
    {
        match self.note_list_selected {
            Some(i) => {
                if i < self.selected_block_notes.len() {
                    Some(&self.selected_block_notes[i])
                } else {
                    None
                }
            },
            None => None,
        }
    }

    /// Returns the block currently being browsed (pinned), or the list-selected block
    pub fn selected_block(&self) -> (r: Option<&BlockInfo>)
        ensures
            opt_ref_view(r) == self@.selected_block(),
    {
        match self.browsing_block_num {
            Some(bn) => {
                let mut i: usize = 0;
                while i < self.blocks.len()
                    invariant
                        i <= self.blocks@.len(),
                        self.browsing_block_num == Some(bn),
                        find_block_from(self.blocks@, bn, 0) == find_block_from(
                            self.blocks@,
                            bn,
                            i as nat,
                        ),
                    decreases self.blocks@.len() - i,
                {
                    if self.blocks[i].block_num == bn {
                        assert(find_block_from(self.blocks@, bn, i as nat) == Some(i as nat));
                        return Some(&self.blocks[i]);
                    }
                    i = i + 1;
                }
                None
            },
            None => match self.block_list_selected {
                Some(fi) => {
                    let filtered = self.filtered_indices();
                    if fi < filtered.len() && filtered[fi] < self.blocks.len() {
                        Some(&self.blocks[filtered[fi]])
                    } else {
                        None
                    }
                },
                None => None,
            },
        }
    }

    fn take_count(&mut self) -> (r: usize)
        ensures
            (final(self)@, r) == old(self)@.take_count(),
            parse_unsigned(old(self)@.count_buf, usize::MAX as nat) matches Some(v) ==> (v > 0 ==> r
                == v),
            parse_unsigned(old(self)@.count_buf, usize::MAX as nat) is None || parse_unsigned(
                old(self)@.count_buf,
                usize::MAX as nat,
            ) == Some(0nat) ==> r == 1,
    {
        if self.count_buf.as_str().is_empty() {
            return 1;
        }
        let count = match parse_usize(self.count_buf.as_str()) {
            Some(c) => if c == 0 {
                1
            } else {
                c
            },
            None => 1,
        };
        self.count_buf = String::new();
        proof { assert(self@ =~= AppView { count_buf: seq![], ..old(self)@ }); }
        count
    }

    pub fn handle_event(&mut self, event: Event) -> (r: Option<Action>)
        ensures
            match event {
                Event::Key(k) => (final(self)@, r) == old(self)@.key(k),
                Event::Tick => final(self)@ == old(self)@ && r == Some(Action::Tick),
                Event::Resize(_, _) => final(self)@ == old(self)@ && r is None,
            },
    {
        match event {
            Event::Key(key) => self.handle_key(key),
            Event::Tick => Some(Action::Tick),
            Event::Resize(_, _) => None,
        }
    }

    fn handle_search_key(&mut self, code: KeyCode) -> (r: Option<Action>)
        requires
            old(self).search_input is Some,
        ensures
            (final(self)@, r) == old(self)@.search_key(old(self)@.search_input->0, code),
    {
        let mut input = self.search_input.take().unwrap();
        let ghost iv = input@;
        match code {
            KeyCode::Esc => {
                proof { assert(self@ =~= AppView { search_input: None, ..old(self)@ }); }
                None
            },
            KeyCode::Enter => {
                proof { assert(self@ =~= AppView { search_input: None, ..old(self)@ }); }
                match parse_u32(input.as_str()) {
                    Some(v) => Some(Action::SearchBlock(v)),
                    None => None,
                }
            },
            KeyCode::Backspace => {
                let _ = string_pop(&mut input);
                if !input.as_str().is_empty() {
                    self.search_input = Some(input);
                }
                proof {
                    let rest = if iv.len() > 0 {
                        iv.drop_last()
                    } else {
                        iv
                    };
                    assert(self@ =~= AppView {
                        search_input: if rest.len() == 0 {
                            None
                        } else {
                            Some(rest)
                        },
                        ..old(self)@
                    });
                }
                None
            },
            KeyCode::Char(c) => {
                if '0' <= c && c <= '9' {
                    string_push(&mut input, c);
                }
                self.search_input = Some(input);
                proof {
                    if '0' <= c && c <= '9' {
                        assert(self@ =~= AppView { search_input: Some(iv.push(c)), ..old(self)@ });
                    } else {
                        assert(self@ =~= old(self)@);
                    }
                }
                None
            },
            _ => {
                self.search_input = Some(input);
                proof { assert(self@ =~= old(self)@); }
                None
            },
        }
    }

    fn pane_key(&mut self, code: KeyCode, count: usize) -> (r: Option<Action>)
        ensures
            (final(self)@, r) == old(self)@.pane_key(code, count),
    {
        match self.active_pane {
            Pane::BlockList => match code {
                KeyCode::Char('q') => Some(Action::Quit),
                KeyCode::Char('j') | KeyCode::Down => Some(Action::Down(count)),
                KeyCode::Char('k') | KeyCode::Up => Some(Action::Up(count)),
                KeyCode::Enter | KeyCode::Char('l') | KeyCode::Right => Some(Action::Enter),
                KeyCode::Char('/') => {
                    self.search_input = Some(String::new());
                    proof {
                        assert(self@ =~= AppView { search_input: Some(seq![]), ..old(self)@ });
                    }
                    None
                },
                KeyCode::Char('f') => Some(Action::CycleFilter),
                _ => None,
            },
            Pane::BlockDetail | Pane::TxDetail => match code {
                KeyCode::Char('q') => Some(Action::Quit),
                KeyCode::Esc | KeyCode::Char('h') | KeyCode::Left | KeyCode::Backspace => Some(
                    Action::Back,
                ),
                KeyCode::Char('j') | KeyCode::Down => Some(Action::Down(count)),
                KeyCode::Char('k') | KeyCode::Up => Some(Action::Up(count)),
                KeyCode::Enter | KeyCode::Char('l') | KeyCode::Right => Some(Action::Enter),
                KeyCode::Char('e') => Some(Action::ToggleExpandHashes),
                KeyCode::Char('y') => Some(Action::CopyHash),
                _ => None,
            },
            Pane::NoteDetail => match code {
                KeyCode::Char('q') => Some(Action::Quit),
                KeyCode::Esc | KeyCode::Char('h') | KeyCode::Left | KeyCode::Backspace => Some(
                    Action::Back,
                ),
                KeyCode::Char('j') | KeyCode::Down => Some(Action::Down(count)),
                KeyCode::Char('k') | KeyCode::Up => Some(Action::Up(count)),
                KeyCode::Char('e') => Some(Action::ToggleExpandHashes),
                KeyCode::Char('y') => Some(Action::CopyHash),
                _ => None,
            },
        }
    }

    fn handle_key(&mut self, key: KeyPress) -> (r: Option<Action>)
        ensures
            (final(self)@, r) == old(self)@.key(key),
    {
        // Ctrl+C always quits
        if key.control && key.code == KeyCode::Char('c') {
            return Some(Action::Quit);
        }
        // When help is open, any key closes it
        if self.show_help {
            return Some(Action::ToggleHelp);
        }
        // When error log is open, handle its navigation or close it
        if self.show_error_log {
            return match key.code {
                KeyCode::Char('!') | KeyCode::Esc => Some(Action::ToggleErrorLog),
                KeyCode::Char('q') => Some(Action::Quit),
                KeyCode::Char('j') | KeyCode::Down => Some(Action::Down(1)),
                KeyCode::Char('k') | KeyCode::Up => Some(Action::Up(1)),
                KeyCode::Char('c') => Some(Action::ClearErrorLog),
                _ => None,
            };
        }
        // When search input is active, handle typing
        if self.search_input.is_some() {
            return self.handle_search_key(key.code);
        }
        if key.code == KeyCode::Char('?') {
            return Some(Action::ToggleHelp);
        }
        if key.code == KeyCode::Char('!') {
            return Some(Action::ToggleErrorLog);
        }
        // Ctrl key combinations
        if key.control {
            match key.code {
                KeyCode::Char('u') => {
                    self.pending_g = false;
                    return Some(Action::HalfPageUp);
                },
                KeyCode::Char('d') => {
                    self.pending_g = false;
                    return Some(Action::HalfPageDown);
                },
                KeyCode::Char('o') => {
                    self.pending_g = false;
                    return Some(Action::NavBack);
                },
                KeyCode::Char('i') => {
                    self.pending_g = false;
                    return Some(Action::NavForward);
                },
                _ => {},
            }
        }
        // Tab: switch focus in BlockDetail, nav forward elsewhere
        if key.code == KeyCode::Tab {
            self.pending_g = false;
            if self.active_pane == Pane::BlockDetail {
                return Some(Action::SwitchDetailFocus);
            }
            return Some(Action::NavForward);
        }
        // Handle gg / G sequences
        if key.code == KeyCode::Char('g') && !key.shift {
            if self.pending_g {
                self.pending_g = false;
                return Some(Action::GoToTop);
            } else {
                self.pending_g = true;
                return None;
            }
        }
        if key.code == KeyCode::Char('G') {
            self.pending_g = false;
            return Some(Action::GoToBottom);
        }
        // Any other key cancels a pending g
        self.pending_g = false;
        // Accumulate digits for vim-style count prefix (e.g. 200j)
        if let KeyCode::Char(c) = key.code {
            if '0' <= c && c <= '9' && !key.control {
                string_push(&mut self.count_buf, c);
                return None;
            }
        }
        let count = self.take_count();
        self.pane_key(key.code, count)
    }
}

fn fits(sel: Option<usize>, n: usize, len: usize) -> (r: bool)
    ensures
        r == advance_fits(sel, n, len as nat),
{
    if len == 0 {
        return true;
    }
    match sel {
        Some(i) => i <= usize::MAX - n,
        None => true,
    }
}

fn fits_from_zero(sel: Option<usize>, n: usize) -> (r: bool)
    ensures
        r == (sel_or_zero(sel) + n <= usize::MAX),
{
    match sel {
        Some(i) => i <= usize::MAX - n,
        None => true,
    }
}

/// Moves a selection `n` rows down in a list of `len` rows.
fn select_next(sel: Option<usize>, n: usize, len: usize) -> (r: Option<usize>)
    requires
        advance_fits(sel, n, len as nat),
    ensures
        r == sel_next(sel, n, len as nat),
{
    if len == 0 {
        return sel;
    }
    match sel {
        Some(i) => {
            let j = i + n;
            Some(
                if j <= len - 1 {
                    j
                } else {
                    len - 1
                },
            )
        },
        None => Some(0),
    }
}

/// Moves a selection `n` rows up in a list of `len` rows.
fn select_prev(sel: Option<usize>, n: usize, len: usize) -> (r: Option<usize>)
    ensures
        r == sel_prev(sel, n, len as nat),
{
    if len == 0 {
        return sel;
    }
    match sel {
        Some(i) => Some(i.saturating_sub(n)),
        None => Some(0),
    }
}

} // verus!
