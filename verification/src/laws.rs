//! What holds of the explorer across actions: the block list stays newest first,
//! a received block can be read back, navigation history returns to where it was,
//! searches land on the closest block, and cycling comes round.
use vstd::prelude::*;

use crate::action::Action;
use crate::app::{BlockFilter, DetailFocus, Pane};
use crate::event::{KeyCode, KeyPress};
use crate::model::{
    block_matches, count_value, filter_next, filtered, find_filtered, focus_next, insert_pos,
    insert_pos_from, lemma_filtered, half_down, newest_first, sel_next, sel_prev, with_counts, AppView,
    HALF_PAGE,
};
use crate::text::{dec, lemma_parse_dec_roundtrip, parse_unsigned};
use crate::types::{BlockInfo, NoteInfo, TransactionInfo};

verus! {

proof fn lemma_insert_pos_from(blocks: Seq<BlockInfo>, bn: u32, i: nat)
    requires
        i <= blocks.len(),
        forall|j: int| 0 <= j < i ==> #[trigger] blocks[j].block_num > bn,
    ensures
        insert_pos_from(blocks, bn, i) <= blocks.len(),
        forall|j: int|
            0 <= j < insert_pos_from(blocks, bn, i) ==> #[trigger] blocks[j].block_num > bn,
        insert_pos_from(blocks, bn, i) < blocks.len() ==> blocks[insert_pos_from(
            blocks,
            bn,
            i,
        ) as int].block_num <= bn,
    decreases blocks.len() - i,
{
    if i < blocks.len() && blocks[i as int].block_num > bn {
        lemma_insert_pos_from(blocks, bn, i + 1);
    }
}

/// Blocks before the insertion point are newer than `bn`; the block at it, if
/// any, is not.
pub proof fn lemma_insert_pos(blocks: Seq<BlockInfo>, bn: u32)
    ensures
        insert_pos(blocks, bn) <= blocks.len(),
        forall|j: int| 0 <= j < insert_pos(blocks, bn) ==> #[trigger] blocks[j].block_num > bn,
        insert_pos(blocks, bn) < blocks.len() ==> blocks[insert_pos(blocks, bn) as int].block_num
            <= bn,
{
    lemma_insert_pos_from(blocks, bn, 0);
}

/// Adding a block keeps the list newest first without duplicates, stores the block
/// with its counts, replaces an earlier copy of the same number, keeps every other
/// block and adds no other, and records its transactions and notes for reading back.
pub proof fn lemma_insert_block(
    s: AppView,
    block: BlockInfo,
    txs: Seq<TransactionInfo>,
    notes: Seq<NoteInfo>,
)
    requires
        newest_first(s.blocks),
    ensures
        ({
            let r = s.insert_block(block, txs, notes);
            let bn = block.block_num;
            let had = exists|i: int| 0 <= i < s.blocks.len() && #[trigger] s.blocks[i].block_num == bn;
            &&& newest_first(r.blocks)
            &&& r.blocks.contains(with_counts(block, txs.len(), notes.len()))
            &&& forall|i: int|
                0 <= i < r.blocks.len() && #[trigger] r.blocks[i].block_num == bn ==> r.blocks[i]
                    == with_counts(block, txs.len(), notes.len())
            &&& forall|i: int|
                0 <= i < s.blocks.len() && #[trigger] s.blocks[i].block_num != bn
                    ==> r.blocks.contains(s.blocks[i])
            &&& forall|i: int|
                0 <= i < r.blocks.len() && #[trigger] r.blocks[i].block_num != bn
                    ==> s.blocks.contains(r.blocks[i])
            &&& r.blocks.len() == (if had {
                s.blocks.len()
            } else {
                s.blocks.len() + 1
            })
            &&& r.txs_of(bn) == txs
            &&& r.notes_of(bn) == notes
        }),
{
    let bn = block.block_num;
    let updated = with_counts(block, txs.len(), notes.len());
    let pos = insert_pos(s.blocks, bn);
    lemma_insert_pos(s.blocks, bn);
    let r = s.insert_block(block, txs, notes);
    let had = exists|i: int| 0 <= i < s.blocks.len() && #[trigger] s.blocks[i].block_num == bn;
    if pos < s.blocks.len() && s.blocks[pos as int].block_num == bn {
        assert(r.blocks == s.blocks.update(pos as int, updated));
        assert(r.blocks[pos as int] == updated);
        assert(had);
        assert forall|i: int|
            0 <= i < s.blocks.len() && #[trigger] s.blocks[i].block_num != bn implies r.blocks.contains(
            s.blocks[i]) by {
            assert(r.blocks[i] == s.blocks[i]);
        }
        assert forall|i: int|
            0 <= i < r.blocks.len() && #[trigger] r.blocks[i].block_num != bn implies s.blocks.contains(
            r.blocks[i]) by {
            assert(r.blocks[i] == s.blocks[i]);
        }
    } else {
        assert(r.blocks == s.blocks.insert(pos as int, updated));
        s.blocks.insert_ensures(pos as int, updated);
        assert(r.blocks[pos as int] == updated);
        assert forall|i: int, j: int|
            0 <= i < j < r.blocks.len() implies #[trigger] r.blocks[i].block_num
            > #[trigger] r.blocks[j].block_num by {
            if j < pos {
                assert(r.blocks[i] == s.blocks[i]);
                assert(r.blocks[j] == s.blocks[j]);
            } else if j == pos {
                assert(r.blocks[i] == s.blocks[i]);
            } else if i == pos {
                assert(r.blocks[j] == s.blocks[j - 1]);
            } else if i < pos {
                assert(r.blocks[i] == s.blocks[i]);
                assert(r.blocks[j] == s.blocks[j - 1]);
            } else {
                assert(r.blocks[i] == s.blocks[i - 1]);
                assert(r.blocks[j] == s.blocks[j - 1]);
            }
        }
        assert(!had) by {
            if had {
                let i = choose|i: int| 0 <= i < s.blocks.len() && #[trigger] s.blocks[i].block_num == bn;
                if i >= pos {
                    assert(s.blocks[pos as int].block_num >= s.blocks[i].block_num);
                }
            }
        }
        assert forall|i: int|
            0 <= i < s.blocks.len() && #[trigger] s.blocks[i].block_num != bn implies r.blocks.contains(
            s.blocks[i]) by {
            if i < pos {
                assert(r.blocks[i] == s.blocks[i]);
            } else {
                assert(r.blocks[i + 1] == s.blocks[i]);
            }
        }
        assert forall|i: int|
            0 <= i < r.blocks.len() && #[trigger] r.blocks[i].block_num != bn implies s.blocks.contains(
            r.blocks[i]) by {
            if i < pos {
                assert(r.blocks[i] == s.blocks[i]);
            } else if i > pos {
                assert(r.blocks[i] == s.blocks[i - 1]);
            }
        }
    }
    assert(r.blocks.contains(updated)) by {
        assert(r.blocks[pos as int] == updated);
    }
}

/// Adding a batch keeps the list newest first.
pub proof fn lemma_insert_all_newest_first(
    s: AppView,
    batch: Seq<(BlockInfo, Vec<TransactionInfo>, Vec<NoteInfo>)>,
)
    requires
        newest_first(s.blocks),
    ensures
        newest_first(s.insert_all(batch).blocks),
    decreases batch.len(),
{
    if batch.len() > 0 {
        lemma_insert_all_newest_first(s, batch.drop_last());
        let last = batch.last();
        lemma_insert_block(s.insert_all(batch.drop_last()), last.0, last.1@, last.2@);
    }
}

/// Every action keeps the block list newest first with no block number twice.
pub proof fn lemma_step_keeps_newest_first(s: AppView, a: Action)
    requires
        newest_first(s.blocks),
    ensures
        newest_first(s.step(a).blocks),
{
    match a {
        Action::NewBlockReceived { block, transactions, notes } => {
            lemma_insert_block(s, block, transactions@, notes@);
        },
        Action::BatchBlocksLoaded { blocks } => {
            lemma_insert_all_newest_first(s, blocks@);
        },
        _ => {},
    }
}

/// A received block is the one shown under its number, with its counts taken from
/// what came with it, and its transactions and notes read back as sent.
pub proof fn lemma_new_block_read_back(
    s: AppView,
    block: BlockInfo,
    txs: Seq<TransactionInfo>,
    notes: Seq<NoteInfo>,
)
    requires
        newest_first(s.blocks),
    ensures
        ({
            let r = s.new_block(block, txs, notes);
            let bn = block.block_num;
            &&& newest_first(r.blocks)
            &&& r.blocks.contains(with_counts(block, txs.len(), notes.len()))
            &&& forall|i: int|
                0 <= i < r.blocks.len() && #[trigger] r.blocks[i].block_num == bn ==> r.blocks[i]
                    == with_counts(block, txs.len(), notes.len())
            &&& r.txs_of(bn) == txs
            &&& r.notes_of(bn) == notes
            &&& r.last_received_block == Some(bn)
        }),
{
    lemma_insert_block(s, block, txs, notes);
}

/// While the head of the list is selected, a new block keeps the selection at
/// the head; a block newer than all others becomes the head.
pub proof fn lemma_head_follows_new_blocks(
    s: AppView,
    block: BlockInfo,
    txs: Seq<TransactionInfo>,
    notes: Seq<NoteInfo>,
)
    requires
        newest_first(s.blocks),
        s.block_list_selected == Some(0usize),
    ensures
        s.new_block(block, txs, notes).block_list_selected == Some(0usize),
        (forall|i: int| 0 <= i < s.blocks.len() ==> #[trigger] s.blocks[i].block_num
            < block.block_num) ==> s.new_block(block, txs, notes).blocks[0] == with_counts(
            block,
            txs.len(),
            notes.len(),
        ),
        s.new_block(block, txs, notes).browsing_block_num == s.browsing_block_num,
{
    lemma_insert_pos(s.blocks, block.block_num);
    if forall|i: int| 0 <= i < s.blocks.len() ==> #[trigger] s.blocks[i].block_num
        < block.block_num {
        assert(insert_pos(s.blocks, block.block_num) == 0) by {
            if s.blocks.len() > 0 {
                assert(s.blocks[0].block_num < block.block_num);
            }
        }
        let updated = with_counts(block, txs.len(), notes.len());
        s.blocks.insert_ensures(0, updated);
    }
}

proof fn lemma_find_filtered_eq(blocks: Seq<BlockInfo>, f: Seq<usize>, bn: u32, i: nat, k: int)
    requires
        i <= k < f.len(),
        forall|j: int| 0 <= j < f.len() ==> #[trigger] f[j] < blocks.len(),
        blocks[f[k] as int].block_num == bn,
    ensures
        find_filtered(blocks, f, bn, true, i) matches Some(p) && p < f.len() && blocks[f[p as int] as int].block_num
            == bn,
    decreases f.len() - i,
{
    if blocks[f[i as int] as int].block_num != bn {
        lemma_find_filtered_eq(blocks, f, bn, i + 1, k);
    }
}

/// Away from the head, the selected block stays selected when another block
/// arrives: the selection follows it to its new row.
pub proof fn lemma_selection_follows_block(
    s: AppView,
    block: BlockInfo,
    txs: Seq<TransactionInfo>,
    notes: Seq<NoteInfo>,
)
    requires
        newest_first(s.blocks),
        s.blocks.len() < usize::MAX,
        s.block_list_selected != Some(0usize),
        s.selected_block_num_filtered() matches Some(bn) && bn != block.block_num,
        s.new_block(block, txs, notes).filtered().len() > 1,
    ensures
        s.new_block(block, txs, notes).selected_block_num_filtered() == s.selected_block_num_filtered(),
{
    let bn = s.selected_block_num_filtered()->0;
    let f0 = s.filtered();
    let fi = s.block_list_selected->0;
    let old_idx = f0[fi as int] as int;
    let old_block = s.blocks[old_idx];
    lemma_filtered(s.blocks, s.filter);
    assert(block_matches(old_block, s.filter)) by {
        assert(f0.contains(old_idx as usize));
    }
    lemma_insert_block(s, block, txs, notes);
    let ins = s.insert_block(block, txs, notes);
    let r = AppView { last_received_block: Some(block.block_num), ..ins };
    assert(ins.blocks.contains(old_block));
    let j = choose|j: int| 0 <= j < ins.blocks.len() && ins.blocks[j] == old_block;
    assert(r.blocks.len() <= s.blocks.len() + 1);
    lemma_filtered(r.blocks, r.filter);
    let f = r.filtered();
    assert(f.contains(j as usize));
    let k = choose|k: int| 0 <= k < f.len() && f[k] == j as usize;
    lemma_find_filtered_eq(r.blocks, f, bn, 0, k);
    let t = r.reselect(false, Some(bn));
    assert(s.new_block(block, txs, notes) == t);
}

/// The navigation position fields of two states agree.
pub open spec fn same_position(a: AppView, b: AppView) -> bool {
    &&& a.active_pane == b.active_pane
    &&& a.browsing_block_num == b.browsing_block_num
    &&& a.block_list_selected == b.block_list_selected
    &&& a.detail_scroll == b.detail_scroll
    &&& a.detail_focus == b.detail_focus
    &&& a.detail_row_selected == b.detail_row_selected
}

/// Going back in the history lands on the most recently recorded position.
pub proof fn lemma_nav_back_restores(s: AppView)
    requires
        s.nav_back.len() > 0,
    ensures
        ({
            let e = s.nav_back.last();
            let r = s.nav_back_step();
            &&& r.active_pane == e.pane
            &&& r.browsing_block_num == e.browsing_block_num
            &&& r.block_list_selected == e.block_list_selected
            &&& r.detail_scroll == e.detail_scroll
            &&& r.detail_focus == e.detail_focus
            &&& r.detail_row_selected == e.detail_row_selected
            &&& (e.browsing_block_num is Some ==> r.tx_list_selected == e.tx_list_selected
                && r.note_list_selected == e.note_list_selected)
            &&& r.nav_back == s.nav_back.drop_last()
            &&& r.nav_forward == s.nav_forward.push(s.snapshot())
        }),
{
}

/// The transactions stored for block `bn` in `s`, none when nothing is stored.
pub open spec fn stored_txs(s: AppView, bn: u32) -> Seq<TransactionInfo> {
    if s.block_transactions.contains_key(bn) {
        s.block_transactions[bn]
    } else {
        Seq::empty()
    }
}

/// The notes stored for block `bn` in `s`, none when nothing is stored.
pub open spec fn stored_notes(s: AppView, bn: u32) -> Seq<NoteInfo> {
    if s.block_notes.contains_key(bn) {
        s.block_notes[bn]
    } else {
        Seq::empty()
    }
}

/// Going back or forward in the history onto a position pinned to block `bn`
/// shows the detail of `bn` with the transactions and notes stored for `bn`;
/// onto a position with no pinned block, the shown lists stay as they were.
pub proof fn lemma_nav_shows_lists_of_block(s: AppView)
    ensures
        s.nav_back.len() > 0 ==> ({
            let r = s.step(Action::NavBack);
            match s.nav_back.last().browsing_block_num {
                Some(bn) => {
                    &&& r.browsing_block_num == Some(bn)
                    &&& r.selected_block_txs == stored_txs(s, bn)
                    &&& r.selected_block_notes == stored_notes(s, bn)
                },
                None => {
                    &&& r.selected_block_txs == s.selected_block_txs
                    &&& r.selected_block_notes == s.selected_block_notes
                },
            }
        }),
        s.nav_forward.len() > 0 ==> ({
            let r = s.step(Action::NavForward);
            match s.nav_forward.last().browsing_block_num {
                Some(bn) => {
                    &&& r.browsing_block_num == Some(bn)
                    &&& r.selected_block_txs == stored_txs(s, bn)
                    &&& r.selected_block_notes == stored_notes(s, bn)
                },
                None => {
                    &&& r.selected_block_txs == s.selected_block_txs
                    &&& r.selected_block_notes == s.selected_block_notes
                },
            }
        }),
{
}

/// A typed count whose digits denote a nonzero `n` that fits a `usize` counts
/// `n`: the digits of any such `n` count exactly `n`.
pub proof fn lemma_count_is_typed_number(buf: Seq<char>, n: usize)
    ensures
        parse_unsigned(buf, usize::MAX as nat) == Some(n as nat) && n > 0 ==> count_value(buf)
            == n,
        n > 0 ==> count_value(dec(n as nat)) == n,
        parse_unsigned(buf, usize::MAX as nat) is None || parse_unsigned(buf, usize::MAX as nat)
            == Some(0nat) ==> count_value(buf) == 1,
{
    lemma_parse_dec_roundtrip(n as nat, usize::MAX as nat);
}

/// In the block list, with nothing open over it, a count typed before `j`
/// moves down by that many rows: with the digits of `n >= 1` typed, `j` asks
/// for `Down(n)` and clears the count.
pub proof fn lemma_count_then_j_moves_down(s: AppView, n: usize)
    requires
        !s.show_help,
        !s.show_error_log,
        s.search_input is None,
        s.active_pane == Pane::BlockList,
        n > 0,
        s.count_buf == dec(n as nat),
    ensures
        ({
            let (r, a) = s.key(KeyPress { code: KeyCode::Char('j'), control: false, shift: false });
            &&& a == Some(Action::Down(n))
            &&& r.count_buf == Seq::<char>::empty()
        }),
{
    lemma_count_is_typed_number(s.count_buf, n);
    lemma_parse_dec_roundtrip(n as nat, usize::MAX as nat);
}

/// A digit typed with nothing open over the panes is appended to the count and
/// asks for no action.
pub proof fn lemma_digit_extends_count(s: AppView, c: char, shift: bool)
    requires
        !s.show_help,
        !s.show_error_log,
        s.search_input is None,
        '0' <= c <= '9',
    ensures
        ({
            let (r, a) = s.key(KeyPress { code: KeyCode::Char(c), control: false, shift });
            &&& a is None
            &&& r.count_buf == s.count_buf.push(c)
        }),
{
}

/// In the block list, `Down(n)` from row `i` selects row `i + n`, or the last
/// row when fewer than `n` follow; `Up(n)` selects row `i - n`, or the first row.
/// A jump of more than one row records the position left in the history.
pub proof fn lemma_block_list_moves_n_rows(s: AppView, n: usize)
    requires
        !s.show_error_log,
        s.active_pane == Pane::BlockList,
        s.blocks.len() <= usize::MAX,
        s.block_list_selected matches Some(i) && i < s.filtered().len(),
    ensures
        ({
            let i = s.block_list_selected->0 as int;
            let len = s.filtered().len() as int;
            let d = s.step(Action::Down(n));
            let u = s.step(Action::Up(n));
            &&& d.block_list_selected == Some(
                (if i + n < len {
                    i + n
                } else {
                    len - 1
                }) as usize,
            )
            &&& u.block_list_selected == Some(
                (if i >= n {
                    i - n
                } else {
                    0
                }) as usize,
            )
            &&& d.nav_back == (if n > 1 {
                s.nav_back.push(s.snapshot())
            } else {
                s.nav_back
            })
        }),
{
    lemma_filtered(s.blocks, s.filter);
    assert(s.push_nav().filtered() == s.filtered());
}

/// The row a half-page jump down from row `i` lands on in a list of `len > 0`
/// rows: `HALF_PAGE` rows further, or the last row when fewer remain.
pub open spec fn half_page_target(i: int, len: int) -> int {
    if i + HALF_PAGE < len {
        i + HALF_PAGE
    } else {
        len - 1
    }
}

/// A half-page jump down selects row `min(i + HALF_PAGE, len - 1)` of the block
/// list, the transaction list or the note list, `i` being the selected row (the
/// first when none is): it never moves more than `HALF_PAGE` rows, and never
/// past the last one.
pub proof fn lemma_half_page_down_moves_half_page(s: AppView)
    requires
        s.blocks.len() <= usize::MAX,
        s.selected_block_txs.len() <= usize::MAX,
        s.selected_block_notes.len() <= usize::MAX,
    ensures
        s.active_pane == Pane::BlockList && s.filtered().len() > 0 ==> ({
            let len = s.filtered().len() as int;
            let i = match s.block_list_selected {
                Some(i) => i as int,
                None => 0,
            };
            let r = s.step(Action::HalfPageDown);
            &&& r.block_list_selected matches Some(t) && t == half_page_target(i, len)
            &&& i < len ==> i <= half_page_target(i, len) <= i + HALF_PAGE
            &&& half_page_target(i, len) < len
            &&& r.nav_back == s.nav_back.push(s.snapshot())
        }),
        s.active_pane == Pane::BlockDetail && s.detail_focus == DetailFocus::Txs
            && s.selected_block_txs.len() > 0 ==> ({
            let len = s.selected_block_txs.len() as int;
            let i = match s.tx_list_selected {
                Some(i) => i as int,
                None => 0,
            };
            let r = s.step(Action::HalfPageDown);
            &&& r.tx_list_selected matches Some(t) && t == half_page_target(i, len)
            &&& i < len ==> i <= half_page_target(i, len) <= i + HALF_PAGE
            &&& half_page_target(i, len) < len
        }),
        s.active_pane == Pane::BlockDetail && s.detail_focus == DetailFocus::Notes
            && s.selected_block_notes.len() > 0 ==> ({
            let len = s.selected_block_notes.len() as int;
            let i = match s.note_list_selected {
                Some(i) => i as int,
                None => 0,
            };
            let r = s.step(Action::HalfPageDown);
            &&& r.note_list_selected matches Some(t) && t == half_page_target(i, len)
            &&& i < len ==> i <= half_page_target(i, len) <= i + HALF_PAGE
            &&& half_page_target(i, len) < len
        }),
{
    if s.active_pane == Pane::BlockList && s.filtered().len() > 0 {
        let p = s.push_nav();
        assert(p.filtered() == s.filtered());
        lemma_filtered(s.blocks, s.filter);
        let r = s.step(Action::HalfPageDown);
        assert(r.block_list_selected == Some(half_down(p.block_list_selected, p.filtered().len())));
    }
    if s.active_pane == Pane::BlockDetail && s.detail_focus == DetailFocus::Txs
        && s.selected_block_txs.len() > 0 {
        let r = s.step(Action::HalfPageDown);
        assert(r.tx_list_selected == Some(half_down(s.tx_list_selected, s.selected_block_txs.len())));
    }
}

/// The row a half-page jump up from row `i` lands on: `HALF_PAGE` rows
/// earlier, or the first row when fewer precede it.
pub open spec fn half_page_up_target(i: int) -> int {
    if i >= HALF_PAGE {
        i - HALF_PAGE
    } else {
        0
    }
}

/// A half-page jump up selects row `max(i - HALF_PAGE, 0)` of the block list,
/// the transaction list or the note list, `i` being the selected row (the first
/// when none is): it never moves more than `HALF_PAGE` rows.
pub proof fn lemma_half_page_up_moves_half_page(s: AppView)
    ensures
        s.active_pane == Pane::BlockList && s.filtered().len() > 0 ==> ({
            let i = match s.block_list_selected {
                Some(i) => i as int,
                None => 0,
            };
            let r = s.step(Action::HalfPageUp);
            &&& r.block_list_selected matches Some(t) && t == half_page_up_target(i)
            &&& i - HALF_PAGE <= half_page_up_target(i) <= i
            &&& r.nav_back == s.nav_back.push(s.snapshot())
        }),
        s.active_pane == Pane::BlockDetail && s.detail_focus == DetailFocus::Txs ==> ({
            let i = match s.tx_list_selected {
                Some(i) => i as int,
                None => 0,
            };
            s.step(Action::HalfPageUp).tx_list_selected matches Some(t) && t
                == half_page_up_target(i)
        }),
        s.active_pane == Pane::BlockDetail && s.detail_focus == DetailFocus::Notes ==> ({
            let i = match s.note_list_selected {
                Some(i) => i as int,
                None => 0,
            };
            s.step(Action::HalfPageUp).note_list_selected matches Some(t) && t
                == half_page_up_target(i)
        }),
{
}

/// Going back and then forward returns to the same position, with the forward
/// history as it was.
pub proof fn lemma_nav_back_then_forward(s: AppView)
    requires
        s.nav_back.len() > 0,
    ensures
        same_position(s.nav_back_step().nav_forward_step(), s),
        s.browsing_block_num is Some ==> s.nav_back_step().nav_forward_step().tx_list_selected
            == s.tx_list_selected && s.nav_back_step().nav_forward_step().note_list_selected
            == s.note_list_selected,
        s.nav_back_step().nav_forward_step().nav_forward == s.nav_forward,
        s.nav_back_step().nav_forward_step().nav_back.len() == s.nav_back.len(),
{
    let r = s.nav_back_step();
    assert(r.nav_forward.last() == s.snapshot());
    assert(r.nav_forward.drop_last() =~= s.nav_forward);
}

/// Opening the selected block and then going back in the history returns to the
/// block list with the same selection.
pub proof fn lemma_open_block_then_nav_back(s: AppView)
    requires
        s.active_pane == Pane::BlockList,
        s.block_list_selected matches Some(fi) && fi < s.filtered().len(),
    ensures
        s.enter().active_pane == Pane::BlockDetail,
        s.enter().browsing_block_num is Some,
        same_position(s.enter().nav_back_step(), s),
{
    let r = s.enter();
    assert(r.nav_back.last() == s.snapshot());
}

/// Opening the selected block shows its detail with the transactions and notes
/// stored for it, the first of each selected when there is one.
pub proof fn lemma_open_block_shows_its_lists(s: AppView)
    requires
        s.active_pane == Pane::BlockList,
        s.block_list_selected matches Some(fi) && fi < s.filtered().len(),
    ensures
        ({
            let bn = s.blocks[s.filtered()[s.block_list_selected->0 as int] as int].block_num;
            let r = s.step(Action::Enter);
            &&& r.active_pane == Pane::BlockDetail
            &&& r.browsing_block_num == Some(bn)
            &&& r.selected_block_txs == stored_txs(s, bn)
            &&& r.selected_block_notes == stored_notes(s, bn)
            &&& r.tx_list_selected == (if stored_txs(s, bn).len() > 0 {
                Some(0usize)
            } else {
                None
            })
            &&& r.note_list_selected == (if stored_notes(s, bn).len() > 0 {
                Some(0usize)
            } else {
                None
            })
        }),
{
    assert(s.push_nav().filtered() == s.filtered());
}

/// Leaving a detail view with Back is undone by going back in the history:
/// the view and its position return.
pub proof fn lemma_back_undone_by_nav_back(s: AppView)
    requires
        s.active_pane != Pane::BlockList,
    ensures
        ({
            let b = s.back();
            let f = b.nav_back_step();
            &&& b.active_pane != s.active_pane
            &&& same_position(f, s)
        }),
{
    let b = s.back();
    assert(b.nav_back.last() == s.snapshot());
}

/// A search selects the shown block with the largest number not above the target;
/// without one, the selection stays.
pub proof fn lemma_search_selects_closest(s: AppView, n: u32)
    requires
        newest_first(s.blocks),
        s.blocks.len() <= usize::MAX,
    ensures
        ({
            let r = s.search(n);
            let f = s.filtered();
            match r.block_list_selected {
                Some(fi) if (exists|k: int|
                    0 <= k < f.len() && #[trigger] s.blocks[f[k] as int].block_num <= n) => {
                    &&& fi < f.len()
                    &&& s.blocks[f[fi as int] as int].block_num <= n
                    &&& forall|k: int|
                        0 <= k < f.len() && #[trigger] s.blocks[f[k] as int].block_num <= n
                            ==> s.blocks[f[k] as int].block_num <= s.blocks[f[fi as int] as int].block_num
                },
                _ => !(exists|k: int|
                    0 <= k < f.len() && #[trigger] s.blocks[f[k] as int].block_num <= n)
                    ==> r.block_list_selected == s.block_list_selected,
            }
        }),
{
    let f = s.filtered();
    lemma_filtered(s.blocks, s.filter);
    lemma_find_filtered_le(s.blocks, f, n, 0);
    let p = s.push_nav();
    assert(p.filtered() == f);
    assert(p.blocks == s.blocks);
    match find_filtered(s.blocks, f, n, false, 0) {
        Some(fi) => {
            assert forall|k: int|
                0 <= k < f.len() && #[trigger] s.blocks[f[k] as int].block_num <= n implies s.blocks[f[k] as int].block_num
                <= s.blocks[f[fi as int] as int].block_num by {
                if k > fi {
                    assert(f[fi as int] < f[k]);
                }
            }
        },
        None => {},
    }
}

proof fn lemma_find_filtered_le(blocks: Seq<BlockInfo>, f: Seq<usize>, n: u32, i: nat)
    requires
        i <= f.len(),
        forall|j: int| 0 <= j < f.len() ==> #[trigger] f[j] < blocks.len(),
        forall|k: int| 0 <= k < i ==> #[trigger] blocks[f[k] as int].block_num > n,
    ensures
        match find_filtered(blocks, f, n, false, i) {
            Some(fi) => i <= fi < f.len() && blocks[f[fi as int] as int].block_num <= n && forall|
                k: int,
            | 0 <= k < fi ==> #[trigger] blocks[f[k] as int].block_num > n,
            None => forall|k: int| 0 <= k < f.len() ==> #[trigger] blocks[f[k] as int].block_num > n,
        },
    decreases f.len() - i,
{
    if i < f.len() && !(blocks[f[i as int] as int].block_num <= n) {
        lemma_find_filtered_le(blocks, f, n, i + 1);
    }
}

/// Cycling the filter three times comes back to the same filter.
pub proof fn lemma_filter_cycle(f: BlockFilter)
    ensures
        filter_next(filter_next(filter_next(f))) == f,
        filter_next(f) != f,
{
}

/// Cycling the detail focus three times comes back to the same panel.
pub proof fn lemma_focus_cycle(f: DetailFocus)
    ensures
        focus_next(focus_next(focus_next(f))) == f,
        focus_next(f) != f,
{
}

/// Moving down or up in a non-empty list leaves a selection inside it when it
/// started inside it or empty.
pub proof fn lemma_selection_in_range(sel: Option<usize>, n: usize, len: nat)
    requires
        len > 0,
        sel matches Some(i) ==> i < len,
        sel matches Some(i) ==> i + n <= usize::MAX,
    ensures
        sel_next(sel, n, len) matches Some(j) && j < len,
        sel_prev(sel, n, len) matches Some(j) && j < len,
{
}

/// Ctrl+C quits from any state, leaving it unchanged.
pub proof fn lemma_ctrl_c_quits(s: AppView, shift: bool)
    ensures
        s.key(KeyPress { code: KeyCode::Char('c'), control: true, shift }) == (s, Some(Action::Quit)),
{
}

/// While help is open, any key other than Ctrl+C closes it and changes nothing else.
pub proof fn lemma_help_closes_on_any_key(s: AppView, k: KeyPress)
    requires
        s.show_help,
        !(k.control && k.code == KeyCode::Char('c')),
    ensures
        s.key(k) == (s, Some(Action::ToggleHelp)),
{
}

/// `g` twice asks to go to the top.
pub proof fn lemma_gg_goes_to_top(s: AppView)
    requires
        !s.show_help,
        !s.show_error_log,
        s.search_input is None,
        !s.pending_g,
    ensures
        ({
            let g = KeyPress { code: KeyCode::Char('g'), control: false, shift: false };
            let (s1, a1) = s.key(g);
            let (s2, a2) = s1.key(g);
            &&& a1 is None
            &&& a2 == Some(Action::GoToTop)
            &&& s2 == s
        }),
{
    let g = KeyPress { code: KeyCode::Char('g'), control: false, shift: false };
    let (s1, a1) = s.key(g);
    assert(s1 == AppView { pending_g: true, ..s });
    let (s2, a2) = s1.key(g);
    assert(s2 =~= s);
}

} // verus!
