use miden_watch::action::Action;
use miden_watch::app::{App, BlockFilter, DetailFocus, Pane};
use miden_watch::event::{Event, KeyCode, KeyPress};
use miden_watch::types::{BlockInfo, NoteInfo, TransactionInfo};

fn block(block_num: u32, timestamp: u32) -> BlockInfo {
    BlockInfo {
        block_num,
        timestamp,
        version: 1,
        prev_block_commitment: format!("0xprev{block_num}"),
        chain_commitment: String::new(),
        account_root: String::new(),
        nullifier_root: String::new(),
        note_root: String::new(),
        tx_commitment: String::new(),
        tx_kernel_commitment: String::new(),
        tx_count: 0,
        note_count: 0,
    }
}

fn tx(id: &str, block: u32) -> TransactionInfo {
    TransactionInfo {
        tx_id: id.to_string(),
        account_id: "0xacct".to_string(),
        account_storage_mode: "public".to_string(),
        block_num: block,
        input_note_count: 1,
        output_note_count: 2,
    }
}

fn note(id: &str, block: u32) -> NoteInfo {
    NoteInfo {
        note_id: id.to_string(),
        block_num: block,
        sender: "0xsender".to_string(),
        note_type: "Public".to_string(),
        tag: 255,
        note_index: 3,
        standard_type: Some("P2ID".to_string()),
        target: Some("0xtarget".to_string()),
    }
}

fn receive(app: &mut App, b: BlockInfo, txs: Vec<TransactionInfo>, notes: Vec<NoteInfo>) {
    app.update(Action::NewBlockReceived { block: b, transactions: txs, notes });
}

fn key(c: char) -> Event {
    Event::Key(KeyPress { code: KeyCode::Char(c), control: false, shift: false })
}

fn code(k: KeyCode) -> Event {
    Event::Key(KeyPress { code: k, control: false, shift: false })
}

fn nums(app: &App) -> Vec<u32> {
    app.blocks.iter().map(|b| b.block_num).collect()
}

#[test]
fn blocks_stay_newest_first_without_duplicates() {
    let mut app = App::new("testnet".to_string());
    receive(&mut app, block(5, 50), vec![], vec![]);
    receive(&mut app, block(7, 70), vec![tx("0xa", 7)], vec![]);
    receive(&mut app, block(6, 60), vec![], vec![note("0xn", 6)]);
    receive(&mut app, block(7, 71), vec![tx("0xa", 7), tx("0xb", 7)], vec![]);
    assert_eq!(nums(&app), vec![7, 6, 5]);
    assert_eq!(app.blocks[0].tx_count, 2);
    assert_eq!(app.blocks[0].timestamp, 71);
    assert_eq!(app.blocks[1].note_count, 1);
    assert_eq!(app.last_received_block.map(|(bn, _)| bn), Some(7));
}

#[test]
fn received_block_reads_back() {
    let mut app = App::new("n".to_string());
    let txs = vec![tx("0x1", 9), tx("0x2", 9)];
    let notes = vec![note("0xnote", 9)];
    receive(&mut app, block(9, 1), txs.clone(), notes.clone());
    assert_eq!(app.block_transactions.get(&9), Some(&txs));
    assert_eq!(app.block_notes.get(&9), Some(&notes));
}

#[test]
fn batch_load_inserts_every_block() {
    let mut app = App::new("n".to_string());
    app.update(Action::BatchBlocksLoaded {
        blocks: vec![
            (block(1, 10), vec![], vec![]),
            (block(3, 30), vec![tx("0x3", 3)], vec![]),
            (block(2, 20), vec![], vec![]),
        ],
    });
    assert_eq!(nums(&app), vec![3, 2, 1]);
    assert_eq!(app.block_list_selected, Some(0));
    assert_eq!(app.last_received_block, None);
}

#[test]
fn head_selection_follows_new_blocks() {
    let mut app = App::new("n".to_string());
    receive(&mut app, block(1, 1), vec![], vec![]);
    assert_eq!(app.block_list_selected, Some(0));
    receive(&mut app, block(2, 2), vec![], vec![]);
    assert_eq!(app.block_list_selected, Some(0));
    receive(&mut app, block(3, 3), vec![], vec![]);
    // move off the head: the selected block stays selected as new ones arrive
    app.update(Action::Down(1));
    assert_eq!(app.block_list_selected, Some(1));
    receive(&mut app, block(4, 4), vec![], vec![]);
    assert_eq!(app.block_list_selected, Some(2));
    assert_eq!(app.blocks[2].block_num, 2);
}

#[test]
fn selection_is_clamped_to_the_list() {
    let mut app = App::new("n".to_string());
    for bn in 1..=5 {
        receive(&mut app, block(bn, bn), vec![], vec![]);
    }
    app.update(Action::Down(100));
    assert_eq!(app.block_list_selected, Some(4));
    app.update(Action::Up(2));
    assert_eq!(app.block_list_selected, Some(2));
    app.update(Action::Up(10));
    assert_eq!(app.block_list_selected, Some(0));
    app.update(Action::GoToBottom);
    assert_eq!(app.block_list_selected, Some(4));
    app.update(Action::GoToTop);
    assert_eq!(app.block_list_selected, Some(0));
    app.update(Action::HalfPageDown);
    assert_eq!(app.block_list_selected, Some(4));
    app.update(Action::HalfPageUp);
    assert_eq!(app.block_list_selected, Some(0));
}

#[test]
fn enter_then_navigate_back_and_forward() {
    let mut app = App::new("n".to_string());
    receive(&mut app, block(1, 1), vec![tx("0xt", 1)], vec![note("0xn", 1)]);
    receive(&mut app, block(2, 2), vec![], vec![]);
    app.update(Action::Down(1));
    assert_eq!(app.block_list_selected, Some(1));
    app.update(Action::Enter);
    assert_eq!(app.active_pane, Pane::BlockDetail);
    assert_eq!(app.browsing_block_num, Some(1));
    assert_eq!(app.selected_block_txs.len(), 1);
    assert_eq!(app.tx_list_selected, Some(0));
    assert_eq!(app.detail_focus, DetailFocus::Block);
    assert_eq!(app.selected_block().map(|b| b.block_num), Some(1));
    app.update(Action::NavBack);
    assert_eq!(app.active_pane, Pane::BlockList);
    assert_eq!(app.block_list_selected, Some(1));
    assert_eq!(app.browsing_block_num, None);
    app.update(Action::NavForward);
    assert_eq!(app.active_pane, Pane::BlockDetail);
    assert_eq!(app.browsing_block_num, Some(1));
}

#[test]
fn drill_into_transaction_and_note_and_back() {
    let mut app = App::new("n".to_string());
    receive(&mut app, block(1, 1), vec![tx("0xt", 1)], vec![note("0xn", 1)]);
    app.update(Action::Enter);
    app.update(Action::SwitchDetailFocus);
    assert_eq!(app.detail_focus, DetailFocus::Txs);
    app.update(Action::Enter);
    assert_eq!(app.active_pane, Pane::TxDetail);
    assert_eq!(app.selected_tx().map(|t| t.tx_id.clone()), Some("0xt".to_string()));
    app.update(Action::Enter);
    assert_eq!(app.active_pane, Pane::NoteDetail);
    assert_eq!(app.selected_note().map(|n| n.note_id.clone()), Some("0xn".to_string()));
    app.update(Action::Back);
    assert_eq!(app.active_pane, Pane::BlockDetail);
    app.update(Action::Back);
    assert_eq!(app.active_pane, Pane::BlockList);
    assert_eq!(app.browsing_block_num, None);
}

#[test]
fn search_selects_exact_or_nearest_lower_block() {
    let mut app = App::new("n".to_string());
    for bn in [5u32, 8, 10] {
        receive(&mut app, block(bn, bn), vec![], vec![]);
    }
    app.update(Action::SearchBlock(9));
    assert_eq!(app.block_list_selected, Some(1));
    app.update(Action::SearchBlock(10));
    assert_eq!(app.block_list_selected, Some(0));
    app.update(Action::SearchBlock(5));
    assert_eq!(app.block_list_selected, Some(2));
    // nothing at or below 4: the selection stays
    app.update(Action::SearchBlock(4));
    assert_eq!(app.block_list_selected, Some(2));
}

#[test]
fn filter_cycles_and_hides_blocks() {
    let mut app = App::new("n".to_string());
    receive(&mut app, block(1, 1), vec![tx("0xt", 1)], vec![]);
    receive(&mut app, block(2, 2), vec![], vec![note("0xn", 2)]);
    receive(&mut app, block(3, 3), vec![], vec![]);
    assert_eq!(app.filtered_indices(), vec![0, 1, 2]);
    app.update(Action::CycleFilter);
    assert_eq!(app.filter, BlockFilter::WithTransactions);
    assert_eq!(app.filtered_indices(), vec![2]);
    app.update(Action::CycleFilter);
    assert_eq!(app.filter, BlockFilter::WithNotes);
    assert_eq!(app.filtered_indices(), vec![1]);
    app.update(Action::CycleFilter);
    assert_eq!(app.filter, BlockFilter::All);
    assert_eq!(BlockFilter::All.next().next().next(), BlockFilter::All);
    assert_eq!(DetailFocus::Block.next().next().next(), DetailFocus::Block);
    assert_eq!(BlockFilter::WithNotes.label(), "Has notes");
}

#[test]
fn filter_with_no_match_clears_selection() {
    let mut app = App::new("n".to_string());
    receive(&mut app, block(1, 1), vec![], vec![]);
    app.update(Action::CycleFilter);
    assert_eq!(app.block_list_selected, None);
}

#[test]
fn error_log_collects_toggles_and_clears() {
    let mut app = App::new("n".to_string());
    app.update(Action::SyncError("one".to_string()));
    app.update(Action::SyncError("two".to_string()));
    assert_eq!(app.error_log, vec!["one".to_string(), "two".to_string()]);
    app.update(Action::ToggleErrorLog);
    assert!(app.show_error_log);
    assert_eq!(app.error_list_selected, Some(1));
    app.update(Action::Up(1));
    assert_eq!(app.error_list_selected, Some(0));
    app.update(Action::ClearErrorLog);
    assert!(app.error_log.is_empty());
    assert!(!app.show_error_log);
    assert_eq!(app.error_list_selected, None);
}

#[test]
fn progress_and_status_actions() {
    let mut app = App::new("n".to_string());
    app.update(Action::LoadProgress { current: 1, target: 5 });
    assert_eq!(app.load_progress, Some((1, 5)));
    app.update(Action::SyncProgress { current: 3, target: 9 });
    assert_eq!(app.load_progress, None);
    assert_eq!(app.sync_progress, Some((3, 9)));
    app.update(Action::SyncDone);
    assert!(app.sync_done);
    app.update(Action::Latency(42));
    assert_eq!(app.latency_ms, Some(42));
    app.update(Action::ToggleExpandHashes);
    assert!(app.expand_hashes);
    app.update(Action::ToggleHelp);
    assert!(app.show_help);
    app.update(Action::Quit);
    assert!(app.should_quit);
}

#[test]
fn copy_hash_returns_selected_value() {
    let mut app = App::new("n".to_string());
    receive(&mut app, block(1, 1), vec![tx("0xtxid", 1)], vec![]);
    app.update(Action::Enter);
    app.update(Action::SwitchDetailFocus);
    assert_eq!(app.update(Action::CopyHash), Some("0xtxid".to_string()));
    assert_eq!(app.update(Action::Tick), None);
    app.mark_copied(std::time::Instant::now());
    assert_eq!(app.clipboard_flash.as_ref().map(|(m, _)| m.clone()), Some("Copied!".to_string()));
}

#[test]
fn ctrl_c_quits_and_help_closes_on_any_key() {
    let mut app = App::new("n".to_string());
    let ctrl_c = Event::Key(KeyPress { code: KeyCode::Char('c'), control: true, shift: false });
    assert_eq!(app.handle_event(ctrl_c), Some(Action::Quit));
    assert_eq!(app.handle_event(key('?')), Some(Action::ToggleHelp));
    app.update(Action::ToggleHelp);
    assert_eq!(app.handle_event(key('x')), Some(Action::ToggleHelp));
    assert_eq!(app.handle_event(ctrl_c), Some(Action::Quit));
    assert_eq!(app.handle_event(Event::Tick), Some(Action::Tick));
    assert_eq!(app.handle_event(Event::Resize(80, 24)), None);
}

#[test]
fn gg_goes_to_top_and_count_prefix_repeats() {
    let mut app = App::new("n".to_string());
    assert_eq!(app.handle_event(key('g')), None);
    assert_eq!(app.handle_event(key('g')), Some(Action::GoToTop));
    assert_eq!(app.handle_event(key('G')), Some(Action::GoToBottom));
    assert_eq!(app.handle_event(key('1')), None);
    assert_eq!(app.handle_event(key('2')), None);
    assert_eq!(app.handle_event(key('j')), Some(Action::Down(12)));
    assert_eq!(app.handle_event(key('k')), Some(Action::Up(1)));
    assert_eq!(app.handle_event(key('0')), None);
    assert_eq!(app.handle_event(key('j')), Some(Action::Down(1)));
    assert_eq!(app.handle_event(key('f')), Some(Action::CycleFilter));
    assert_eq!(app.handle_event(key('q')), Some(Action::Quit));
}

#[test]
fn typed_search_sends_block_number() {
    let mut app = App::new("n".to_string());
    assert_eq!(app.handle_event(key('/')), None);
    assert_eq!(app.search_input, Some(String::new()));
    app.handle_event(key('4'));
    app.handle_event(key('x'));
    app.handle_event(key('2'));
    app.handle_event(key('7'));
    app.handle_event(code(KeyCode::Backspace));
    assert_eq!(app.search_input, Some("42".to_string()));
    assert_eq!(app.handle_event(code(KeyCode::Enter)), Some(Action::SearchBlock(42)));
    assert_eq!(app.search_input, None);
    app.handle_event(key('/'));
    app.handle_event(key('1'));
    app.handle_event(code(KeyCode::Backspace));
    assert_eq!(app.search_input, None);
    app.handle_event(key('/'));
    assert_eq!(app.handle_event(code(KeyCode::Esc)), None);
    assert_eq!(app.search_input, None);
}

#[test]
fn keys_in_detail_panes() {
    let mut app = App::new("n".to_string());
    receive(&mut app, block(1, 1), vec![tx("0xt", 1)], vec![note("0xn", 1)]);
    app.update(Action::Enter);
    let tab = code(KeyCode::Tab);
    assert_eq!(app.handle_event(tab), Some(Action::SwitchDetailFocus));
    assert_eq!(app.handle_event(key('h')), Some(Action::Back));
    assert_eq!(app.handle_event(key('e')), Some(Action::ToggleExpandHashes));
    assert_eq!(app.handle_event(key('y')), Some(Action::CopyHash));
    let ctrl_o = Event::Key(KeyPress { code: KeyCode::Char('o'), control: true, shift: false });
    assert_eq!(app.handle_event(ctrl_o), Some(Action::NavBack));
    let ctrl_d = Event::Key(KeyPress { code: KeyCode::Char('d'), control: true, shift: false });
    assert_eq!(app.handle_event(ctrl_d), Some(Action::HalfPageDown));
    app.active_pane = Pane::NoteDetail;
    assert_eq!(app.handle_event(code(KeyCode::Enter)), None);
    app.active_pane = Pane::BlockList;
    assert_eq!(app.handle_event(tab), Some(Action::NavForward));
}

#[test]
fn error_log_keys() {
    let mut app = App::new("n".to_string());
    app.update(Action::ToggleErrorLog);
    assert_eq!(app.handle_event(key('j')), Some(Action::Down(1)));
    assert_eq!(app.handle_event(key('c')), Some(Action::ClearErrorLog));
    assert_eq!(app.handle_event(code(KeyCode::Esc)), Some(Action::ToggleErrorLog));
    assert_eq!(app.handle_event(key('z')), None);
}

#[test]
fn overflowing_count_is_refused_before_update() {
    let mut app = App::new("n".to_string());
    receive(&mut app, block(1, 1), vec![], vec![]);
    receive(&mut app, block(2, 2), vec![], vec![]);
    app.update(Action::Down(1));
    assert!(!app.can_apply(&Action::Down(usize::MAX)));
    assert!(app.can_apply(&Action::Down(3)));
    assert!(app.can_apply(&Action::HalfPageDown));
}

#[test]
fn back_is_undone_by_history() {
    let mut app = App::new("n".to_string());
    receive(&mut app, block(1, 1), vec![tx("0xt", 1)], vec![note("0xn", 1)]);
    app.update(Action::Enter);
    app.update(Action::SwitchDetailFocus);
    app.update(Action::Enter);
    assert_eq!(app.active_pane, Pane::TxDetail);
    app.update(Action::Back);
    assert_eq!(app.active_pane, Pane::BlockDetail);
    app.update(Action::NavBack);
    assert_eq!(app.active_pane, Pane::TxDetail);
    assert_eq!(app.browsing_block_num, Some(1));
    assert_eq!(app.detail_focus, DetailFocus::Txs);
}

#[test]
fn selected_block_is_the_one_highlighted_under_a_filter() {
    let mut app = App::new("n".to_string());
    receive(&mut app, block(1, 1), vec![tx("0xt", 1)], vec![]);
    receive(&mut app, block(2, 2), vec![], vec![]);
    receive(&mut app, block(3, 3), vec![], vec![]);
    app.update(Action::CycleFilter);
    assert_eq!(app.filter, BlockFilter::WithTransactions);
    assert_eq!(app.block_list_selected, Some(0));
    assert_eq!(app.selected_block().map(|b| b.block_num), Some(1));
}
