use miden_watch::account::{account_info, account_view_from, coalesce, live_state, AssetEntry};
use miden_watch::action::Action;
use miden_watch::app::{App, Pane};
use miden_watch::views::{
    block_panel_title, note_panel_title, tx_panel_title,
    account_detail_rows, block_rows_from, error_log_line, format_delta, format_relative_at,
    format_timestamp, latency_health, latency_label, note_detail_rows, storage_kind, storage_label,
    tx_detail_rows, Health, StorageKind,
};
use miden_watch::types::{AccountLiveState, BlockInfo, NoteInfo, TransactionInfo};

fn s(x: &str) -> String {
    x.to_string()
}

fn rows(v: &[(&str, &str)]) -> Vec<(String, String)> {
    v.iter().map(|(a, b)| (s(a), s(b))).collect()
}

fn block(block_num: u32, timestamp: u32) -> BlockInfo {
    BlockInfo {
        block_num,
        timestamp,
        version: 2,
        prev_block_commitment: s("0xp"),
        chain_commitment: s("0xc"),
        account_root: s("0xa"),
        nullifier_root: s("0xn"),
        note_root: s("0xr"),
        tx_commitment: s("0xt"),
        tx_kernel_commitment: s("0xk"),
        tx_count: 0,
        note_count: 0,
    }
}

fn note(id: &str) -> NoteInfo {
    NoteInfo {
        note_id: s(id),
        block_num: 4,
        sender: s("0xsender"),
        note_type: s("Public"),
        tag: 255,
        note_index: 3,
        standard_type: None,
        target: Some(s("0xtarget")),
    }
}

#[test]
fn deltas_between_blocks() {
    assert_eq!(format_delta(100, 100), "");
    assert_eq!(format_delta(100, 200), "");
    assert_eq!(format_delta(159, 100), "+59s");
    assert_eq!(format_delta(100 + 125, 100), "+2m5s");
    assert_eq!(format_delta(3600 * 2 + 60 * 3 + 7, 0), "+2h3m");
}

#[test]
fn relative_times() {
    assert_eq!(format_relative_at(200, 100), "just now");
    assert_eq!(format_relative_at(100, 130), "30s ago");
    assert_eq!(format_relative_at(0, 120), "2m ago");
    assert_eq!(format_relative_at(0, 7200), "2h ago");
    assert_eq!(format_relative_at(0, 86400 * 3), "3d ago");
}

#[test]
fn timestamps_in_utc() {
    assert_eq!(format_timestamp(0, "%Y-%m-%d %H:%M:%S UTC"), "1970-01-01 00:00:00 UTC");
    assert_eq!(format_timestamp(86400 + 3661, "%Y-%m-%d %H:%M:%S"), "1970-01-02 01:01:01");
}

#[test]
fn block_detail_rows_list_fields() {
    let b = block(7, 1000);
    let list = vec![block(8, 1100), b.clone(), block(6, 970)];
    let r = block_rows_from(&b, &list, "TS", 1060);
    assert_eq!(
        r,
        rows(&[
            ("Block Number", "#7"),
            ("Timestamp", "TS (1m ago)"),
            ("Block Time", "+30s"),
            ("Version", "2"),
            ("Prev Block", "0xp"),
            ("Chain", "0xc"),
            ("Account Root", "0xa"),
            ("Nullifier", "0xn"),
            ("Note Root", "0xr"),
            ("Tx Commit", "0xt"),
            ("Tx Kernel", "0xk"),
        ])
    );
    let only = vec![b.clone()];
    assert_eq!(block_rows_from(&b, &only, "TS", 1000).len(), 10);
}

#[test]
fn tx_detail_rows_list_notes() {
    let t = TransactionInfo {
        tx_id: s("0xtx"),
        account_id: s("0xacct"),
        account_storage_mode: s("private"),
        block_num: 4,
        input_note_count: 1,
        output_note_count: 2,
    };
    let r = tx_detail_rows(&t, &vec![note("0x0123456789abcdef"), note("0xab")]);
    assert_eq!(
        r,
        rows(&[
            ("Transaction ID", "0xtx"),
            ("Account ID", "0xacct"),
            ("Block Number", "#4"),
            ("Input Notes", "1"),
            ("Output Notes", "2"),
            ("Note 0x0123456789", "0x0123456789abcdef"),
            ("Note 0xab", "0xab"),
        ])
    );
}

#[test]
fn note_detail_rows_show_tag_in_hex() {
    let r = note_detail_rows(&note("0xnote"));
    assert_eq!(
        r,
        rows(&[
            ("Note ID", "0xnote"),
            ("Block Number", "#4"),
            ("Note Index", "3"),
            ("Standard", "—"),
            ("Type", "Public"),
            ("Tag", "255 (0x000000ff)"),
            ("Sender", "0xsender"),
            ("Addressed To", "0xtarget"),
        ])
    );
}

#[test]
fn account_rows_while_loading_and_loaded() {
    assert_eq!(
        account_detail_rows("0xid", None),
        rows(&[("Account ID", "0xid"), ("Status", "loading…")])
    );
    let mut n = note("0xn1");
    n.standard_type = Some(s("P2ID"));
    let assets = vec![
        AssetEntry::Fungible { amount: 100, faucet: s("0xf") },
        AssetEntry::NonFungible { faucet: s("0xg") },
    ];
    let live = live_state(s("5"), &assets, s("0xstore"));
    assert_eq!(live.num_assets, 2);
    let view = account_view_from(s("regular"), true, Ok(Some(live)));
    let t = TransactionInfo {
        tx_id: s("0xtx"),
        account_id: s("0xid"),
        account_storage_mode: s("public"),
        block_num: 9,
        input_note_count: 0,
        output_note_count: 0,
    };
    let info = account_info(s("0xid"), Ok(view), vec![t], vec![n], vec![]);
    assert_eq!(
        account_detail_rows("0xid", Some(&info)),
        rows(&[
            ("Account ID", "0xid"),
            ("Account Type", "regular"),
            ("Public", "yes"),
            ("Nonce", "5"),
            ("Assets", "2"),
            ("  •", "100 @ 0xf"),
            ("  •", "NFT @ 0xg"),
            ("Storage", "0xstore"),
            ("", ""),
            ("Transactions (1)", ""),
            ("  tx #9", "0xtx"),
            ("Notes sent (1)", ""),
            ("  P2ID #4", "0xn1"),
            ("Notes received (0)", ""),
        ])
    );
    let failed = account_info(s("0xid"), Err(s("boom")), vec![], vec![], vec![]);
    assert_eq!(failed.account_type, "");
    assert!(!failed.is_public);
    assert_eq!(failed.error, Some(s("boom")));
    assert_eq!(
        account_detail_rows("0xid", Some(&failed))[3],
        (s("Error"), s("boom"))
    );
    let private = account_view_from(s("faucet"), false, Ok(None));
    let info = account_info(s("0xid"), Ok(private), vec![], vec![], vec![]);
    assert_eq!(
        account_detail_rows("0xid", Some(&info))[3],
        (s("State"), s("no public state (private account)"))
    );
    let rpc_err = account_view_from(s("faucet"), true, Err(s("down")));
    assert_eq!(rpc_err.3, Some(s("down")));
    let _unused: Option<AccountLiveState> = rpc_err.2;
}

#[test]
fn newest_queued_lookup_wins() {
    assert_eq!(coalesce(s("a"), vec![]), "a");
    assert_eq!(coalesce(s("a"), vec![s("b"), s("c")]), "c");
}

#[test]
fn status_labels() {
    assert_eq!(latency_health(99), Health::Good);
    assert_eq!(latency_health(100), Health::Slow);
    assert_eq!(latency_health(500), Health::Bad);
    assert_eq!(latency_label(Some(42)), " ● 42ms ");
    assert_eq!(latency_label(None), " ○ -- ");
    assert_eq!(error_log_line(0, "boom"), "[1] boom");
    assert_eq!(storage_label(storage_kind("public")), "pub");
    assert_eq!(storage_kind("network"), StorageKind::Network);
    assert_eq!(storage_label(storage_kind("weird")), "?");
}

#[test]
fn breadcrumb_progress_and_titles() {
    let mut app = App::new(s("testnet"));
    assert_eq!(app.breadcrumb(), "Blocks");
    assert_eq!(app.head_label(), " Head: -- ");
    assert_eq!(app.block_list_title(), " miden-watch [testnet] - Blocks ");
    assert_eq!(app.progress_label(), None);
    assert_eq!(app.error_count_label(), None);
    let t = TransactionInfo {
        tx_id: s("0x0123456789abcdef"),
        account_id: s("0xid"),
        account_storage_mode: s("public"),
        block_num: 3,
        input_note_count: 0,
        output_note_count: 0,
    };
    app.update(Action::NewBlockReceived { block: block(3, 30), transactions: vec![t], notes: vec![] });
    assert_eq!(app.head_label(), " Head: #3 ");
    app.update(Action::Enter);
    assert_eq!(app.breadcrumb(), "Blocks > Block #3");
    app.update(Action::SwitchDetailFocus);
    app.update(Action::Enter);
    assert_eq!(app.active_pane, Pane::TxDetail);
    assert!(app.breadcrumb_renderable());
    assert_eq!(app.breadcrumb(), "Blocks > #3 > Tx 0x0123456789...");
    app.refresh_detail_rows_at(40);
    assert_eq!(app.detail_rows[0], (s("Transaction ID"), s("0x0123456789abcdef")));
    app.update(Action::SyncProgress { current: 2, target: 9 });
    assert_eq!(app.progress_label(), Some(s("Syncing 2/9")));
    app.update(Action::SyncDone);
    assert_eq!(app.progress_label(), Some(s("✔ Synced 2/9")));
    app.update(Action::LoadProgress { current: 1, target: 4 });
    assert_eq!(app.progress_label(), Some(s("Loading 1/4")));
    app.update(Action::SyncError(s("x")));
    assert_eq!(app.error_count_label(), Some(s("⚠ 1 error(s)")));
    app.update(Action::CycleFilter);
    assert_eq!(app.block_list_title(), " miden-watch [testnet] - Blocks (filtered: Has txs) ");
}

#[test]
fn block_rows_refresh_with_focus() {
    let mut app = App::new(s("n"));
    app.update(Action::NewBlockReceived { block: block(3, 30), transactions: vec![], notes: vec![] });
    app.update(Action::Enter);
    app.refresh_detail_rows();
    assert_eq!(app.detail_rows[0], (s("Block Number"), s("#3")));
    assert_eq!(app.detail_rows.len(), 10);
    app.update(Action::Down(2));
    assert_eq!(app.detail_row_selected, Some(2));
    assert_eq!(app.update(Action::CopyHash), Some(s("2")));
}

#[test]
fn panel_titles() {
    assert_eq!(tx_panel_title(3, true), " Transactions (3) [Tab:notes] ");
    assert_eq!(tx_panel_title(3, false), " Transactions (3) ");
    assert_eq!(note_panel_title(0, true), " Notes (0) [Tab:block] ");
    assert_eq!(block_panel_title(7, true), " Block #7 [Tab:txs] ");
    assert_eq!(block_panel_title(7, false), " Block #7 ");
}

#[test]
fn timestamp_with_unknown_specifier_falls_back_to_number() {
    assert_eq!(format_timestamp(42, "%Q"), "42");
}
