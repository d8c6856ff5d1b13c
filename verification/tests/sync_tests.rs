use miden_watch::sync::{cached_window_start, fetch_error, sync_result, tip_error, SyncCommand, SyncEvent, SyncStage, Syncer};
use miden_watch::types::{BlockInfo, StartFrom};

fn ev_step(s: &mut Syncer, ev: SyncEvent) -> (SyncCommand, Option<String>) {
    assert!(s.can_step(&ev));
    s.step(ev)
}

#[test]
fn start_at_tip_resumes_after_stored_blocks() {
    let (mut s, c) = Syncer::new(StartFrom::Tip);
    assert_eq!(c, SyncCommand::GetChainTip);
    assert_eq!(ev_step(&mut s, SyncEvent::ChainTip(10)), (SyncCommand::LoadCache, None));
    assert_eq!(s.current_block, 10);
    assert_eq!(ev_step(&mut s, SyncEvent::Latest(Some(12))), (SyncCommand::WaitTick, None));
    assert_eq!(s.current_block, 13);
    assert_eq!(s.stage, SyncStage::Tail);
    assert_eq!(ev_step(&mut s, SyncEvent::Ticked), (SyncCommand::GetChainTip, None));
    assert_eq!(ev_step(&mut s, SyncEvent::ChainTip(12)), (SyncCommand::WaitTick, None));
    assert_eq!(ev_step(&mut s, SyncEvent::ChainTip(14)), (SyncCommand::FetchBlock(13), None));
    assert_eq!(ev_step(&mut s, SyncEvent::BlockFetched), (SyncCommand::FetchBlock(14), None));
    assert_eq!(ev_step(&mut s, SyncEvent::BlockFetched), (SyncCommand::WaitTick, None));
    assert_eq!(s.current_block, 15);
}

#[test]
fn explicit_start_is_kept() {
    let (mut s, c) = Syncer::new(StartFrom::Block(500));
    assert_eq!(c, SyncCommand::LoadCache);
    ev_step(&mut s, SyncEvent::Latest(Some(900)));
    assert_eq!(s.current_block, 500);
    let (mut g, _) = Syncer::new(StartFrom::Genesis);
    ev_step(&mut g, SyncEvent::Latest(None));
    assert_eq!(g.current_block, 0);
}

#[test]
fn tip_start_resumes_after_stored_blocks() {
    let (mut s, _) = Syncer::new(StartFrom::Tip);
    ev_step(&mut s, SyncEvent::ChainTip(50));
    ev_step(&mut s, SyncEvent::Latest(Some(40)));
    assert_eq!(s.current_block, 41);
    ev_step(&mut s, SyncEvent::Ticked);
    assert_eq!(ev_step(&mut s, SyncEvent::ChainTip(50)), (SyncCommand::FetchBlock(41), None));
}

#[test]
fn tip_start_with_empty_database_begins_at_tip() {
    let (mut s, _) = Syncer::new(StartFrom::Tip);
    ev_step(&mut s, SyncEvent::ChainTip(50));
    ev_step(&mut s, SyncEvent::Latest(None));
    assert_eq!(s.current_block, 50);
}

#[test]
fn failures_are_reported_and_retried() {
    let (mut s, _) = Syncer::new(StartFrom::Tip);
    assert_eq!(
        ev_step(&mut s, SyncEvent::ChainTipFailed("down".to_string())),
        (SyncCommand::LoadCache, Some("Failed to get chain tip: down".to_string()))
    );
    assert_eq!(s.current_block, 0);
    ev_step(&mut s, SyncEvent::Latest(None));
    ev_step(&mut s, SyncEvent::ChainTip(3));
    assert_eq!(
        ev_step(&mut s, SyncEvent::BlockFailed("timeout".to_string())),
        (SyncCommand::WaitTick, Some("Failed to fetch block 0: timeout".to_string()))
    );
    assert_eq!(s.current_block, 0);
    assert_eq!(ev_step(&mut s, SyncEvent::Ticked), (SyncCommand::GetChainTip, None));
    assert_eq!(ev_step(&mut s, SyncEvent::ChainTip(3)), (SyncCommand::FetchBlock(0), None));
    assert_eq!(tip_error("x"), "Failed to get chain tip: x");
    assert_eq!(fetch_error(7, "y"), "Failed to fetch block 7: y");
}

#[test]
fn last_block_number_cannot_be_passed() {
    let (mut s, _) = Syncer::new(StartFrom::Block(u32::MAX));
    ev_step(&mut s, SyncEvent::Latest(None));
    ev_step(&mut s, SyncEvent::ChainTip(u32::MAX));
    assert!(!s.can_step(&SyncEvent::BlockFetched));
    let (t, _) = Syncer::new(StartFrom::Tip);
    let mut t = t;
    ev_step(&mut t, SyncEvent::ChainTip(0));
    assert!(!t.can_step(&SyncEvent::Latest(Some(u32::MAX))));
}

#[test]
fn fetched_block_counts() {
    let b = BlockInfo {
        block_num: 1,
        timestamp: 0,
        version: 0,
        prev_block_commitment: String::new(),
        chain_commitment: String::new(),
        account_root: String::new(),
        nullifier_root: String::new(),
        note_root: String::new(),
        tx_commitment: String::new(),
        tx_kernel_commitment: String::new(),
        tx_count: 9,
        note_count: 9,
    };
    let r = sync_result(b, vec![], vec![]);
    assert_eq!((r.block.tx_count, r.block.note_count), (0, 0));
}

#[test]
fn cached_window_covers_newest_blocks() {
    assert_eq!(cached_window_start(1000), 901);
    assert_eq!(cached_window_start(99), 0);
    assert_eq!(cached_window_start(5), 0);
}
