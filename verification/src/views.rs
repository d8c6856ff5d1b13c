//! The text the explorer shows: times, the key/value rows of the detail views,
//! the breadcrumb and the status-bar labels.
use std::fmt::Write;

use vstd::prelude::*;

use crate::app::{filter_label, opt_string_view, rows_view, App, BlockFilter, DetailFocus, Pane};
use crate::model::AppView;
use crate::text::{
    byte_len, byte_prefix, clamp_len, cut_ok, dec, hex_digits, hex_padded, shorten, shorten_str,
    str_byte_len, str_prefix, u32_to_dec, u64_to_dec, usize_to_dec,
};
use crate::types::{AccountInfo, BlockInfo, NoteInfo, TransactionInfo};

verus! {

// ---------------------------------------------------------------------------
// Clock and calendar
// ---------------------------------------------------------------------------

/// What `chrono::DateTime::<Utc>::from_timestamp(secs, 0)` gives, formatted
/// with `pattern`; `None` where chrono has no such instant or where formatting
/// with the pattern reports an error (an unknown specifier).
pub uninterp spec fn utc_timestamp_text(secs: int, pattern: Seq<char>) -> Option<Seq<char>>;

/// `chrono::DateTime::<Utc>::from_timestamp(secs, 0)`, its value written with
/// `DateTime::format(pattern)` into a string; a formatting error gives `None`
/// rather than a panic. The contract names the text; it does not spell out the
/// calendar.
#[verifier::external_body]
fn format_utc_timestamp(secs: i64, pattern: &str) -> (r: Option<String>)
    ensures
        opt_string_view(r) == utc_timestamp_text(secs as int, pattern@),
{
    let dt = match chrono::DateTime::from_timestamp(secs, 0) {
        Some(dt) => dt,
        None => return None,
    };
    let mut out = String::new();
    match write!(out, "{}", dt.format(pattern)) {
        Ok(()) => Some(out),
        Err(_) => None,
    }
}

/// `chrono::Utc::now().timestamp()`: the current time in seconds since the Unix
/// epoch. Nothing is promised of the value.
#[verifier::external_body]
fn utc_now_timestamp() -> i64 {
    chrono::Utc::now().timestamp()
}

/// The current time in seconds, as the explorer reads it (`as u32`).
pub fn now_secs() -> u32 {
    let t = utc_now_timestamp();
    t as u32
}

/// A timestamp as date and time in UTC with `pattern`, or its decimal number
/// when chrono has no such instant or cannot use the pattern.
pub open spec fn timestamp_text(ts: u32, pattern: Seq<char>) -> Seq<char> {
    match utc_timestamp_text(ts as int, pattern) {
        Some(t) => t,
        None => dec(ts as nat),
    }
}

/// Formats a block timestamp with a chrono pattern.
pub fn format_timestamp(ts: u32, pattern: &str) -> (r: String)
    ensures
        r@ == timestamp_text(ts, pattern@),
{
    match format_utc_timestamp(ts as i64, pattern) {
        Some(t) => t,
        None => u32_to_dec(ts),
    }
}

// ---------------------------------------------------------------------------
// Durations
// ---------------------------------------------------------------------------

/// A positive time difference as `+Ns`, `+MmSs` or `+HhMm`.
pub open spec fn delta_text(diff: nat) -> Seq<char> {
    if diff < 60 {
        "+"@ + dec(diff) + "s"@
    } else if diff < 3600 {
        "+"@ + dec(diff / 60) + "m"@ + dec(diff % 60) + "s"@
    } else {
        "+"@ + dec(diff / 3600) + "h"@ + dec((diff % 3600) / 60) + "m"@
    }
}

/// The time from an older block to a newer one; empty unless the newer is later.
pub open spec fn delta_between(newer_ts: u32, older_ts: u32) -> Seq<char> {
    if newer_ts <= older_ts {
        seq![]
    } else {
        delta_text((newer_ts - older_ts) as nat)
    }
}

/// How long ago `ts` was at time `now`.
pub open spec fn relative_text(ts: u32, now: u32) -> Seq<char> {
    if ts > now {
        "just now"@
    } else {
        let d = (now - ts) as nat;
        if d < 60 {
            dec(d) + "s ago"@
        } else if d < 3600 {
            dec(d / 60) + "m ago"@
        } else if d < 86400 {
            dec(d / 3600) + "h ago"@
        } else {
            dec(d / 86400) + "d ago"@
        }
    }
}

fn delta_string(diff: u32) -> (r: String)
    ensures
        r@ == delta_text(diff as nat),
{
    let mut r = "+".to_owned();
    if diff < 60 {
        r.append(u32_to_dec(diff).as_str());
        r.append("s");
    } else if diff < 3600 {
        r.append(u32_to_dec(diff / 60).as_str());
        r.append("m");
        r.append(u32_to_dec(diff % 60).as_str());
        r.append("s");
    } else {
        r.append(u32_to_dec(diff / 3600).as_str());
        r.append("h");
        r.append(u32_to_dec((diff % 3600) / 60).as_str());
        r.append("m");
    }
    r
}

/// The time between two consecutive blocks of the list.
pub fn format_delta(newer_ts: u32, older_ts: u32) -> (r: String)
    ensures
        r@ == delta_between(newer_ts, older_ts),
{
    if newer_ts <= older_ts {
        return String::new();
    }
    delta_string(newer_ts - older_ts)
}

/// How long ago `ts` was at time `now`.
pub fn format_relative_at(ts: u32, now: u32) -> (r: String)
    ensures
        r@ == relative_text(ts, now),
{
    if ts > now {
        return "just now".to_owned();
    }
    let diff = now - ts;
    let mut r;
    if diff < 60 {
        r = u32_to_dec(diff);
        r.append("s ago");
    } else if diff < 3600 {
        r = u32_to_dec(diff / 60);
        r.append("m ago");
    } else if diff < 86400 {
        r = u32_to_dec(diff / 3600);
        r.append("h ago");
    } else {
        r = u32_to_dec(diff / 86400);
        r.append("d ago");
    }
    r
}

/// How long ago `ts` is, by the clock.
pub fn format_relative(ts: u32) -> (r: String)
    ensures
        exists|now: u32| r@ == relative_text(ts, now),
{
    let now = now_secs();
    format_relative_at(ts, now)
}

// ---------------------------------------------------------------------------
// Block detail rows
// ---------------------------------------------------------------------------

/// The chrono pattern of the block detail timestamp.
pub open spec fn detail_time_pattern() -> Seq<char> {
    "%Y-%m-%d %H:%M:%S UTC"@
}

/// The first block of the list that is older than block `bn`, from position `i` on.
pub open spec fn find_older(blocks: Seq<BlockInfo>, bn: u32, i: nat) -> Option<nat>
    decreases blocks.len() - i,
{
    if i >= blocks.len() {
        None
    } else if blocks[i as int].block_num < bn {
        Some(i)
    } else {
        find_older(blocks, bn, i + 1)
    }
}

proof fn lemma_find_older_from(blocks: Seq<BlockInfo>, bn: u32, i: nat)
    ensures
        match find_older(blocks, bn, i) {
            Some(j) => {
                &&& i <= j < blocks.len()
                &&& blocks[j as int].block_num < bn
                &&& forall|k: int| i <= k < j ==> #[trigger] blocks[k].block_num >= bn
            },
            None => forall|k: int| i <= k < blocks.len() ==> #[trigger] blocks[k].block_num >= bn,
        },
    decreases blocks.len() - i,
{
    if i < blocks.len() && !(blocks[i as int].block_num < bn) {
        lemma_find_older_from(blocks, bn, i + 1);
    }
}

/// The block a Block Time is measured against is the first block of the
/// newest-first list whose number is below `bn`: every block before it has a
/// number of at least `bn`. When no block is below `bn` there is none.
pub proof fn lemma_find_older_is_first_older(blocks: Seq<BlockInfo>, bn: u32)
    ensures
        match find_older(blocks, bn, 0) {
            Some(j) => {
                &&& j < blocks.len()
                &&& blocks[j as int].block_num < bn
                &&& forall|k: int| 0 <= k < j ==> #[trigger] blocks[k].block_num >= bn
            },
            None => forall|k: int| 0 <= k < blocks.len() ==> #[trigger] blocks[k].block_num >= bn,
        },
{
    lemma_find_older_from(blocks, bn, 0);
}

/// The Block Time of `block` is the time since the first block of the list with
/// a lower number (the one just before it), 0 seconds when that block is not
/// earlier; it is empty when no listed block has a lower number.
pub proof fn lemma_block_time_since_first_older(blocks: Seq<BlockInfo>, block: BlockInfo, j: int)
    ensures
        0 <= j < blocks.len() && blocks[j].block_num < block.block_num && (forall|k: int|
            0 <= k < j ==> #[trigger] blocks[k].block_num >= block.block_num) ==> block_time_text(
            blocks,
            block,
        ) == delta_text(
            if block.timestamp >= blocks[j].timestamp {
                (block.timestamp - blocks[j].timestamp) as nat
            } else {
                0
            },
        ),
        (forall|k: int| 0 <= k < blocks.len() ==> #[trigger] blocks[k].block_num
            >= block.block_num) ==> block_time_text(blocks, block) == Seq::<char>::empty(),
{
    lemma_find_older_is_first_older(blocks, block.block_num);
    if 0 <= j < blocks.len() && blocks[j].block_num < block.block_num && (forall|k: int|
        0 <= k < j ==> #[trigger] blocks[k].block_num >= block.block_num) {
        match find_older(blocks, block.block_num, 0) {
            Some(j0) => {
                if (j0 as int) < j {
                    assert(blocks[j0 as int].block_num >= block.block_num);
                } else if (j0 as int) > j {
                    assert(blocks[j].block_num >= block.block_num);
                }
            },
            None => {
                assert(blocks[j].block_num >= block.block_num);
            },
        }
    }
    if forall|k: int| 0 <= k < blocks.len() ==> #[trigger] blocks[k].block_num >= block.block_num {
        match find_older(blocks, block.block_num, 0) {
            Some(j0) => {
                assert(blocks[j0 as int].block_num >= block.block_num);
            },
            None => {},
        }
    }
}

/// The Standard row of a note's detail view shows its standard type when it has
/// one, and a dash only when it has none.
pub proof fn lemma_note_standard_row(note: NoteInfo)
    ensures
        note_rows_spec(note).len() >= 7,
        note_rows_spec(note)[3].0 == "Standard"@,
        note.standard_type matches Some(t) ==> note_rows_spec(note)[3].1 == t@,
        note.standard_type is None ==> note_rows_spec(note)[3].1 == "—"@,
{
}

/// The time since the block before `block` in the list, empty when there is none.
pub open spec fn block_time_text(blocks: Seq<BlockInfo>, block: BlockInfo) -> Seq<char> {
    match find_older(blocks, block.block_num, 0) {
        Some(j) => delta_text(
            if block.timestamp >= blocks[j as int].timestamp {
                (block.timestamp - blocks[j as int].timestamp) as nat
            } else {
                0
            },
        ),
        None => seq![],
    }
}

/// The rows of the block detail view, given the block's time text, how long ago
/// it was and the time since the previous block.
pub open spec fn block_rows_spec(
    block: BlockInfo,
    ts_text: Seq<char>,
    relative: Seq<char>,
    delta: Seq<char>,
) -> Seq<(Seq<char>, Seq<char>)> {
    let head = seq![
        ("Block Number"@, "#"@ + dec(block.block_num as nat)),
        ("Timestamp"@, ts_text + " ("@ + relative + ")"@),
    ];
    let head = if delta.len() > 0 {
        head.push(("Block Time"@, delta))
    } else {
        head
    };
    head + seq![
        ("Version"@, dec(block.version as nat)),
        ("Prev Block"@, block.prev_block_commitment@),
        ("Chain"@, block.chain_commitment@),
        ("Account Root"@, block.account_root@),
        ("Nullifier"@, block.nullifier_root@),
        ("Note Root"@, block.note_root@),
        ("Tx Commit"@, block.tx_commitment@),
        ("Tx Kernel"@, block.tx_kernel_commitment@),
    ]
}

proof fn lemma_rows_push<A>(
    rows: Seq<(String, String)>,
    x: (String, String),
    head: Seq<(Seq<char>, Seq<char>)>,
    items: Seq<A>,
    i: int,
    f: spec_fn(A) -> (Seq<char>, Seq<char>),
)
    requires
        0 <= i < items.len(),
        rows_view(rows) == head + items.take(i).map_values(f),
        (x.0@, x.1@) == f(items[i]),
    ensures
        rows_view(rows.push(x)) == head + items.take(i + 1).map_values(f),
{
    assert(rows_view(rows.push(x)) =~= rows_view(rows).push((x.0@, x.1@)));
    assert(items.take(i + 1) =~= items.take(i).push(items[i]));
    assert(items.take(i + 1).map_values(f) =~= items.take(i).map_values(f).push(f(items[i])));
    assert(rows_view(rows.push(x)) =~= head + items.take(i + 1).map_values(f));
}

proof fn lemma_rows_push_one(rows: Seq<(String, String)>, x: (String, String))
    ensures
        rows_view(rows.push(x)) == rows_view(rows).push((x.0@, x.1@)),
{
    assert(rows_view(rows.push(x)) =~= rows_view(rows).push((x.0@, x.1@)));
}

fn push_row(rows: &mut Vec<(String, String)>, x: (String, String))
    ensures
        rows_view(final(rows)@) == rows_view(old(rows)@).push((x.0@, x.1@)),
{
    proof {
        lemma_rows_push_one(rows@, x);
    }
    rows.push(x);
}

fn pair(a: &str, b: String) -> (r: (String, String))
    ensures
        r.0@ == a@,
        r.1@ == b@,
{
    (a.to_owned(), b)
}

fn hash_label(prefix: &str, n: u32) -> (r: String)
    ensures
        r@ == prefix@ + dec(n as nat),
{
    let mut r = prefix.to_owned();
    r.append(u32_to_dec(n).as_str());
    r
}

/// The time since the previous (older) block of the list.
pub fn block_time(blocks: &Vec<BlockInfo>, block: &BlockInfo) -> (r: String)
    ensures
        r@ == block_time_text(blocks@, *block),
{
    let mut i: usize = 0;
    while i < blocks.len()
        invariant
            i <= blocks@.len(),
            find_older(blocks@, block.block_num, 0) == find_older(blocks@, block.block_num, i as nat),
        decreases blocks@.len() - i,
    {
        if blocks[i].block_num < block.block_num {
            assert(find_older(blocks@, block.block_num, i as nat) == Some(i as nat));
            let diff = block.timestamp.saturating_sub(blocks[i].timestamp);
            return delta_string(diff);
        }
        i = i + 1;
    }
    String::new()
}

/// The rows of the block detail view for a block shown at time `now` with the
/// timestamp text `ts_text`.
pub fn block_rows_from(
    block: &BlockInfo,
    blocks: &Vec<BlockInfo>,
    ts_text: &str,
    now: u32,
) -> (r: Vec<(String, String)>)
    ensures
        rows_view(r@) == block_rows_spec(
            *block,
            ts_text@,
            relative_text(block.timestamp, now),
            block_time_text(blocks@, *block),
        ),
{
    let relative = format_relative_at(block.timestamp, now);
    let delta = block_time(blocks, block);
    let mut ts = ts_text.to_owned();
    ts.append(" (");
    ts.append(relative.as_str());
    ts.append(")");
    let mut rows: Vec<(String, String)> = Vec::new();
    rows.push(pair("Block Number", hash_label("#", block.block_num)));
    rows.push(pair("Timestamp", ts));
    if !delta.as_str().is_empty() {
        rows.push(pair("Block Time", delta));
    }
    rows.push(pair("Version", u32_to_dec(block.version)));
    rows.push(pair("Prev Block", block.prev_block_commitment.clone()));
    rows.push(pair("Chain", block.chain_commitment.clone()));
    rows.push(pair("Account Root", block.account_root.clone()));
    rows.push(pair("Nullifier", block.nullifier_root.clone()));
    rows.push(pair("Note Root", block.note_root.clone()));
    rows.push(pair("Tx Commit", block.tx_commitment.clone()));
    rows.push(pair("Tx Kernel", block.tx_kernel_commitment.clone()));
    proof {
        let spec = block_rows_spec(
            *block,
            ts_text@,
            relative_text(block.timestamp, now),
            block_time_text(blocks@, *block),
        );
        assert(rows_view(rows@) =~= spec);
    }
    rows
}

/// The rows of the block detail view for a block shown at time `now`.
pub fn block_detail_rows(block: &BlockInfo, blocks: &Vec<BlockInfo>, now: u32) -> (r: Vec<
    (String, String),
>)
    ensures
        rows_view(r@) == block_rows_spec(
            *block,
            timestamp_text(block.timestamp, detail_time_pattern()),
            relative_text(block.timestamp, now),
            block_time_text(blocks@, *block),
        ),
{
    let ts = format_timestamp(block.timestamp, "%Y-%m-%d %H:%M:%S UTC");
    block_rows_from(block, blocks, ts.as_str(), now)
}

// ---------------------------------------------------------------------------
// Transaction and note detail rows
// ---------------------------------------------------------------------------

/// The label of a note row in the transaction view: `Note ` and the first
/// 12 bytes of its id.
pub open spec fn note_row_label(id: Seq<char>) -> Seq<char> {
    "Note "@ + byte_prefix(id, clamp_len(id, 12))
}

/// Every note id can be cut after its first 12 bytes.
pub open spec fn note_ids_cut_ok(notes: Seq<NoteInfo>) -> bool {
    forall|i: int|
        0 <= i < notes.len() ==> cut_ok(
            #[trigger] notes[i].note_id@,
            clamp_len(notes[i].note_id@, 12),
        )
}

/// The rows of the transaction detail view: the transaction's fields, then one
/// row per note of its block.
pub open spec fn tx_rows_spec(tx: TransactionInfo, notes: Seq<NoteInfo>) -> Seq<
    (Seq<char>, Seq<char>),
> {
    seq![
        ("Transaction ID"@, tx.tx_id@),
        ("Account ID"@, tx.account_id@),
        ("Block Number"@, "#"@ + dec(tx.block_num as nat)),
        ("Input Notes"@, dec(tx.input_note_count as nat)),
        ("Output Notes"@, dec(tx.output_note_count as nat)),
    ] + notes.map_values(|n: NoteInfo| (note_row_label(n.note_id@), n.note_id@))
}

/// The rows of the transaction detail view.
pub fn tx_detail_rows(tx: &TransactionInfo, notes: &Vec<NoteInfo>) -> (r: Vec<(String, String)>)
    requires
        note_ids_cut_ok(notes@),
    ensures
        rows_view(r@) == tx_rows_spec(*tx, notes@),
{
    let mut rows: Vec<(String, String)> = Vec::new();
    rows.push(pair("Transaction ID", tx.tx_id.clone()));
    rows.push(pair("Account ID", tx.account_id.clone()));
    rows.push(pair("Block Number", hash_label("#", tx.block_num)));
    rows.push(pair("Input Notes", usize_to_dec(tx.input_note_count)));
    rows.push(pair("Output Notes", usize_to_dec(tx.output_note_count)));
    let ghost head = rows_view(rows@);
    let mut i: usize = 0;
    while i < notes.len()
        invariant
            i <= notes@.len(),
            note_ids_cut_ok(notes@),
            rows_view(rows@) == head + notes@.take(i as int).map_values(
                |n: NoteInfo| (note_row_label(n.note_id@), n.note_id@),
            ),
        decreases notes@.len() - i,
    {
        let id = notes[i].note_id.as_str();
        let len = str_byte_len(id);
        let cut = if len < 12 {
            len
        } else {
            12
        };
        assert(cut_ok(notes@[i as int].note_id@, clamp_len(notes@[i as int].note_id@, 12)));
        let mut label = "Note ".to_owned();
        label.append(str_prefix(id, cut));
        let x = (label, notes[i].note_id.clone());
        proof {
            lemma_rows_push(
                rows@,
                x,
                head,
                notes@,
                i as int,
                |n: NoteInfo| (note_row_label(n.note_id@), n.note_id@),
            );
        }
        rows.push(x);
        i = i + 1;
    }
    proof {
        assert(notes@.take(notes@.len() as int) =~= notes@);
        assert(rows_view(rows@) =~= tx_rows_spec(*tx, notes@));
    }
    rows
}

/// The tag of a note as `N (0xHHHHHHHH)`.
pub open spec fn tag_text(tag: u32) -> Seq<char> {
    dec(tag as nat) + " (0x"@ + hex_digits(tag as nat, 8) + ")"@
}

/// The rows of the note detail view.
pub open spec fn note_rows_spec(note: NoteInfo) -> Seq<(Seq<char>, Seq<char>)> {
    seq![
        ("Note ID"@, note.note_id@),
        ("Block Number"@, "#"@ + dec(note.block_num as nat)),
        ("Note Index"@, dec(note.note_index as nat)),
        ("Standard"@, match note.standard_type {
            Some(t) => t@,
            None => "—"@,
        }),
        ("Type"@, note.note_type@),
        ("Tag"@, tag_text(note.tag)),
        ("Sender"@, note.sender@),
    ] + match note.target {
        Some(t) => seq![("Addressed To"@, t@)],
        None => seq![],
    }
}

/// The rows of the note detail view.
pub fn note_detail_rows(note: &NoteInfo) -> (r: Vec<(String, String)>)
    ensures
        rows_view(r@) == note_rows_spec(*note),
        note.standard_type matches Some(t) ==> rows_view(r@)[3] == ("Standard"@, t@),
        note.standard_type is None ==> rows_view(r@)[3] == ("Standard"@, "—"@),
{
    let mut rows: Vec<(String, String)> = Vec::new();
    rows.push(pair("Note ID", note.note_id.clone()));
    rows.push(pair("Block Number", hash_label("#", note.block_num)));
    rows.push(pair("Note Index", u32_to_dec(note.note_index)));
    let standard = match &note.standard_type {
        Some(t) => t.clone(),
        None => "—".to_owned(),
    };
    rows.push(pair("Standard", standard));
    rows.push(pair("Type", note.note_type.clone()));
    let mut tag = u32_to_dec(note.tag);
    tag.append(" (0x");
    tag.append(hex_padded(note.tag, 8).as_str());
    tag.append(")");
    rows.push(pair("Tag", tag));
    rows.push(pair("Sender", note.sender.clone()));
    if let Some(target) = &note.target {
        rows.push(pair("Addressed To", target.clone()));
    }
    proof {
        assert(rows_view(rows@) =~= note_rows_spec(*note));
    }
    rows
}

// ---------------------------------------------------------------------------
// Account detail rows
// ---------------------------------------------------------------------------

/// The row of a note in an account's history: its kind and block, and its id.
pub open spec fn account_note_row(n: NoteInfo) -> (Seq<char>, Seq<char>) {
    let kind = match n.standard_type {
        Some(t) => t@,
        None => n.note_type@,
    };
    ("  "@ + kind + " #"@ + dec(n.block_num as nat), n.note_id@)
}

/// The row of a transaction in an account's history.
pub open spec fn account_tx_row(t: TransactionInfo) -> (Seq<char>, Seq<char>) {
    ("  tx #"@ + dec(t.block_num as nat), t.tx_id@)
}

/// The live-state part of an account view.
pub open spec fn live_rows(a: AccountInfo) -> Seq<(Seq<char>, Seq<char>)> {
    match a.live_state {
        Some(ls) => seq![("Nonce"@, ls.nonce@), ("Assets"@, dec(ls.num_assets as nat))]
            + ls.assets@.map_values(|x: String| ("  •"@, x@)) + seq![
            ("Storage"@, ls.storage_commitment@),
        ],
        None => match a.error {
            Some(e) => seq![("Error"@, e@)],
            None => seq![("State"@, "no public state (private account)"@)],
        },
    }
}

/// A section header with its item count.
pub open spec fn count_header(title: Seq<char>, n: nat) -> (Seq<char>, Seq<char>) {
    (title + " ("@ + dec(n) + ")"@, seq![])
}

/// The rows of the account view; `account` is `None` while it is still loading.
pub open spec fn account_rows_spec(id: Seq<char>, account: Option<AccountInfo>) -> Seq<
    (Seq<char>, Seq<char>),
> {
    seq![("Account ID"@, id)] + match account {
        None => seq![("Status"@, "loading…"@)],
        Some(a) => seq![
            ("Account Type"@, a.account_type@),
            ("Public"@, if a.is_public {
                "yes"@
            } else {
                "no"@
            }),
        ] + live_rows(a) + seq![(seq![], seq![]), count_header("Transactions"@, a.txs@.len())]
            + a.txs@.map_values(|t: TransactionInfo| account_tx_row(t)) + seq![
            count_header("Notes sent"@, a.sent_notes@.len()),
        ] + a.sent_notes@.map_values(|n: NoteInfo| account_note_row(n)) + seq![
            count_header("Notes received"@, a.received_notes@.len()),
        ] + a.received_notes@.map_values(|n: NoteInfo| account_note_row(n)),
    }
}

fn header_row(title: &str, n: usize) -> (r: (String, String))
    ensures
        (r.0@, r.1@) == count_header(title@, n as nat),
{
    let mut t = title.to_owned();
    t.append(" (");
    t.append(usize_to_dec(n).as_str());
    t.append(")");
    (t, String::new())
}

fn push_note_rows(rows: &mut Vec<(String, String)>, notes: &Vec<NoteInfo>)
    ensures
        rows_view(final(rows)@) == rows_view(old(rows)@) + notes@.map_values(
            |n: NoteInfo| account_note_row(n),
        ),
{
    let ghost start = rows_view(rows@);
    let mut i: usize = 0;
    while i < notes.len()
        invariant
            i <= notes@.len(),
            rows_view(rows@) == start + notes@.take(i as int).map_values(
                |n: NoteInfo| account_note_row(n),
            ),
        decreases notes@.len() - i,
    {
        let n = &notes[i];
        let mut label = "  ".to_owned();
        match &n.standard_type {
            Some(t) => label.append(t.as_str()),
            None => label.append(n.note_type.as_str()),
        }
        label.append(" #");
        label.append(u32_to_dec(n.block_num).as_str());
        let x = (label, n.note_id.clone());
        proof {
            lemma_rows_push(rows@, x, start, notes@, i as int, |n: NoteInfo| account_note_row(n));
        }
        rows.push(x);
        i = i + 1;
    }
    assert(notes@.take(notes@.len() as int) =~= notes@);
}

fn push_tx_rows(rows: &mut Vec<(String, String)>, txs: &Vec<TransactionInfo>)
    ensures
        rows_view(final(rows)@) == rows_view(old(rows)@) + txs@.map_values(
            |t: TransactionInfo| account_tx_row(t),
        ),
{
    let ghost start = rows_view(rows@);
    let mut i: usize = 0;
    while i < txs.len()
        invariant
            i <= txs@.len(),
            rows_view(rows@) == start + txs@.take(i as int).map_values(
                |t: TransactionInfo| account_tx_row(t),
            ),
        decreases txs@.len() - i,
    {
        let x = (hash_label("  tx #", txs[i].block_num), txs[i].tx_id.clone());
        proof {
            lemma_rows_push(
                rows@,
                x,
                start,
                txs@,
                i as int,
                |t: TransactionInfo| account_tx_row(t),
            );
        }
        rows.push(x);
        i = i + 1;
    }
    assert(txs@.take(txs@.len() as int) =~= txs@);
}

fn push_live_rows(rows: &mut Vec<(String, String)>, a: &AccountInfo)
    ensures
        rows_view(final(rows)@) == rows_view(old(rows)@) + live_rows(*a),
{
    let ghost start = rows_view(rows@);
    match &a.live_state {
        Some(ls) => {
            push_row(rows, pair("Nonce", ls.nonce.clone()));
            push_row(rows, pair("Assets", usize_to_dec(ls.num_assets)));
            let ghost mid = rows_view(rows@);
            let mut i: usize = 0;
            while i < ls.assets.len()
                invariant
                    i <= ls.assets@.len(),
                    rows_view(rows@) == mid + ls.assets@.take(i as int).map_values(
                        |x: String| ("  •"@, x@),
                    ),
                decreases ls.assets@.len() - i,
            {
                let x = pair("  •", ls.assets[i].clone());
                proof {
                    lemma_rows_push(rows@, x, mid, ls.assets@, i as int, |x: String| ("  •"@, x@));
                }
                rows.push(x);
                i = i + 1;
            }
            assert(ls.assets@.take(ls.assets@.len() as int) =~= ls.assets@);
            push_row(rows, pair("Storage", ls.storage_commitment.clone()));
        },
        None => match &a.error {
            Some(e) => push_row(rows, pair("Error", e.clone())),
            None => push_row(rows, pair("State", "no public state (private account)".to_owned())),
        },
    }
    proof {
        assert(rows_view(rows@) =~= start + live_rows(*a));
    }
}

/// The rows of the account view; `account` is `None` while it is still loading.
pub fn account_detail_rows(id: &str, account: Option<&AccountInfo>) -> (r: Vec<(String, String)>)
    ensures
        rows_view(r@) == account_rows_spec(
            id@,
            match account {
                Some(a) => Some(*a),
                None => None,
            },
        ),
{
    let mut rows: Vec<(String, String)> = Vec::new();
    push_row(&mut rows, pair("Account ID", id.to_owned()));
    match account {
        None => {
            push_row(&mut rows, pair("Status", "loading…".to_owned()));
        },
        Some(a) => {
            push_row(&mut rows, pair("Account Type", a.account_type.clone()));
            push_row(&mut rows, pair("Public", if a.is_public {
                "yes".to_owned()
            } else {
                "no".to_owned()
            }));
            push_live_rows(&mut rows, a);
            push_row(&mut rows, (String::new(), String::new()));
            push_row(&mut rows, header_row("Transactions", a.txs.len()));
            push_tx_rows(&mut rows, &a.txs);
            push_row(&mut rows, header_row("Notes sent", a.sent_notes.len()));
            push_note_rows(&mut rows, &a.sent_notes);
            push_row(&mut rows, header_row("Notes received", a.received_notes.len()));
            push_note_rows(&mut rows, &a.received_notes);
        },
    }
    proof {
        assert(rows_view(rows@) =~= account_rows_spec(
            id@,
            match account {
                Some(a) => Some(*a),
                None => None,
            },
        ));
    }
    rows
}

// ---------------------------------------------------------------------------
// The rows of the current detail view
// ---------------------------------------------------------------------------

/// The state after the current detail view has been drawn at time `now`: the
/// rows it shows become the rows that `y` copies from. The block view keeps
/// them only while its block panel has focus.
pub open spec fn rows_refreshed(s: AppView, now: u32) -> AppView {
    match s.active_pane {
        Pane::BlockDetail => match s.selected_block() {
            Some(b) => if s.detail_focus == DetailFocus::Block {
                AppView {
                    detail_rows: block_rows_spec(
                        b,
                        timestamp_text(b.timestamp, detail_time_pattern()),
                        relative_text(b.timestamp, now),
                        block_time_text(s.blocks, b),
                    ),
                    ..s
                }
            } else {
                s
            },
            None => s,
        },
        Pane::TxDetail => match s.selected_tx() {
            Some(t) => AppView { detail_rows: tx_rows_spec(t, s.selected_block_notes), ..s },
            None => s,
        },
        Pane::NoteDetail => match s.selected_note() {
            Some(n) => AppView { detail_rows: note_rows_spec(n), ..s },
            None => s,
        },
        Pane::BlockList => s,
    }
}

/// Drawing the current detail view cuts no id inside a character.
pub open spec fn rows_cut_ok(s: AppView) -> bool {
    s.active_pane == Pane::TxDetail && s.selected_tx() is Some ==> note_ids_cut_ok(
        s.selected_block_notes,
    )
}

/// Whether `s` may be cut after its first `n` bytes (or is shorter).
pub fn prefix_cut_ok(s: &str, n: usize) -> (r: bool)
    ensures
        r == cut_ok(s@, clamp_len(s@, n as nat)),
{
    let len = str_byte_len(s);
    let cut = if len < n {
        len
    } else {
        n
    };
    s.is_char_boundary(cut)
}

impl App {
    /// Whether the current detail view can be drawn without cutting a character.
    pub fn detail_rows_renderable(&self) -> (r: bool)
        ensures
            r == rows_cut_ok(self@),
    {
        if self.active_pane == Pane::TxDetail && self.selected_tx().is_some() {
            let mut i: usize = 0;
            while i < self.selected_block_notes.len()
                invariant
                    i <= self.selected_block_notes@.len(),
                    self.active_pane == Pane::TxDetail,
                    self@.selected_tx() is Some,
                    forall|j: int|
                        0 <= j < i ==> cut_ok(
                            #[trigger] self.selected_block_notes@[j].note_id@,
                            clamp_len(self.selected_block_notes@[j].note_id@, 12),
                        ),
                decreases self.selected_block_notes@.len() - i,
            {
                if !prefix_cut_ok(self.selected_block_notes[i].note_id.as_str(), 12) {
                    assert(!cut_ok(
                        self.selected_block_notes@[i as int].note_id@,
                        clamp_len(self.selected_block_notes@[i as int].note_id@, 12),
                    ));
                    return false;
                }
                i = i + 1;
            }
        }
        true
    }

    /// Recomputes the rows of the current detail view as drawn at time `now`.
    pub fn refresh_detail_rows_at(&mut self, now: u32)
        requires
            rows_cut_ok(old(self)@),
        ensures
            final(self)@ == rows_refreshed(old(self)@, now),
    {
        match self.active_pane {
            Pane::BlockDetail => {
                let rows = match self.selected_block() {
                    Some(b) => Some(block_detail_rows(b, &self.blocks, now)),
                    None => None,
                };
                if let Some(rows) = rows {
                    if self.detail_focus == DetailFocus::Block {
                        self.detail_rows = rows;
                    }
                }
            },
            Pane::TxDetail => {
                let rows = match self.selected_tx() {
                    Some(t) => Some(tx_detail_rows(t, &self.selected_block_notes)),
                    None => None,
                };
                if let Some(rows) = rows {
                    self.detail_rows = rows;
                }
            },
            Pane::NoteDetail => {
                let rows = match self.selected_note() {
                    Some(n) => Some(note_detail_rows(n)),
                    None => None,
                };
                if let Some(rows) = rows {
                    self.detail_rows = rows;
                }
            },
            Pane::BlockList => {},
        }
        proof {
            assert(self@ =~= rows_refreshed(old(self)@, now));
        }
    }

    /// Recomputes the rows of the current detail view as drawn now.
    pub fn refresh_detail_rows(&mut self)
        requires
            rows_cut_ok(old(self)@),
        ensures
            exists|now: u32| final(self)@ == rows_refreshed(old(self)@, now),
    {
        let now = now_secs();
        self.refresh_detail_rows_at(now);
    }
}

// ---------------------------------------------------------------------------
// Breadcrumb and status bar
// ---------------------------------------------------------------------------

/// `#N` for a browsed block, `?` when none is.
pub open spec fn block_ref_text(bn: Option<u32>) -> Seq<char> {
    match bn {
        Some(n) => "#"@ + dec(n as nat),
        None => "?"@,
    }
}

/// The navigation trail shown in the status bar.
pub open spec fn breadcrumb_spec(s: AppView) -> Seq<char> {
    match s.active_pane {
        Pane::BlockList => "Blocks"@,
        Pane::BlockDetail => "Blocks > Block "@ + block_ref_text(s.browsing_block_num),
        Pane::TxDetail => "Blocks > "@ + block_ref_text(s.browsing_block_num) + " > Tx "@
            + match s.selected_tx() {
            Some(t) => shorten(t.tx_id@, 12),
            None => "?"@,
        },
        Pane::NoteDetail => "Blocks > "@ + block_ref_text(s.browsing_block_num) + " > Note "@
            + match s.selected_note() {
            Some(n) => shorten(n.note_id@, 12),
            None => "?"@,
        },
    }
}

/// The trail can be drawn without cutting an id inside a character.
pub open spec fn breadcrumb_cut_ok(s: AppView) -> bool {
    &&& (s.active_pane == Pane::TxDetail && s.selected_tx() is Some && byte_len(
        s.selected_tx()->0.tx_id@,
    ) > 12 ==> cut_ok(s.selected_tx()->0.tx_id@, 12))
    &&& (s.active_pane == Pane::NoteDetail && s.selected_note() is Some && byte_len(
        s.selected_note()->0.note_id@,
    ) > 12 ==> cut_ok(s.selected_note()->0.note_id@, 12))
}

fn block_ref(bn: Option<u32>) -> (r: String)
    ensures
        r@ == block_ref_text(bn),
{
    match bn {
        Some(n) => hash_label("#", n),
        None => "?".to_owned(),
    }
}

impl App {
    /// Whether the breadcrumb can be drawn without cutting an id inside a character.
    pub fn breadcrumb_renderable(&self) -> (r: bool)
        ensures
            r == breadcrumb_cut_ok(self@),
    {
        match self.active_pane {
            Pane::TxDetail => match self.selected_tx() {
                Some(t) => str_byte_len(t.tx_id.as_str()) <= 12 || t.tx_id.as_str().is_char_boundary(
                    12,
                ),
                None => true,
            },
            Pane::NoteDetail => match self.selected_note() {
                Some(n) => str_byte_len(n.note_id.as_str()) <= 12
                    || n.note_id.as_str().is_char_boundary(12),
                None => true,
            },
            _ => true,
        }
    }

    /// The navigation trail shown in the status bar.
    pub fn breadcrumb(&self) -> (r: String)
        requires
            breadcrumb_cut_ok(self@),
        ensures
            r@ == breadcrumb_spec(self@),
    {
        match self.active_pane {
            Pane::BlockList => "Blocks".to_owned(),
            Pane::BlockDetail => {
                let mut r = "Blocks > Block ".to_owned();
                r.append(block_ref(self.browsing_block_num).as_str());
                r
            },
            Pane::TxDetail => {
                let mut r = "Blocks > ".to_owned();
                r.append(block_ref(self.browsing_block_num).as_str());
                r.append(" > Tx ");
                match self.selected_tx() {
                    Some(t) => r.append(shorten_str(t.tx_id.as_str(), 12).as_str()),
                    None => r.append("?"),
                }
                r
            },
            Pane::NoteDetail => {
                let mut r = "Blocks > ".to_owned();
                r.append(block_ref(self.browsing_block_num).as_str());
                r.append(" > Note ");
                match self.selected_note() {
                    Some(n) => r.append(shorten_str(n.note_id.as_str(), 12).as_str()),
                    None => r.append("?"),
                }
                r
            },
        }
    }

    /// The head of the chain as shown in the status bar.
    pub fn head_label(&self) -> (r: String)
        ensures
            r@ == (if self@.blocks.len() > 0 {
                " Head: #"@ + dec(self@.blocks[0].block_num as nat) + " "@
            } else {
                " Head: -- "@
            }),
    {
        if self.blocks.len() > 0 {
            let mut r = hash_label(" Head: #", self.blocks[0].block_num);
            r.append(" ");
            r
        } else {
            " Head: -- ".to_owned()
        }
    }

    /// The loading or syncing progress shown in the status bar, if any.
    pub fn progress_label(&self) -> (r: Option<String>)
        ensures
            opt_string_view(r) == progress_text(self@),
    {
        if let Some((current, target)) = self.load_progress {
            Some(progress_string("Loading ", current, target))
        } else if let Some((current, target)) = self.sync_progress {
            if self.sync_done {
                Some(progress_string("✔ Synced ", current, target))
            } else {
                Some(progress_string("Syncing ", current, target))
            }
        } else {
            None
        }
    }

    /// The error count shown in the status bar while errors are logged.
    pub fn error_count_label(&self) -> (r: Option<String>)
        ensures
            opt_string_view(r) == (if self@.error_log.len() > 0 {
                Some("⚠ "@ + dec(self@.error_log.len()) + " error(s)"@)
            } else {
                None
            }),
    {
        if self.error_log.len() > 0 {
            let mut r = "⚠ ".to_owned();
            r.append(usize_to_dec(self.error_log.len()).as_str());
            r.append(" error(s)");
            Some(r)
        } else {
            None
        }
    }

    /// The title of the block list.
    pub fn block_list_title(&self) -> (r: String)
        ensures
            r@ == list_title(self@.network, self@.filter),
    {
        let mut r = " miden-watch [".to_owned();
        r.append(self.network.as_str());
        if self.filter == BlockFilter::All {
            r.append("] - Blocks ");
        } else {
            r.append("] - Blocks (filtered: ");
            r.append(self.filter.label());
            r.append(") ");
        }
        r
    }
}

/// `label` followed by `current/target`.
pub open spec fn progress_pair(label: Seq<char>, current: u32, target: u32) -> Seq<char> {
    label + dec(current as nat) + "/"@ + dec(target as nat)
}

/// The status-bar progress text: loading from the database first, then syncing.
pub open spec fn progress_text(s: AppView) -> Option<Seq<char>> {
    match s.load_progress {
        Some((c, t)) => Some(progress_pair("Loading "@, c, t)),
        None => match s.sync_progress {
            Some((c, t)) => Some(
                if s.sync_done {
                    progress_pair("✔ Synced "@, c, t)
                } else {
                    progress_pair("Syncing "@, c, t)
                },
            ),
            None => None,
        },
    }
}

fn progress_string(label: &str, current: u32, target: u32) -> (r: String)
    ensures
        r@ == progress_pair(label@, current, target),
{
    let mut r = label.to_owned();
    r.append(u32_to_dec(current).as_str());
    r.append("/");
    r.append(u32_to_dec(target).as_str());
    r
}

/// The title of the block list for a network and filter.
pub open spec fn list_title(network: Seq<char>, f: BlockFilter) -> Seq<char> {
    if f == BlockFilter::All {
        " miden-watch ["@ + network + "] - Blocks "@
    } else {
        " miden-watch ["@ + network + "] - Blocks (filtered: "@ + filter_label(f) + ") "@
    }
}

/// How quickly the node answers.
#[derive(Debug, Clone, Copy, PartialEq, Eq, Structural)]
pub enum Health {
    Good,
    Slow,
    Bad,
}

/// Below 100 ms is good, below 500 ms slow, anything more bad.
pub fn latency_health(ms: u64) -> (r: Health)
    ensures
        r == (if ms < 100 {
            Health::Good
        } else if ms < 500 {
            Health::Slow
        } else {
            Health::Bad
        }),
{
    if ms < 100 {
        Health::Good
    } else if ms < 500 {
        Health::Slow
    } else {
        Health::Bad
    }
}

/// The latency shown in the status bar.
pub fn latency_label(ms: Option<u64>) -> (r: String)
    ensures
        r@ == match ms {
            Some(m) => " ● "@ + dec(m as nat) + "ms "@,
            None => " ○ -- "@,
        },
{
    match ms {
        Some(m) => {
            let mut r = " ● ".to_owned();
            r.append(u64_to_dec(m).as_str());
            r.append("ms ");
            r
        },
        None => " ○ -- ".to_owned(),
    }
}

/// One line of the error log: its number from 1 and the message.
pub fn error_log_line(i: usize, msg: &str) -> (r: String)
    requires
        i < usize::MAX,
    ensures
        r@ == "["@ + dec(i as nat + 1) + "] "@ + msg@,
{
    let mut r = "[".to_owned();
    r.append(usize_to_dec(i + 1).as_str());
    r.append("] ");
    r.append(msg);
    r
}

/// The storage mode of a transaction's account, as the list classifies it.
#[derive(Debug, Clone, Copy, PartialEq, Eq, Structural)]
pub enum StorageKind {
    Public,
    Private,
    Network,
    Unknown,
}

/// Classifies a storage mode string.
pub fn storage_kind(mode: &str) -> (r: StorageKind)
    ensures
        r == (if mode@ == "public"@ {
            StorageKind::Public
        } else if mode@ == "private"@ {
            StorageKind::Private
        } else if mode@ == "network"@ {
            StorageKind::Network
        } else {
            StorageKind::Unknown
        }),
{
    if crate::text::str_eq(mode, "public") {
        StorageKind::Public
    } else if crate::text::str_eq(mode, "private") {
        StorageKind::Private
    } else if crate::text::str_eq(mode, "network") {
        StorageKind::Network
    } else {
        StorageKind::Unknown
    }
}

/// The short label of a storage mode in the transaction list.
pub fn storage_label(kind: StorageKind) -> (r: &'static str)
    ensures
        r@ == match kind {
            StorageKind::Public => "pub"@,
            StorageKind::Private => "priv"@,
            StorageKind::Network => "net"@,
            StorageKind::Unknown => "?"@,
        },
{
    match kind {
        StorageKind::Public => "pub",
        StorageKind::Private => "priv",
        StorageKind::Network => "net",
        StorageKind::Unknown => "?",
    }
}

/// The title of a panel of the block view: its name, its count, and the hint of
/// where Tab leads while it has focus.
pub open spec fn panel_title_text(name: Seq<char>, count: nat, hint: Seq<char>, focused: bool) -> Seq<
    char,
> {
    " "@ + name + " ("@ + dec(count) + ")"@ + if focused {
        " "@ + hint + " "@
    } else {
        " "@
    }
}

fn panel_title(name: &str, count: usize, hint: &str, focused: bool) -> (r: String)
    ensures
        r@ == panel_title_text(name@, count as nat, hint@, focused),
{
    let mut r = " ".to_owned();
    r.append(name);
    r.append(" (");
    r.append(usize_to_dec(count).as_str());
    r.append(")");
    if focused {
        r.append(" ");
        r.append(hint);
        r.append(" ");
    } else {
        r.append(" ");
    }
    r
}

/// The title of the transaction panel of the block view.
pub fn tx_panel_title(count: usize, focused: bool) -> (r: String)
    ensures
        r@ == panel_title_text("Transactions"@, count as nat, "[Tab:notes]"@, focused),
{
    panel_title("Transactions", count, "[Tab:notes]", focused)
}

/// The title of the note panel of the block view.
pub fn note_panel_title(count: usize, focused: bool) -> (r: String)
    ensures
        r@ == panel_title_text("Notes"@, count as nat, "[Tab:block]"@, focused),
{
    panel_title("Notes", count, "[Tab:block]", focused)
}

/// The title of the block panel of the block view.
pub fn block_panel_title(block_num: u32, focused: bool) -> (r: String)
    ensures
        r@ == " Block #"@ + dec(block_num as nat) + if focused {
            " [Tab:txs] "@
        } else {
            " "@
        },
{
    let mut r = hash_label(" Block #", block_num);
    if focused {
        r.append(" [Tab:txs] ");
    } else {
        r.append(" ");
    }
    r
}

} // verus!
