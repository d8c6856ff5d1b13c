//! The records the explorer shows: blocks, transactions, notes, accounts,
//! and where syncing starts.
use vstd::prelude::*;

use crate::text::{lowercase, parse_u32, parse_unsigned, str_eq, str_to_lowercase};

verus! {

/// Where to start syncing from.
#[derive(Debug, Clone, Copy, PartialEq, Eq, Structural)]
pub enum StartFrom {
    /// Start from the current chain tip
    Tip,
    /// Start from the genesis block (block 0)
    Genesis,
    /// Start from a specific block number
    Block(u32),
}

/// The message given for an argument that names no starting point;
/// `lowered` is the argument in lowercase.
pub open spec fn start_from_error_message(lowered: Seq<char>) -> Seq<char> {
    "expected 'tip', 'genesis', or a block number, got '"@ + lowered + "'"@
}

/// What a lowercased `--from` argument means.
pub open spec fn start_from_lowered(lowered: Seq<char>) -> Result<StartFrom, Seq<char>> {
    if lowered == "tip"@ || lowered == "latest"@ {
        Ok(StartFrom::Tip)
    } else if lowered == "genesis"@ {
        Ok(StartFrom::Genesis)
    } else {
        match parse_unsigned(lowered, u32::MAX as nat) {
            Some(n) => Ok(StartFrom::Block(n as u32)),
            None => Err(start_from_error_message(lowered)),
        }
    }
}

/// The view of a parse result whose error is a `String`.
pub open spec fn start_from_result_view(r: Result<StartFrom, String>) -> Result<StartFrom, Seq<char>> {
    match r {
        Ok(v) => Ok(v),
        Err(e) => Err(e@),
    }
}

impl StartFrom {
    /// Interprets an argument that is already in lowercase:
    /// `tip` or `latest`, `genesis`, or a block number.
    pub fn from_lowercase(lowered: &str) -> (r: Result<StartFrom, String>)
        ensures
            start_from_result_view(r) == start_from_lowered(lowered@),
    {
        if str_eq(lowered, "tip") || str_eq(lowered, "latest") {
            Ok(StartFrom::Tip)
        } else if str_eq(lowered, "genesis") {
            Ok(StartFrom::Genesis)
        } else {
            match parse_u32(lowered) {
                Some(n) => Ok(StartFrom::Block(n)),
                None => {
                    let mut msg = "expected 'tip', 'genesis', or a block number, got '".to_owned();
                    msg.append(lowered);
                    msg.append("'");
                    Err(msg)
                },
            }
        }
    }

    /// Interprets a `--from` argument, ignoring case.
    pub fn parse(s: &str) -> (r: Result<StartFrom, String>)
        ensures
            start_from_result_view(r) == start_from_lowered(lowercase(s@)),
    {
        let lowered = str_to_lowercase(s);
        StartFrom::from_lowercase(lowered.as_str())
    }
}

impl std::str::FromStr for StartFrom {
    type Err = String;

    fn from_str(s: &str) -> (r: Result<StartFrom, String>)
        ensures
            start_from_result_view(r) == start_from_lowered(lowercase(s@)),
    {
        StartFrom::parse(s)
    }
}

#[derive(Debug, PartialEq, Eq)]
pub struct BlockInfo {
    pub block_num: u32,
    pub timestamp: u32,
    pub version: u32,
    pub prev_block_commitment: String,
    pub chain_commitment: String,
    pub account_root: String,
    pub nullifier_root: String,
    pub note_root: String,
    pub tx_commitment: String,
    pub tx_kernel_commitment: String,
    pub tx_count: usize,
    pub note_count: usize,
}

impl Clone for BlockInfo {
    fn clone(&self) -> (res: Self)
        ensures
            res == *self,
    {
        BlockInfo {
            block_num: self.block_num,
            timestamp: self.timestamp,
            version: self.version,
            prev_block_commitment: self.prev_block_commitment.clone(),
            chain_commitment: self.chain_commitment.clone(),
            account_root: self.account_root.clone(),
            nullifier_root: self.nullifier_root.clone(),
            note_root: self.note_root.clone(),
            tx_commitment: self.tx_commitment.clone(),
            tx_kernel_commitment: self.tx_kernel_commitment.clone(),
            tx_count: self.tx_count,
            note_count: self.note_count,
        }
    }
}

#[derive(Debug, PartialEq, Eq)]
pub struct TransactionInfo {
    pub tx_id: String,
    pub account_id: String,
    pub account_storage_mode: String,
    pub block_num: u32,
    pub input_note_count: usize,
    pub output_note_count: usize,
}

impl Clone for TransactionInfo {
    fn clone(&self) -> (res: Self)
        ensures
            res == *self,
    {
        TransactionInfo {
            tx_id: self.tx_id.clone(),
            account_id: self.account_id.clone(),
            account_storage_mode: self.account_storage_mode.clone(),
            block_num: self.block_num,
            input_note_count: self.input_note_count,
            output_note_count: self.output_note_count,
        }
    }
}

/// Copies an optional string.
pub fn clone_opt_string(s: &Option<String>) -> (r: Option<String>)
    ensures
        r == *s,
{
    match s {
        Some(v) => Some(v.clone()),
        None => None,
    }
}

#[derive(Debug, PartialEq, Eq)]
pub struct NoteInfo {
    pub note_id: String,
    pub block_num: u32,
    pub sender: String,
    pub note_type: String,
    pub tag: u32,
    pub note_index: u32,
    /// Standard note kind (P2ID/P2IDE/SWAP/PSWAP/MINT/BURN) for public notes, else None.
    pub standard_type: Option<String>,
    /// For public P2ID/P2IDE notes, the addressee account id (hex), else None.
    pub target: Option<String>,
}

impl Clone for NoteInfo {
    fn clone(&self) -> (res: Self)
        ensures
            res == *self,
    {
        NoteInfo {
            note_id: self.note_id.clone(),
            block_num: self.block_num,
            sender: self.sender.clone(),
            note_type: self.note_type.clone(),
            tag: self.tag,
            note_index: self.note_index,
            standard_type: clone_opt_string(&self.standard_type),
            target: clone_opt_string(&self.target),
        }
    }
}

/// Live public state of an account, fetched on demand from the node.
#[derive(Debug, PartialEq, Eq)]
pub struct AccountLiveState {
    pub nonce: String,
    pub num_assets: usize,
    pub assets: Vec<String>,
    pub storage_commitment: String,
}

impl Clone for AccountLiveState {
    fn clone(&self) -> (res: Self)
        ensures
            res.nonce == self.nonce,
            res.num_assets == self.num_assets,
            res.assets@ == self.assets@,
            res.storage_commitment == self.storage_commitment,
    {
        let assets = self.assets.clone();
        assert(assets@ =~= self.assets@);
        AccountLiveState {
            nonce: self.nonce.clone(),
            num_assets: self.num_assets,
            assets,
            storage_commitment: self.storage_commitment.clone(),
        }
    }
}

/// A flattened account view: local history plus (optional) live public state.
#[derive(Debug, PartialEq, Eq)]
pub struct AccountInfo {
    pub account_id: String,
    /// Account type string (regular/faucet).
    pub account_type: String,
    /// Whether the account has public on-chain state.
    pub is_public: bool,
    /// Live public state; None for private accounts or when the fetch returned nothing.
    pub live_state: Option<AccountLiveState>,
    /// RPC error text, if the live-state fetch failed (local history is still shown).
    pub error: Option<String>,
    /// Transactions authored by this account (local, from observed blocks).
    pub txs: Vec<TransactionInfo>,
    /// Notes created by this account (sender == id).
    pub sent_notes: Vec<NoteInfo>,
    /// Notes addressed to this account (P2ID/P2IDE target == id).
    pub received_notes: Vec<NoteInfo>,
}

/// Everything fetched for one block: its header fields with counts, its
/// transactions and its notes.
#[derive(Debug)]
pub struct SyncResult {
    pub block: BlockInfo,
    pub transactions: Vec<TransactionInfo>,
    pub notes: Vec<NoteInfo>,
}

} // verus!
