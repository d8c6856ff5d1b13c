//! Assembling the account view: the last of several queued lookups is served,
//! the node's answer is combined with the local history, and live assets are
//! listed.
use vstd::prelude::*;

use crate::text::{dec, u64_to_dec};
use crate::types::{AccountInfo, AccountLiveState, NoteInfo, TransactionInfo};

verus! {

/// Of the lookups queued one after another, only the newest is served.
pub fn coalesce(first: String, queued: Vec<String>) -> (r: String)
    ensures
        r@ == (if queued@.len() == 0 {
            first@
        } else {
            queued@.last()@
        }),
{
    let mut id = first;
    let mut queued = queued;
    let ghost q = queued@;
    if queued.len() > 0 {
        let last = queued.pop().unwrap();
        assert(last == q.last());
        id = last;
    }
    id
}

/// What the node said of an account: its type, whether it is public, its live
/// state (None for a private account or an empty answer) and the error text
/// of a failed request.
pub type AccountView = (String, bool, Option<AccountLiveState>, Option<String>);

/// An account's metadata together with the outcome of fetching its live state:
/// the details on success, the error text on failure.
pub fn account_view_from(
    account_type: String,
    is_public: bool,
    details: Result<Option<AccountLiveState>, String>,
) -> (r: AccountView)
    ensures
        r.0 == account_type,
        r.1 == is_public,
        match details {
            Ok(d) => r.2 == d && r.3 is None,
            Err(e) => r.2 is None && r.3 == Some(e),
        },
{
    match details {
        Ok(d) => (account_type, is_public, d, None),
        Err(e) => (account_type, is_public, None, Some(e)),
    }
}

/// The account view shown for `id`: the node's answer (or, when the lookup
/// failed outright, an empty type, not public, and the error), with the
/// transactions, sent notes and received notes found locally.
pub fn account_info(
    id: String,
    view: Result<AccountView, String>,
    txs: Vec<TransactionInfo>,
    sent_notes: Vec<NoteInfo>,
    received_notes: Vec<NoteInfo>,
) -> (r: AccountInfo)
    ensures
        r.account_id == id,
        match view {
            Ok(v) => r.account_type == v.0 && r.is_public == v.1 && r.live_state == v.2 && r.error
                == v.3,
            Err(e) => r.account_type@ == Seq::<char>::empty() && !r.is_public && r.live_state is None
                && r.error == Some(e),
        },
        r.txs@ == txs@,
        r.sent_notes@ == sent_notes@,
        r.received_notes@ == received_notes@,
{
    let (account_type, is_public, live_state, error) = match view {
        Ok(v) => v,
        Err(e) => (String::new(), false, None, Some(e)),
    };
    AccountInfo {
        account_id: id,
        account_type,
        is_public,
        live_state,
        error,
        txs,
        sent_notes,
        received_notes,
    }
}

/// An asset of an account's vault.
#[derive(Debug, Clone, PartialEq, Eq)]
pub enum AssetEntry {
    /// An amount issued by a faucet (hex id).
    Fungible { amount: u64, faucet: String },
    /// A non-fungible asset of a faucet (hex id).
    NonFungible { faucet: String },
}

/// How an asset is listed: `amount @ faucet` or `NFT @ faucet`.
pub open spec fn asset_text(a: AssetEntry) -> Seq<char> {
    match a {
        AssetEntry::Fungible { amount, faucet } => dec(amount as nat) + " @ "@ + faucet@,
        AssetEntry::NonFungible { faucet } => "NFT @ "@ + faucet@,
    }
}

fn asset_string(a: &AssetEntry) -> (r: String)
    ensures
        r@ == asset_text(*a),
{
    match a {
        AssetEntry::Fungible { amount, faucet } => {
            let mut r = u64_to_dec(*amount);
            r.append(" @ ");
            r.append(faucet.as_str());
            r
        },
        AssetEntry::NonFungible { faucet } => {
            let mut r = "NFT @ ".to_owned();
            r.append(faucet.as_str());
            r
        },
    }
}

/// The live state of an account: its nonce, its assets as listed, their number,
/// and its storage commitment.
pub fn live_state(nonce: String, assets: &Vec<AssetEntry>, storage_commitment: String) -> (r:
    AccountLiveState)
    ensures
        r.nonce == nonce,
        r.num_assets as nat == assets@.len(),
        r.assets@.len() == assets@.len(),
        forall|i: int| 0 <= i < assets@.len() ==> #[trigger] r.assets@[i]@ == asset_text(assets@[i]),
        r.storage_commitment == storage_commitment,
{
    let mut list: Vec<String> = Vec::new();
    let mut i: usize = 0;
    while i < assets.len()
        invariant
            i <= assets@.len(),
            list@.len() == i,
            forall|j: int| 0 <= j < i ==> #[trigger] list@[j]@ == asset_text(assets@[j]),
        decreases assets@.len() - i,
    {
        list.push(asset_string(&assets[i]));
        i = i + 1;
    }
    AccountLiveState { nonce, num_assets: list.len(), assets: list, storage_commitment }
}

} // verus!
