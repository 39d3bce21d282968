//! The three views that the reader puts together from the answers to
//! several primitive lookups. Each is total: it is built from whatever the
//! lookups returned.

use crate::tsb::msg::{
    GetAllBalancesResponse, GetAllTokensResponse, GetBalancesByOwnerResponse,
    GetPendingBitcoinSyncResponse, GetTokenOperationsResponse, GetTokenResponse,
    GetTokensForSyncResponse, SyncStatus, TSBBalance, TSBOperation, TSBToken, TokenSummary,
    UserPortfolio,
};
use vstd::prelude::*;
use vstd::string::StringExecFns;

verus! {

/// Whether `balance` makes its owner a holder of the token `token_id`: it is
/// a balance of that token, and its amount is not the literal `0`.
pub open spec fn is_holding(balance: TSBBalance, token_id: Seq<char>) -> bool {
    balance.token_id@ == token_id && balance.amount@ != "0"@
}

/// Number of entries of `balances` that make their owner a holder of
/// `token_id`.
pub open spec fn holder_count(balances: Seq<TSBBalance>, token_id: Seq<char>) -> nat {
    balances.filter(|b: TSBBalance| is_holding(b, token_id)).len()
}

/// Number of `tokens` whose sync flag is set.
pub open spec fn synced_count(tokens: Seq<TSBToken>) -> nat {
    tokens.filter(|t: TSBToken| t.synced_with_bitcoin).len()
}

/// Whether one of `operations` is on the token `token_id`.
pub open spec fn has_operation_on(operations: Seq<TSBOperation>, token_id: Seq<char>) -> bool {
    exists|i: int| 0 <= i < operations.len() && (#[trigger] operations[i]).token_id@ == token_id
}

/// A count as a 32-bit field holds it: the count itself up to `u32::MAX`, and
/// its low 32 bits beyond.
pub open spec fn low_bits(count: nat) -> u32 {
    (count % 0x1_0000_0000) as u32
}

/// The supply that a summary reports: the token's amount, or the empty text
/// where the token was not found.
pub open spec fn supply_of(token: Option<TSBToken>) -> Seq<char> {
    match token {
        Some(t) => t.amount@,
        None => Seq::empty(),
    }
}

/// Whether `summary` is the summary of the token `token_id` that the four
/// answers give.
pub open spec fn is_token_summary(
    summary: TokenSummary,
    token_id: Seq<char>,
    token: GetTokenResponse,
    operations: GetTokenOperationsResponse,
    balances: GetAllBalancesResponse,
    pending: GetPendingBitcoinSyncResponse,
) -> bool {
    &&& summary.token == token.token
    &&& summary.total_supply@ == supply_of(token.token)
    &&& summary.holder_count == low_bits(holder_count(balances.balances@, token_id))
    &&& summary.operations_count == low_bits(operations.operations@.len())
    &&& summary.pending_sync == has_operation_on(pending.operations@, token_id)
}

/// Whether `portfolio` is the portfolio of `owner` that the answer gives. Its
/// total value is always the literal `0`: no quotation enters it.
pub open spec fn is_user_portfolio(
    portfolio: UserPortfolio,
    owner: String,
    balances: GetBalancesByOwnerResponse,
) -> bool {
    &&& portfolio.owner == owner
    &&& portfolio.balances == balances.balances
    &&& portfolio.total_tokens == low_bits(balances.balances@.len())
    &&& portfolio.total_value@ == "0"@
}

/// Whether `status` is the sync status that the three answers give. The ids
/// of the tokens to sync stand as they were returned.
pub open spec fn is_sync_status(
    status: SyncStatus,
    tokens: GetAllTokensResponse,
    pending: GetPendingBitcoinSyncResponse,
    for_sync: GetTokensForSyncResponse,
) -> bool {
    &&& status.total_tokens == low_bits(tokens.tokens@.len())
    &&& status.synced_tokens == low_bits(synced_count(tokens.tokens@))
    &&& status.pending_operations == low_bits(pending.operations@.len())
    &&& status.tokens_for_sync == for_sync.token_ids
}

/// Counting the entries that meet `pred` goes entry by entry.
proof fn lemma_count_next<T>(s: Seq<T>, pred: spec_fn(T) -> bool, i: int)
    requires
        0 <= i < s.len(),
    ensures
        pred(s[i]) ==> s.take(i + 1).filter(pred).len() == s.take(i).filter(pred).len() + 1,
        !pred(s[i]) ==> s.take(i + 1).filter(pred).len() == s.take(i).filter(pred).len(),
        s.take(i).filter(pred).len() <= i,
{
    assert(s.take(i + 1) == s.take(i).push(s[i]));
    s.take(i).lemma_filter_len_push(pred, s[i]);
    s.take(i).lemma_filter_len(pred);
}

/// Number of entries of `balances` that make their owner a holder of
/// `token_id`.
pub fn count_holders(balances: &Vec<TSBBalance>, token_id: &str) -> (count: usize)
    ensures
        count == holder_count(balances@, token_id@),
{
    let id = String::from_str(token_id);
    let zero = String::from_str("0");
    let ghost pred = |b: TSBBalance| is_holding(b, token_id@);
    let mut count: usize = 0;
    let mut i: usize = 0;
    assert(balances@.take(0).filter(pred) =~= Seq::empty()) by {
        reveal(Seq::filter);
    }
    while i < balances.len()
        invariant
            i <= balances.len(),
            count <= i,
            count == balances@.take(i as int).filter(pred).len(),
            pred == |b: TSBBalance| is_holding(b, token_id@),
            id@ == token_id@,
            zero@ == "0"@,
        decreases balances.len() - i,
    {
        proof {
            lemma_count_next(balances@, pred, i as int);
        }
        let balance = &balances[i];
        if balance.token_id == id && !(balance.amount == zero) {
            count = count + 1;
        }
        i = i + 1;
    }
    assert(balances@.take(i as int) == balances@);
    count
}

/// Number of `tokens` whose sync flag is set.
pub fn count_synced(tokens: &Vec<TSBToken>) -> (count: usize)
    ensures
        count == synced_count(tokens@),
{
    let ghost pred = |t: TSBToken| t.synced_with_bitcoin;
    let mut count: usize = 0;
    let mut i: usize = 0;
    assert(tokens@.take(0).filter(pred) =~= Seq::empty()) by {
        reveal(Seq::filter);
    }
    while i < tokens.len()
        invariant
            i <= tokens.len(),
            count <= i,
            count == tokens@.take(i as int).filter(pred).len(),
            pred == |t: TSBToken| t.synced_with_bitcoin,
        decreases tokens.len() - i,
    {
        proof {
            lemma_count_next(tokens@, pred, i as int);
        }
        if tokens[i].synced_with_bitcoin {
            count = count + 1;
        }
        i = i + 1;
    }
    assert(tokens@.take(i as int) == tokens@);
    count
}

/// Whether one of `operations` is on the token `token_id`.
pub fn any_operation_on(operations: &Vec<TSBOperation>, token_id: &str) -> (found: bool)
    ensures
        found == has_operation_on(operations@, token_id@),
{
    let id = String::from_str(token_id);
    let mut i: usize = 0;
    while i < operations.len()
        invariant
            i <= operations.len(),
            id@ == token_id@,
            forall|k: int| 0 <= k < i ==> (#[trigger] operations@[k]).token_id@ != token_id@,
        decreases operations.len() - i,
    {
        if operations[i].token_id == id {
            return true;
        }
        i = i + 1;
    }
    false
}

/// A count as a 32-bit field holds it: its low 32 bits.
pub fn count_field(count: usize) -> (field: u32)
    ensures
        field == low_bits(count as nat),
{
    let wide: u64 = count as u64;
    assert((wide as u32) == (wide % 0x1_0000_0000) as u32) by (bit_vector);
    #[verifier::truncate]
    (wide as u32)
}

/// The summary of the token `token_id` from the answers to the lookups of
/// the token, of its operations, of all balances and of the operations that
/// await a sync. A token that was not found leaves `token` empty and the
/// supply the empty text; the rest is computed all the same.
pub fn query_token_summary(
    token_id: &str,
    token: GetTokenResponse,
    operations: &GetTokenOperationsResponse,
    balances: &GetAllBalancesResponse,
    pending: &GetPendingBitcoinSyncResponse,
) -> (summary: TokenSummary)
    ensures
        is_token_summary(summary, token_id@, token, *operations, *balances, *pending),
{
    let holder_count = count_field(count_holders(&balances.balances, token_id));
    let pending_sync = any_operation_on(&pending.operations, token_id);
    let total_supply = match &token.token {
        Some(t) => t.amount.clone(),
        None => String::new(),
    };
    TokenSummary {
        token: token.token,
        total_supply,
        holder_count,
        operations_count: count_field(operations.operations.len()),
        pending_sync,
    }
}

/// The portfolio of `owner` from the answer to the lookup of the owner's
/// balances.
pub fn query_user_portfolio(owner: String, balances: GetBalancesByOwnerResponse) -> (portfolio:
    UserPortfolio)
    ensures
        is_user_portfolio(portfolio, owner, balances),
{
    UserPortfolio {
        owner,
        total_tokens: count_field(balances.balances.len()),
        balances: balances.balances,
        total_value: String::from_str("0"),
    }
}

/// The sync status from the answers to the lookups of all tokens, of the
/// operations that await a sync and of the tokens to sync.
pub fn query_sync_status(
    tokens: &GetAllTokensResponse,
    pending: &GetPendingBitcoinSyncResponse,
    for_sync: GetTokensForSyncResponse,
) -> (status: SyncStatus)
    ensures
        is_sync_status(status, *tokens, *pending, for_sync),
{
    SyncStatus {
        total_tokens: count_field(tokens.tokens.len()),
        synced_tokens: count_field(count_synced(&tokens.tokens)),
        pending_operations: count_field(pending.operations.len()),
        tokens_for_sync: for_sync.token_ids,
    }
}

} // verus!
