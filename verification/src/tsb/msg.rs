//! Requests, records and views of the TSB reader.

use vstd::prelude::*;

verus! {

/// A primitive lookup at the chain's token module.
#[derive(Clone, Debug, PartialEq)]
pub enum TSBQuery {
    GetAllTokens {  },
    GetToken { token_id: String },
    GetTokensByCreator { creator: String },
    GetAllBalances {  },
    GetTokenBalance { token_id: String, owner: String },
    GetBalancesByOwner { owner: String },
    GetTokenOperations { token_id: String },
    GetTokenOperation { operation_id: String },
    GetPendingBitcoinSync {  },
    GetTokensForSync {  },
    GetUtxos { address: Option<String> },
}

/// A token as the token module defines it. Amounts stay decimal strings.
#[derive(Clone, Debug, PartialEq)]
pub struct TSBToken {
    pub token_id: String,
    pub amount: String,
    pub type_code: u32,
    pub metadata: String,
    pub creator: String,
    pub creation_time: String,
    pub bitcoin_tx_id: String,
    pub synced_with_bitcoin: bool,
}

/// How much of a token an address owns.
#[derive(Clone, Debug, PartialEq)]
pub struct TSBBalance {
    pub token_id: String,
    pub owner: String,
    pub amount: String,
}

/// A recorded transfer, mint or sync of a token.
#[derive(Clone, Debug, PartialEq)]
pub struct TSBOperation {
    pub operation_id: String,
    pub token_id: String,
    pub op_type: u32,
    pub from: String,
    pub to: String,
    pub amount: String,
    pub timestamp: String,
    pub bitcoin_tx_id: String,
    pub torram_tx_id: String,
}

/// An unspent output of an address.
#[derive(Clone, Debug, PartialEq)]
pub struct TSBCTXO {
    pub tx_id: String,
    pub vout: u32,
    pub amount: String,
    pub used: bool,
}

#[derive(Clone, Debug, PartialEq)]
pub struct GetAllTokensResponse {
    pub tokens: Vec<TSBToken>,
}

#[derive(Clone, Debug, PartialEq)]
pub struct GetTokenResponse {
    pub token: Option<TSBToken>,
}

#[derive(Clone, Debug, PartialEq)]
pub struct GetTokensByCreatorResponse {
    pub tokens: Vec<TSBToken>,
}

#[derive(Clone, Debug, PartialEq)]
pub struct GetAllBalancesResponse {
    pub balances: Vec<TSBBalance>,
}

#[derive(Clone, Debug, PartialEq)]
pub struct GetTokenBalanceResponse {
    pub balance: Option<TSBBalance>,
}

#[derive(Clone, Debug, PartialEq)]
pub struct GetBalancesByOwnerResponse {
    pub balances: Vec<TSBBalance>,
}

#[derive(Clone, Debug, PartialEq)]
pub struct GetTokenOperationsResponse {
    pub operations: Vec<TSBOperation>,
}

#[derive(Clone, Debug, PartialEq)]
pub struct GetTokenOperationResponse {
    pub operation: Option<TSBOperation>,
}

#[derive(Clone, Debug, PartialEq)]
pub struct GetPendingBitcoinSyncResponse {
    pub operations: Vec<TSBOperation>,
}

#[derive(Clone, Debug, PartialEq)]
pub struct GetTokensForSyncResponse {
    pub token_ids: Vec<String>,
}

#[derive(Clone, Debug, PartialEq)]
pub struct GetUTXOsResponse {
    pub utxos: Vec<TSBCTXO>,
}

/// The request that sets the reader up. It carries nothing.
#[derive(Clone, Debug, PartialEq)]
pub struct InstantiateMsg {}

/// A state-changing request. The reader is read-only: it knows none and
/// refuses every one.
#[derive(Clone, Debug, PartialEq)]
pub struct ExecuteMsg {}

/// The read-only requests: the eleven primitive lookups, relayed as they
/// are, and the three views.
#[derive(Clone, Debug, PartialEq)]
pub enum QueryMsg {
    GetAllTokens {  },
    GetToken { token_id: String },
    GetTokensByCreator { creator: String },
    GetAllBalances {  },
    GetTokenBalance { token_id: String, owner: String },
    GetBalancesByOwner { owner: String },
    GetTokenOperations { token_id: String },
    GetTokenOperation { operation_id: String },
    GetPendingBitcoinSync {  },
    GetTokensForSync {  },
    GetUtxos { address: Option<String> },
    GetTokenSummary { token_id: String },
    GetUserPortfolio { owner: String },
    GetSyncStatus {  },
}

/// A token with its supply, its holders, its operations and its sync state.
#[derive(Clone, Debug, PartialEq)]
pub struct TokenSummary {
    pub token: Option<TSBToken>,
    pub total_supply: String,
    pub holder_count: u32,
    pub operations_count: u32,
    pub pending_sync: bool,
}

/// What an address owns.
#[derive(Clone, Debug, PartialEq)]
pub struct UserPortfolio {
    pub owner: String,
    pub balances: Vec<TSBBalance>,
    pub total_tokens: u32,
    pub total_value: String,
}

/// How far the tokens are synchronised.
#[derive(Clone, Debug, PartialEq)]
pub struct SyncStatus {
    pub total_tokens: u32,
    pub synced_tokens: u32,
    pub pending_operations: u32,
    pub tokens_for_sync: Vec<String>,
}

} // verus!
