//! Serving a request step by step.
//!
//! The reader makes no lookup itself. Each function here says what the host
//! does next: relay a primitive lookup, make a lookup and come back with its
//! answer, reply with a finished view, or fail. A view is gathered lookup by
//! lookup in a fixed order, and the first lookup that fails ends it.

use crate::error::{ContractError, ErrorView};
use crate::response::{response_view, Response, ResponseView};
use crate::tsb::msg::{
    ExecuteMsg, GetAllBalancesResponse, GetAllTokensResponse, GetBalancesByOwnerResponse,
    GetPendingBitcoinSyncResponse, GetTokenOperationsResponse, GetTokenResponse,
    GetTokensForSyncResponse, InstantiateMsg, QueryMsg, SyncStatus, TSBQuery, TokenSummary,
    UserPortfolio,
};
use crate::tsb::views::{
    is_sync_status, is_token_summary, is_user_portfolio, query_sync_status, query_token_summary,
    query_user_portfolio,
};
use vstd::prelude::*;
use vstd::string::StringExecFns;

verus! {

/// The outcome of a primitive lookup that a view needs: its decoded answer,
/// or the data source's report of its failure.
#[derive(Clone, Debug, PartialEq)]
pub enum Lookup {
    Token(GetTokenResponse),
    Operations(GetTokenOperationsResponse),
    Balances(GetAllBalancesResponse),
    PendingSync(GetPendingBitcoinSyncResponse),
    OwnerBalances(GetBalancesByOwnerResponse),
    Tokens(GetAllTokensResponse),
    TokensForSync(GetTokensForSyncResponse),
    Failed(String),
}

/// A view in the making: what it is about, and the answers gathered so far.
/// Each variant awaits the answer to one lookup.
#[derive(Clone, Debug, PartialEq)]
pub enum Gathering {
    SummaryToken { token_id: String },
    SummaryOperations { token_id: String, token: GetTokenResponse },
    SummaryBalances {
        token_id: String,
        token: GetTokenResponse,
        operations: GetTokenOperationsResponse,
    },
    SummaryPending {
        token_id: String,
        token: GetTokenResponse,
        operations: GetTokenOperationsResponse,
        balances: GetAllBalancesResponse,
    },
    Portfolio { owner: String },
    StatusTokens,
    StatusPending { tokens: GetAllTokensResponse },
    StatusForSync { tokens: GetAllTokensResponse, pending: GetPendingBitcoinSyncResponse },
}

/// What the host does next to serve a request.
#[derive(Clone, Debug, PartialEq)]
pub enum QueryStep {
    /// Make this lookup and reply with its answer as it is.
    Forward(TSBQuery),
    /// Make this lookup and hand its outcome, with the gathering, to
    /// `resume`.
    Ask(TSBQuery, Gathering),
    /// Reply with this view.
    TokenSummary(TokenSummary),
    /// Reply with this view.
    UserPortfolio(UserPortfolio),
    /// Reply with this view.
    SyncStatus(SyncStatus),
    /// Fail the request.
    Fail(ContractError),
}

impl Gathering {
    /// The lookup whose answer this gathering awaits.
    pub open spec fn awaits(self) -> TSBQuery {
        match self {
            Gathering::SummaryToken { token_id } => TSBQuery::GetToken { token_id },
            Gathering::SummaryOperations { token_id, .. } => TSBQuery::GetTokenOperations {
                token_id,
            },
            Gathering::SummaryBalances { .. } => TSBQuery::GetAllBalances {  },
            Gathering::SummaryPending { .. } => TSBQuery::GetPendingBitcoinSync {  },
            Gathering::Portfolio { owner } => TSBQuery::GetBalancesByOwner { owner },
            Gathering::StatusTokens => TSBQuery::GetAllTokens {  },
            Gathering::StatusPending { .. } => TSBQuery::GetPendingBitcoinSync {  },
            Gathering::StatusForSync { .. } => TSBQuery::GetTokensForSync {  },
        }
    }

    /// The step that asks for what this gathering awaits.
    pub open spec fn ask(self) -> QueryStep {
        QueryStep::Ask(self.awaits(), self)
    }
}

/// The first step of serving `msg`: a primitive lookup is relayed with the
/// request's own arguments, and a view starts with its first lookup.
pub open spec fn first_step(msg: QueryMsg) -> QueryStep {
    match msg {
        QueryMsg::GetAllTokens {  } => QueryStep::Forward(TSBQuery::GetAllTokens {  }),
        QueryMsg::GetToken { token_id } => QueryStep::Forward(TSBQuery::GetToken { token_id }),
        QueryMsg::GetTokensByCreator { creator } => QueryStep::Forward(
            TSBQuery::GetTokensByCreator { creator },
        ),
        QueryMsg::GetAllBalances {  } => QueryStep::Forward(TSBQuery::GetAllBalances {  }),
        QueryMsg::GetTokenBalance { token_id, owner } => QueryStep::Forward(
            TSBQuery::GetTokenBalance { token_id, owner },
        ),
        QueryMsg::GetBalancesByOwner { owner } => QueryStep::Forward(
            TSBQuery::GetBalancesByOwner { owner },
        ),
        QueryMsg::GetTokenOperations { token_id } => QueryStep::Forward(
            TSBQuery::GetTokenOperations { token_id },
        ),
        QueryMsg::GetTokenOperation { operation_id } => QueryStep::Forward(
            TSBQuery::GetTokenOperation { operation_id },
        ),
        QueryMsg::GetPendingBitcoinSync {  } => QueryStep::Forward(
            TSBQuery::GetPendingBitcoinSync {  },
        ),
        QueryMsg::GetTokensForSync {  } => QueryStep::Forward(TSBQuery::GetTokensForSync {  }),
        QueryMsg::GetUtxos { address } => QueryStep::Forward(TSBQuery::GetUtxos { address }),
        QueryMsg::GetTokenSummary { token_id } => (Gathering::SummaryToken { token_id }).ask(),
        QueryMsg::GetUserPortfolio { owner } => (Gathering::Portfolio { owner }).ask(),
        QueryMsg::GetSyncStatus {  } => Gathering::StatusTokens.ask(),
    }
}

/// The failure that ends a view when a lookup failed with `message`.
pub open spec fn is_upstream_failure(step: QueryStep, message: Seq<char>) -> bool {
    step matches QueryStep::Fail(e) && e@ == (ErrorView::UpstreamQueryFailed { message })
}

/// Whether `step` is what follows `gathering` on the outcome `lookup`.
///
/// A failed lookup fails the view with the data source's report. The awaited
/// answer moves the view on to its next lookup, or completes it. An answer of
/// another kind than the awaited one fails the view.
pub open spec fn follows(gathering: Gathering, lookup: Lookup, step: QueryStep) -> bool {
    match (gathering, lookup) {
        (_, Lookup::Failed(message)) => is_upstream_failure(step, message@),
        (Gathering::SummaryToken { token_id }, Lookup::Token(token)) => {
            step == (Gathering::SummaryOperations { token_id, token }).ask()
        },
        (Gathering::SummaryOperations { token_id, token }, Lookup::Operations(operations)) => {
            step == (Gathering::SummaryBalances { token_id, token, operations }).ask()
        },
        (
            Gathering::SummaryBalances { token_id, token, operations },
            Lookup::Balances(balances),
        ) => {
            step == (Gathering::SummaryPending { token_id, token, operations, balances }).ask()
        },
        (
            Gathering::SummaryPending { token_id, token, operations, balances },
            Lookup::PendingSync(pending),
        ) => {
            &&& step matches QueryStep::TokenSummary(summary)
            &&& is_token_summary(summary, token_id@, token, operations, balances, pending)
        },
        (Gathering::Portfolio { owner }, Lookup::OwnerBalances(balances)) => {
            &&& step matches QueryStep::UserPortfolio(portfolio)
            &&& is_user_portfolio(portfolio, owner, balances)
        },
        (Gathering::StatusTokens, Lookup::Tokens(tokens)) => {
            step == (Gathering::StatusPending { tokens }).ask()
        },
        (Gathering::StatusPending { tokens }, Lookup::PendingSync(pending)) => {
            step == (Gathering::StatusForSync { tokens, pending }).ask()
        },
        (Gathering::StatusForSync { tokens, pending }, Lookup::TokensForSync(for_sync)) => {
            &&& step matches QueryStep::SyncStatus(status)
            &&& is_sync_status(status, tokens, pending, for_sync)
        },
        _ => is_upstream_failure(step, "unexpected answer"@),
    }
}

/// What a set-up reports: the method.
pub open spec fn instantiate_response() -> ResponseView {
    ResponseView {
        messages: Seq::empty(),
        attributes: seq![("method"@, "instantiate"@)],
        events: Seq::empty(),
    }
}

/// Sets the reader up. It keeps no state, so there is nothing to store.
pub fn instantiate(msg: InstantiateMsg) -> (r: Result<Response, ContractError>)
    ensures
        response_view(r) == Ok::<ResponseView, ErrorView>(instantiate_response()),
{
    let response = Response::new().add_attribute("method", String::from_str("instantiate"));
    Ok(response)
}

/// Refuses a state-changing request: the reader is read-only.
pub fn execute(sender: &str, msg: ExecuteMsg) -> (r: Result<Response, ContractError>)
    ensures
        response_view(r) == Err::<ResponseView, ErrorView>(ErrorView::ReadOnly),
{
    Err(ContractError::ReadOnly)
}

/// The first step of serving `msg`.
pub fn query(msg: QueryMsg) -> (step: QueryStep)
    ensures
        step == first_step(msg),
{
    match msg {
        QueryMsg::GetAllTokens {  } => QueryStep::Forward(TSBQuery::GetAllTokens {  }),
        QueryMsg::GetToken { token_id } => QueryStep::Forward(TSBQuery::GetToken { token_id }),
        QueryMsg::GetTokensByCreator { creator } => QueryStep::Forward(
            TSBQuery::GetTokensByCreator { creator },
        ),
        QueryMsg::GetAllBalances {  } => QueryStep::Forward(TSBQuery::GetAllBalances {  }),
        QueryMsg::GetTokenBalance { token_id, owner } => QueryStep::Forward(
            TSBQuery::GetTokenBalance { token_id, owner },
        ),
        QueryMsg::GetBalancesByOwner { owner } => QueryStep::Forward(
            TSBQuery::GetBalancesByOwner { owner },
        ),
        QueryMsg::GetTokenOperations { token_id } => QueryStep::Forward(
            TSBQuery::GetTokenOperations { token_id },
        ),
        QueryMsg::GetTokenOperation { operation_id } => QueryStep::Forward(
            TSBQuery::GetTokenOperation { operation_id },
        ),
        QueryMsg::GetPendingBitcoinSync {  } => QueryStep::Forward(
            TSBQuery::GetPendingBitcoinSync {  },
        ),
        QueryMsg::GetTokensForSync {  } => QueryStep::Forward(TSBQuery::GetTokensForSync {  }),
        QueryMsg::GetUtxos { address } => QueryStep::Forward(TSBQuery::GetUtxos { address }),
        QueryMsg::GetTokenSummary { token_id } => ask(Gathering::SummaryToken { token_id }),
        QueryMsg::GetUserPortfolio { owner } => ask(Gathering::Portfolio { owner }),
        QueryMsg::GetSyncStatus {  } => ask(Gathering::StatusTokens),
    }
}

/// The step that asks for what `gathering` awaits.
pub fn ask(gathering: Gathering) -> (step: QueryStep)
    ensures
        step == gathering.ask(),
{
    let lookup = match &gathering {
        Gathering::SummaryToken { token_id } => TSBQuery::GetToken { token_id: token_id.clone() },
        Gathering::SummaryOperations { token_id, .. } => TSBQuery::GetTokenOperations {
            token_id: token_id.clone(),
        },
        Gathering::SummaryBalances { .. } => TSBQuery::GetAllBalances {  },
        Gathering::SummaryPending { .. } => TSBQuery::GetPendingBitcoinSync {  },
        Gathering::Portfolio { owner } => TSBQuery::GetBalancesByOwner { owner: owner.clone() },
        Gathering::StatusTokens => TSBQuery::GetAllTokens {  },
        Gathering::StatusPending { .. } => TSBQuery::GetPendingBitcoinSync {  },
        Gathering::StatusForSync { .. } => TSBQuery::GetTokensForSync {  },
    };
    QueryStep::Ask(lookup, gathering)
}

/// The failure that ends a view when a lookup failed with `message`.
pub fn upstream_failure(message: String) -> (step: QueryStep)
    ensures
        is_upstream_failure(step, message@),
{
    QueryStep::Fail(ContractError::UpstreamQueryFailed { message })
}

/// The step that follows `gathering` on the outcome `lookup` of the lookup
/// that it awaited.
pub fn resume(gathering: Gathering, lookup: Lookup) -> (step: QueryStep)
    ensures
        follows(gathering, lookup, step),
{
    match (gathering, lookup) {
        (_, Lookup::Failed(message)) => upstream_failure(message),
        (Gathering::SummaryToken { token_id }, Lookup::Token(token)) => {
            ask(Gathering::SummaryOperations { token_id, token })
        },
        (Gathering::SummaryOperations { token_id, token }, Lookup::Operations(operations)) => {
            ask(Gathering::SummaryBalances { token_id, token, operations })
        },
        (
            Gathering::SummaryBalances { token_id, token, operations },
            Lookup::Balances(balances),
        ) => {
            ask(Gathering::SummaryPending { token_id, token, operations, balances })
        },
        (
            Gathering::SummaryPending { token_id, token, operations, balances },
            Lookup::PendingSync(pending),
        ) => {
            let summary = query_token_summary(
                token_id.as_str(),
                token,
                &operations,
                &balances,
                &pending,
            );
            QueryStep::TokenSummary(summary)
        },
        (Gathering::Portfolio { owner }, Lookup::OwnerBalances(balances)) => {
            QueryStep::UserPortfolio(query_user_portfolio(owner, balances))
        },
        (Gathering::StatusTokens, Lookup::Tokens(tokens)) => {
            ask(Gathering::StatusPending { tokens })
        },
        (Gathering::StatusPending { tokens }, Lookup::PendingSync(pending)) => {
            ask(Gathering::StatusForSync { tokens, pending })
        },
        (Gathering::StatusForSync { tokens, pending }, Lookup::TokensForSync(for_sync)) => {
            QueryStep::SyncStatus(query_sync_status(&tokens, &pending, for_sync))
        },
        _ => upstream_failure(String::from_str("unexpected answer")),
    }
}

} // verus!
