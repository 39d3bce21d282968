use cosmwasm_std::testing::{mock_dependencies, mock_info};
use cosmwasm_std::{coins, Binary, Empty, QueryRequest};
use torram_contracts::error::ContractError;
use torram_contracts::response::Response;
use torram_contracts::tsb::msg::{ExecuteMsg, InstantiateMsg, QueryMsg, TSBQuery};
use torram_contracts::tsb::router::{execute, instantiate, query, resume, Lookup, QueryStep};

/// Serves `msg` in the mock environment, whose data source knows no token
/// module: every lookup that a step asks for fails there.
fn serve_in_mock_environment(msg: QueryMsg) -> Result<QueryStep, ContractError> {
    let deps = mock_dependencies();
    let mut step = query(msg);
    loop {
        let failure = deps
            .as_ref()
            .querier
            .query::<Binary>(&QueryRequest::Custom(Empty {}))
            .unwrap_err()
            .to_string();
        step = match step {
            QueryStep::Forward(_) => return Err(ContractError::UpstreamQueryFailed { message: failure }),
            QueryStep::Ask(_, gathering) => resume(gathering, Lookup::Failed(failure)),
            QueryStep::Fail(e) => return Err(e),
            done => return Ok(done),
        };
    }
}

#[test]
fn proper_initialization() {
    let msg = InstantiateMsg {};
    let info = mock_info("creator", &coins(1000, "earth"));
    assert_eq!(info.sender.as_str(), "creator");

    // we can just call .unwrap() to assert this was a success
    let res: Response = instantiate(msg).unwrap();
    assert_eq!(0, res.messages.len());
}

#[test]
fn test_query_all_tokens() {
    let msg = QueryMsg::GetAllTokens {};
    assert_eq!(query(msg.clone()), QueryStep::Forward(TSBQuery::GetAllTokens {}));
    let res = serve_in_mock_environment(msg);

    assert!(res.is_err()); // Expected to fail in mock environment
}

#[test]
fn test_query_token_summary() {
    let msg = QueryMsg::GetTokenSummary {
        token_id: "test_token".to_string(),
    };
    let res = serve_in_mock_environment(msg);

    assert!(res.is_err()); // Expected to fail in mock environment
}

#[test]
fn test_query_user_portfolio() {
    let msg = QueryMsg::GetUserPortfolio {
        owner: "torram1test123".to_string(),
    };
    let res = serve_in_mock_environment(msg);

    assert!(res.is_err()); // Expected to fail in mock environment
}

#[test]
fn test_execute_fails() {
    let info = mock_info("anyone", &[]);

    // This contract is read-only, so any execute should fail
    let res = execute(info.sender.as_str(), ExecuteMsg {});
    assert!(res.is_err());
    assert!(res.unwrap_err().message().contains("read-only"));
}

#[test]
fn a_failed_lookup_is_reported_verbatim() {
    let res = serve_in_mock_environment(QueryMsg::GetSyncStatus {});
    match res {
        Err(ContractError::UpstreamQueryFailed { message }) => {
            assert!(message.contains("custom"), "{}", message)
        }
        other => panic!("{:?}", other),
    }
}

#[test]
fn set_up_reports_its_method() {
    let res = instantiate(InstantiateMsg {}).unwrap();
    assert_eq!(res.attributes.len(), 1);
    assert_eq!(res.attributes[0].key, "method");
    assert_eq!(res.attributes[0].value, "instantiate");
    assert!(res.events.is_empty());
}
