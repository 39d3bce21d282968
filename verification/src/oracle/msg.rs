//! Messages and records of the price oracle.

use crate::decimal::Price;
use vstd::prelude::*;

verus! {

/// A custom query to the Torram chain: a method name and its arguments as
/// JSON text.
#[derive(Clone, Debug, PartialEq)]
pub struct TorramQueryWrapper {
    pub method: String,
    pub args: String,
}

/// One contact record of the chain's address book.
#[derive(Clone, Debug, PartialEq)]
pub struct Contact {
    pub address: String,
    pub contact: String,
}

/// The answer to a contacts lookup.
#[derive(Clone, Debug, PartialEq)]
pub struct ContactsResponse {
    pub contacts: Vec<Contact>,
}

/// The latest known quotations of the five assets.
#[derive(Clone, Copy, Debug, PartialEq, Eq, Structural)]
pub struct PriceData {
    pub btc: Price,
    pub eth: Price,
    pub usdc: Price,
    pub usdt: Price,
    pub dai: Price,
}

impl PriceData {
    /// Sum of the three stablecoin quotations, in atomic units.
    pub open spec fn stable_sum(&self) -> nat {
        self.usdc@ + self.usdt@ + self.dai@
    }

    /// Whether the sum of the three stablecoin quotations is itself a
    /// quotation, so that their average can be taken.
    pub open spec fn averageable(&self) -> bool {
        self.stable_sum() <= u128::MAX
    }

    /// The average of the three stablecoin quotations, in atomic units,
    /// rounded down to a whole unit.
    pub open spec fn average(&self) -> nat {
        self.stable_sum() / 3
    }

    /// Where three divides the sum of the stablecoin quotations, their
    /// average is exact: three times the average is the sum. In general the
    /// average falls short of that by less than one atomic unit.
    pub proof fn lemma_average_exact(self)
        ensures
            self.stable_sum() % 3 == 0 ==> 3 * self.average() == self.stable_sum(),
            3 * self.average() <= self.stable_sum() < 3 * self.average() + 3,
    {
    }

    /// Whether the average of the stablecoin quotations can be taken.
    pub fn is_averageable(&self) -> (r: bool)
        ensures
            r == self.averageable(),
    {
        match self.usdc.atomics.checked_add(self.usdt.atomics) {
            Some(two) => two.checked_add(self.dai.atomics).is_some(),
            None => false,
        }
    }
}

/// The request that sets the oracle up.
#[derive(Clone, Debug, PartialEq)]
pub struct InstantiateMsg {
    pub admin: String,
}

/// The state-changing requests.
#[derive(Clone, Copy, Debug, PartialEq, Eq, Structural)]
pub enum ExecuteMsg {
    UpdatePrices { btc: Price, eth: Price, usdc: Price, usdt: Price, dai: Price },
}

/// The read-only requests.
#[derive(Clone, Copy, Debug, PartialEq, Eq, Structural)]
pub enum QueryMsg {
    GetPrices {  },
    FetchFromOracle {  },
}

/// A request to run `msg` on the contract at `contract_addr`, with no funds
/// attached.
#[derive(Clone, Debug, PartialEq)]
pub struct WasmExecute {
    pub contract_addr: String,
    pub msg: ExecuteMsg,
}

/// A handle on a deployed oracle contract, by its address.
#[derive(Clone, Debug, PartialEq, Eq)]
pub struct CwTemplateContract(pub String);

impl CwTemplateContract {
    /// The contract's address.
    pub fn addr(&self) -> (a: String)
        ensures
            a == self.0,
    {
        self.0.clone()
    }

    /// The message that asks this contract to run `msg`.
    pub fn call(&self, msg: ExecuteMsg) -> (m: WasmExecute)
        ensures
            m.contract_addr == self.0,
            m.msg == msg,
    {
        WasmExecute { contract_addr: self.addr(), msg }
    }
}

} // verus!
