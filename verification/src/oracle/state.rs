//! The oracle's persisted state: two slots, each empty until first written.

use crate::error::{outcome_view, ContractError, ErrorView};
use crate::oracle::msg::PriceData;
use vstd::prelude::*;

verus! {

/// The two persisted slots: the admin's address and the price record.
#[derive(Clone, Debug, PartialEq)]
pub struct Storage {
    pub admin: Option<String>,
    pub prices: Option<PriceData>,
}

/// A [`Storage`] with the admin's address as a character sequence.
pub ghost struct StorageView {
    pub admin: Option<Seq<char>>,
    pub prices: Option<PriceData>,
}

impl View for Storage {
    type V = StorageView;

    open spec fn view(&self) -> StorageView {
        StorageView {
            admin: match self.admin {
                Some(a) => Some(a@),
                None => None,
            },
            prices: self.prices,
        }
    }
}

impl StorageView {
    /// What a read of the admin slot gives.
    pub open spec fn stored_admin(self) -> Result<Seq<char>, ErrorView> {
        match self.admin {
            Some(a) => Ok(a),
            None => Err(ErrorView::NotInitialized),
        }
    }

    /// What a read of the price slot gives.
    pub open spec fn stored_prices(self) -> Result<PriceData, ErrorView> {
        match self.prices {
            Some(p) => Ok(p),
            None => Err(ErrorView::NotInitialized),
        }
    }
}

/// The outcome of a read of the admin slot, with the address and the failure
/// by their views.
pub open spec fn address_view(outcome: Result<&String, ContractError>) -> Result<
    Seq<char>,
    ErrorView,
> {
    match outcome {
        Ok(address) => Ok(address@),
        Err(e) => Err(e@),
    }
}

impl Storage {
    /// A state with both slots empty.
    pub fn new() -> (s: Storage)
        ensures
            s@ == (StorageView { admin: None, prices: None }),
    {
        Storage { admin: None, prices: None }
    }

    /// Reads the admin slot.
    pub fn load_admin(&self) -> (r: Result<&String, ContractError>)
        ensures
            address_view(r) == self@.stored_admin(),
    {
        match &self.admin {
            Some(a) => Ok(a),
            None => Err(ContractError::NotInitialized),
        }
    }

    /// Writes the admin slot.
    pub fn save_admin(&mut self, admin: String)
        ensures
            final(self)@ == (StorageView { admin: Some(admin@), prices: old(self)@.prices }),
    {
        self.admin = Some(admin);
    }

    /// Reads the price slot.
    pub fn load_prices(&self) -> (r: Result<PriceData, ContractError>)
        ensures
            outcome_view(r) == self@.stored_prices(),
    {
        match self.prices {
            Some(p) => Ok(p),
            None => Err(ContractError::NotInitialized),
        }
    }

    /// Writes the price slot.
    pub fn save_prices(&mut self, prices: PriceData)
        ensures
            final(self)@ == (StorageView { admin: old(self)@.admin, prices: Some(prices) }),
    {
        self.prices = Some(prices);
    }
}

} // verus!
