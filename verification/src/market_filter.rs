//! The filter of a search on the flea market.

use vstd::prelude::*;

verus! {

/// Search filter for the flea market.
#[derive(Debug)]
pub struct MarketFilter<'a> {
    /// Sort type.
    pub sort_type: SortBy,
    /// Sort direction.
    pub sort_direction: SortDirection,
    /// Offer currency type.
    pub currency: Currency,
    /// Minimum item price.
    pub min_price: Option<u64>,
    /// Maximum item price.
    pub max_price: Option<u64>,
    /// Minimum item quantity.
    pub min_quantity: Option<u64>,
    /// Maximum item quantity.
    pub max_quantity: Option<u64>,
    /// Minimum item condition percentage.
    pub min_condition: Option<u64>,
    /// Maximum item condition percentage.
    pub max_condition: Option<u64>,
    /// Show offers expiring soon.
    pub expiring_within_hour: bool,
    /// Hide offers asking for items for trade.
    pub hide_bartering_offers: bool,
    /// Offer owner type.
    pub owner_type: Owner,
    /// Hide inoperable weapons.
    pub hide_inoperable_weapons: bool,
    /// Search by market category or item ID.
    pub handbook_id: Option<&'a str>,
    /// Search item related to item ID.
    pub linked_search_id: Option<&'a str>,
    /// Search items that can be traded for item ID.
    pub required_search_id: Option<&'a str>,
}

/// Sort by categories.
#[derive(Debug, Clone, Copy, PartialEq, Eq, Structural)]
pub enum SortBy {
    /// Sort by ID
    ID,
    /// Sort by bartering offers
    BarteringOffers,
    /// Sort by merchant rating
    MerchantRating,
    /// Sort by price (default)
    Price,
    /// Sort by expiry
    Expiry,
}

/// Sort by direction.
#[derive(Debug, Clone, Copy, PartialEq, Eq, Structural)]
pub enum SortDirection {
    /// Sort ascending (default)
    Ascending,
    /// Sort descending
    Descending,
}

/// Currency types.
#[derive(Debug, Clone, Copy, PartialEq, Eq, Structural)]
pub enum Currency {
    /// Any currency (default)
    Any,
    /// Rouble
    Rouble,
    /// US dollar
    Dollar,
    /// Euro
    Euro,
}

/// Item listed by.
#[derive(Debug, Clone, Copy, PartialEq, Eq, Structural)]
pub enum Owner {
    /// Any owner (default)
    Any,
    /// Item listed by traders
    Traders,
    /// Item listed by players
    Player,
}

impl SortBy {
    /// The number that stands for this value on the wire.
    pub open spec fn code_spec(self) -> u8 {
        match self {
            SortBy::ID => 0,
            SortBy::BarteringOffers => 2,
            SortBy::MerchantRating => 3,
            SortBy::Price => 5,
            SortBy::Expiry => 6,
        }
    }

    /// The number that stands for this value on the wire.
    pub fn code(&self) -> (code: u8)
        ensures
            code == self.code_spec(),
    {
        match self {
            SortBy::ID => 0,
            SortBy::BarteringOffers => 2,
            SortBy::MerchantRating => 3,
            SortBy::Price => 5,
            SortBy::Expiry => 6,
        }
    }
}

impl SortDirection {
    /// The number that stands for this value on the wire.
    pub open spec fn code_spec(self) -> u8 {
        match self {
            SortDirection::Ascending => 0,
            SortDirection::Descending => 1,
        }
    }

    /// The number that stands for this value on the wire.
    pub fn code(&self) -> (code: u8)
        ensures
            code == self.code_spec(),
    {
        match self {
            SortDirection::Ascending => 0,
            SortDirection::Descending => 1,
        }
    }
}

impl Currency {
    /// The number that stands for this value on the wire.
    pub open spec fn code_spec(self) -> u8 {
        match self {
            Currency::Any => 0,
            Currency::Rouble => 1,
            Currency::Dollar => 2,
            Currency::Euro => 3,
        }
    }

    /// The number that stands for this value on the wire.
    pub fn code(&self) -> (code: u8)
        ensures
            code == self.code_spec(),
    {
        match self {
            Currency::Any => 0,
            Currency::Rouble => 1,
            Currency::Dollar => 2,
            Currency::Euro => 3,
        }
    }
}

impl Owner {
    /// The number that stands for this value on the wire.
    pub open spec fn code_spec(self) -> u8 {
        match self {
            Owner::Any => 0,
            Owner::Traders => 1,
            Owner::Player => 2,
        }
    }

    /// The number that stands for this value on the wire.
    pub fn code(&self) -> (code: u8)
        ensures
            code == self.code_spec(),
    {
        match self {
            Owner::Any => 0,
            Owner::Traders => 1,
            Owner::Player => 2,
        }
    }
}

impl<'a> Default for MarketFilter<'a> {
    /// The filter that the game client starts with: by price, ascending, any currency and
    /// owner, condition up to 100, weapons that work only.
    fn default() -> (filter: Self)
        ensures
            filter.sort_type == SortBy::Price,
            filter.sort_direction == SortDirection::Ascending,
            filter.currency == Currency::Any,
            filter.min_price is None,
            filter.max_price is None,
            filter.min_quantity is None,
            filter.max_quantity is None,
            filter.min_condition is None,
            filter.max_condition == Some(100u64),
            !filter.expiring_within_hour,
            !filter.hide_bartering_offers,
            filter.owner_type == Owner::Any,
            filter.hide_inoperable_weapons,
            filter.handbook_id is None,
            filter.linked_search_id is None,
            filter.required_search_id is None,
    {
        Self {
            sort_type: SortBy::Price,
            sort_direction: SortDirection::Ascending,
            currency: Currency::Any,
            min_price: None,
            max_price: None,
            min_quantity: None,
            max_quantity: None,
            min_condition: None,
            max_condition: Some(100),
            expiring_within_hour: false,
            hide_bartering_offers: false,
            owner_type: Owner::Any,
            hide_inoperable_weapons: true,
            handbook_id: None,
            linked_search_id: None,
            required_search_id: None,
        }
    }
}

} // verus!
