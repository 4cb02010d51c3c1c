//! What a price feed hands to the rest of the library.

use crate::amount::Amount;
use crate::text_map::TextMap;
use vstd::prelude::*;
use vstd::string::StringExecFns;

verus! {

/// Which optional columns a feed can fill.
#[derive(Clone, Copy, Debug)]
pub struct ConfigDetails {
    pub have_percent_change_1h: bool,
    pub have_watermarks_24h: bool,
    pub have_price_change_24h: bool,
}

impl ConfigDetails {
    pub fn new() -> (d: ConfigDetails)
        ensures
            !d.have_percent_change_1h,
            d.have_watermarks_24h,
            d.have_price_change_24h,
    {
        ConfigDetails {
            have_percent_change_1h: false,
            have_watermarks_24h: true,
            have_price_change_24h: true,
        }
    }
}

/// Lowest and highest price of the last day.
#[derive(Clone, Copy, Debug)]
pub struct Watermarks {
    pub low: Amount,
    pub high: Amount,
}

impl Watermarks {
    pub fn new(low: Amount, high: Amount) -> (w: Watermarks)
        ensures
            w.low == low,
            w.high == high,
    {
        Watermarks { low, high }
    }
}

/// One coin of a snapshot.
#[derive(Clone, Debug)]
pub struct CoinPriceItem {
    pub symbol: String,
    pub name: String,
    pub current_price: Amount,
    pub watermarks_24h: Option<Watermarks>,
    pub price_change_24h: Amount,
    pub percent_change_1h: Option<Amount>,
    pub percent_change_24h: Amount,
}

/// One coin of a snapshot, with its texts as character sequences.
pub struct CoinPriceItemView {
    pub symbol: Seq<char>,
    pub name: Seq<char>,
    pub current_price: Amount,
    pub watermarks_24h: Option<Watermarks>,
    pub price_change_24h: Amount,
    pub percent_change_1h: Option<Amount>,
    pub percent_change_24h: Amount,
}

impl View for CoinPriceItem {
    type V = CoinPriceItemView;

    open spec fn view(&self) -> CoinPriceItemView {
        CoinPriceItemView {
            symbol: self.symbol@,
            name: self.name@,
            current_price: self.current_price,
            watermarks_24h: self.watermarks_24h,
            price_change_24h: self.price_change_24h,
            percent_change_1h: self.percent_change_1h,
            percent_change_24h: self.percent_change_24h,
        }
    }
}

/// The views of the coins of a snapshot.
pub open spec fn snapshot_view(items: Seq<CoinPriceItem>) -> Seq<CoinPriceItemView> {
    Seq::new(items.len(), |i: int| items[i]@)
}

/// What a feed is asked for.
#[derive(Clone, Debug)]
pub struct PriceProviderParams {
    pub fiat_currency: String,
    /// Lower-case symbol to a text that, found in a coin's name, rules the coin out.
    pub coin_name_ignore_items: TextMap,
    pub wanted_coin_symbols: Vec<String>,
}

impl PriceProviderParams {
    pub fn new() -> (p: PriceProviderParams)
        ensures
            p.fiat_currency@.len() == 0,
            p.coin_name_ignore_items.entries@.len() == 0,
            p.coin_name_ignore_items.wf(),
            p.wanted_coin_symbols@.len() == 0,
    {
        PriceProviderParams {
            fiat_currency: String::new(),
            coin_name_ignore_items: TextMap::new(),
            wanted_coin_symbols: Vec::new(),
        }
    }
}

/// Why a snapshot could not be had.
#[derive(Debug)]
pub enum GetDataError {
    ConfigError(String),
    CantConnect(String),
    NoResponse(String),
    InvalidAPIParams(String),
    ParseError(String),
    EmptyResults,
    NotImplemented,
}

impl GetDataError {
    /// The error in words.
    pub open spec fn description(&self) -> Seq<char> {
        match self {
            GetDataError::ConfigError(e) => "Configuration Error: "@ + e@,
            GetDataError::CantConnect(e) => "Can't Connect: "@ + e@,
            GetDataError::NoResponse(e) => "No Response from API server: "@ + e@,
            GetDataError::InvalidAPIParams(e) => "Invalid API params provided: "@ + e@,
            GetDataError::ParseError(e) => "Error parsing response: "@ + e@,
            GetDataError::EmptyResults => "Empty results"@,
            GetDataError::NotImplemented => "Not implemented"@,
        }
    }

    /// The error in words.
    pub fn describe(&self) -> (r: String)
        ensures
            r@ == self.description(),
    {
        match self {
            GetDataError::ConfigError(e) => String::from_str("Configuration Error: ").concat(
                e.as_str(),
            ),
            GetDataError::CantConnect(e) => String::from_str("Can't Connect: ").concat(e.as_str()),
            GetDataError::NoResponse(e) => String::from_str("No Response from API server: ").concat(
                e.as_str(),
            ),
            GetDataError::InvalidAPIParams(e) => String::from_str(
                "Invalid API params provided: ",
            ).concat(e.as_str()),
            GetDataError::ParseError(e) => String::from_str("Error parsing response: ").concat(
                e.as_str(),
            ),
            GetDataError::EmptyResults => String::from_str("Empty results"),
            GetDataError::NotImplemented => String::from_str("Not implemented"),
        }
    }
}

/// A snapshot as a feed hands it on: an empty one is an error.
pub fn check_results(items: Vec<CoinPriceItem>) -> (r: Result<Vec<CoinPriceItem>, GetDataError>)
    ensures
        items@.len() == 0 ==> r matches Err(GetDataError::EmptyResults),
        items@.len() > 0 ==> r == Ok::<Vec<CoinPriceItem>, GetDataError>(items),
{
    if items.len() == 0 {
        Err(GetDataError::EmptyResults)
    } else {
        Ok(items)
    }
}

} // verus!
