//! The CoinMarketCap feed: its key and the address to ask.

use crate::amount::Amount;
use crate::price_provider::{
    snapshot_view, CoinPriceItem, CoinPriceItemView, ConfigDetails, GetDataError,
    PriceProviderParams,
};
use crate::text::{append_joined, ascii_upper, chars_of, joined, same_text, texts, to_upper};
use vstd::prelude::*;
use vstd::string::StringExecFns;

verus! {

/// The quote of a coin in one currency.
#[derive(Clone, Debug)]
pub struct CurrencyQuote {
    /// The currency, in upper case.
    pub currency: String,
    pub price: Amount,
    pub percent_change_1h: Amount,
    pub percent_change_24h: Amount,
}

/// One coin of an answer of the service.
#[derive(Clone, Debug)]
pub struct QuotedCoin {
    /// The symbol that the answer lists the coin under, in upper case.
    pub key: String,
    pub name: String,
    pub symbol: String,
    pub quotes: Vec<CurrencyQuote>,
}

/// The position of the first coin at or after `i` that is listed under
/// `key`, or the length where there is none.
pub open spec fn coin_position_from(data: Seq<QuotedCoin>, key: Seq<char>, i: int) -> int
    decreases data.len() - i,
{
    if i < 0 || i >= data.len() {
        data.len() as int
    } else if data[i].key@ == key {
        i
    } else {
        coin_position_from(data, key, i + 1)
    }
}

/// The position of the first quote at or after `i` in `currency`, or the
/// length where there is none.
pub open spec fn quote_position_from(quotes: Seq<CurrencyQuote>, currency: Seq<char>, i: int) -> int
    decreases quotes.len() - i,
{
    if i < 0 || i >= quotes.len() {
        quotes.len() as int
    } else if quotes[i].currency@ == currency {
        i
    } else {
        quote_position_from(quotes, currency, i + 1)
    }
}

/// The snapshot entry for a coin and its quote: the service gives the
/// change over the last hour, but no watermarks and no change of price.
pub open spec fn quoted_item(coin: QuotedCoin, quote: CurrencyQuote) -> CoinPriceItemView {
    CoinPriceItemView {
        symbol: ascii_upper(coin.symbol@),
        name: coin.name@,
        current_price: quote.price,
        watermarks_24h: None,
        price_change_24h: Amount { bits: 0 },
        percent_change_1h: Some(quote.percent_change_1h),
        percent_change_24h: quote.percent_change_24h,
    }
}

/// The snapshot for the coins `wanted`, in their order: a coin has an entry
/// where the answer lists it and quotes it in the currency `fiat`.
pub open spec fn selected(wanted: Seq<String>, fiat: Seq<char>, data: Seq<QuotedCoin>) -> Seq<
    CoinPriceItemView,
>
    decreases wanted.len(),
{
    if wanted.len() == 0 {
        Seq::empty()
    } else {
        let earlier = selected(wanted.drop_last(), fiat, data);
        let place = coin_position_from(data, ascii_upper(wanted.last()@), 0);
        if place < data.len() {
            let quote = quote_position_from(data[place].quotes@, ascii_upper(fiat), 0);
            if quote < data[place].quotes@.len() {
                earlier.push(quoted_item(data[place], data[place].quotes@[quote]))
            } else {
                earlier
            }
        } else {
            earlier
        }
    }
}

fn find_coin(data: &Vec<QuotedCoin>, key: &str) -> (place: usize)
    ensures
        place == coin_position_from(data@, key@, 0),
        place <= data@.len(),
{
    let mut i: usize = 0;
    while i < data.len()
        invariant
            i <= data@.len(),
            coin_position_from(data@, key@, 0) == coin_position_from(data@, key@, i as int),
        decreases data@.len() - i,
    {
        if same_text(data[i].key.as_str(), key) {
            return i;
        }
        i += 1;
    }
    i
}

fn find_quote(quotes: &Vec<CurrencyQuote>, currency: &str) -> (place: usize)
    ensures
        place == quote_position_from(quotes@, currency@, 0),
        place <= quotes@.len(),
{
    let mut i: usize = 0;
    while i < quotes.len()
        invariant
            i <= quotes@.len(),
            quote_position_from(quotes@, currency@, 0) == quote_position_from(
                quotes@,
                currency@,
                i as int,
            ),
        decreases quotes@.len() - i,
    {
        if same_text(quotes[i].currency.as_str(), currency) {
            return i;
        }
        i += 1;
    }
    i
}

/// What is known of the CoinMarketCap feed once it is configured.
pub struct ProviderCoinMarketCap {
    pub params: PriceProviderParams,
    pub api_key: String,
}

impl ProviderCoinMarketCap {
    /// Takes the parameters and the key of the service. Without a key, or
    /// with an empty one, nothing is configured. The feed knows the change
    /// over the last hour, but neither the change of price over a day nor
    /// the watermarks.
    pub fn configure(&mut self, params: PriceProviderParams, api_key: Option<String>) -> (r:
        Option<ConfigDetails>)
        ensures
            final(self).params == params,
            r is Some == (api_key is Some && api_key->0@.len() > 0),
            r is Some ==> final(self).api_key == api_key->0 && r->0.have_percent_change_1h
                && !r->0.have_price_change_24h && !r->0.have_watermarks_24h,
            r is None ==> final(self).api_key == old(self).api_key,
    {
        self.params = params;
        match api_key {
            Some(key) => {
                if chars_of(key.as_str()).len() > 0 {
                    self.api_key = key;
                    let mut config_details = ConfigDetails::new();
                    config_details.have_percent_change_1h = true;
                    config_details.have_price_change_24h = false;
                    config_details.have_watermarks_24h = false;
                    return Some(config_details);
                }
                None
            },
            None => None,
        }
    }

    /// A feed configured from `params` and the key of the service.
    pub fn new_from_config(params: PriceProviderParams, api_key: Option<String>) -> (r: Option<
        (ProviderCoinMarketCap, ConfigDetails),
    >)
        ensures
            r is Some == (api_key is Some && api_key->0@.len() > 0),
            match r {
                Some((provider, details)) => provider.params == params && provider.api_key
                    == api_key->0 && details.have_percent_change_1h
                    && !details.have_price_change_24h && !details.have_watermarks_24h,
                None => true,
            },
    {
        let mut provider = ProviderCoinMarketCap {
            params: PriceProviderParams::new(),
            api_key: String::new(),
        };
        match provider.configure(params, api_key) {
            Some(config_details) => Some((provider, config_details)),
            None => None,
        }
    }

    /// The address to ask for the prices of the coins wanted; an error
    /// where no coin is wanted.
    pub fn request_url(&self) -> (r: Result<String, GetDataError>)
        ensures
            r is Ok == (self.params.wanted_coin_symbols@.len() > 0),
            r is Ok ==> r->Ok_0@
                == "https://pro-api.coinmarketcap.com/v1/cryptocurrency/quotes/latest?convert="@
                + self.params.fiat_currency@ + "&symbol="@ + joined(
                texts(self.params.wanted_coin_symbols@),
                self.params.wanted_coin_symbols@.len() as int,
            ),
            r is Err ==> (r->Err_0 matches GetDataError::ConfigError(m) && m@
                == "No coin currency symbols configured/requested"@),
    {
        if self.params.wanted_coin_symbols.len() == 0 {
            return Err(
                GetDataError::ConfigError(
                    String::from_str("No coin currency symbols configured/requested"),
                ),
            );
        }
        let mut url = String::from_str(
            "https://pro-api.coinmarketcap.com/v1/cryptocurrency/quotes/latest?convert=",
        ).concat(self.params.fiat_currency.as_str()).concat("&symbol=");
        append_joined(&mut url, &self.params.wanted_coin_symbols);
        Ok(url)
    }

    /// The snapshot that an answer of the service holds for the coins
    /// wanted; an answer without coins is an error.
    pub fn select_prices(&self, data: &Vec<QuotedCoin>) -> (r: Result<
        Vec<CoinPriceItem>,
        GetDataError,
    >)
        ensures
            data@.len() == 0 ==> r matches Err(GetDataError::EmptyResults),
            data@.len() > 0 ==> r is Ok && snapshot_view(r->Ok_0@) == selected(
                self.params.wanted_coin_symbols@,
                self.params.fiat_currency@,
                data@,
            ),
    {
        if data.len() == 0 {
            return Err(GetDataError::EmptyResults);
        }
        let currency = to_upper(self.params.fiat_currency.as_str());
        let ghost wanted = self.params.wanted_coin_symbols@;
        let ghost fiat = self.params.fiat_currency@;
        let mut results: Vec<CoinPriceItem> = Vec::new();
        let mut i: usize = 0;
        assert(wanted.take(0) =~= Seq::<String>::empty());
        assert(snapshot_view(results@) =~= selected(wanted.take(0), fiat, data@));
        while i < self.params.wanted_coin_symbols.len()
            invariant
                i <= wanted.len(),
                wanted == self.params.wanted_coin_symbols@,
                fiat == self.params.fiat_currency@,
                currency@ == ascii_upper(fiat),
                snapshot_view(results@) == selected(wanted.take(i as int), fiat, data@),
            decreases wanted.len() - i,
        {
            proof {
                assert(wanted.take(i + 1).drop_last() == wanted.take(i as int));
                assert(wanted.take(i + 1).last() == wanted[i as int]);
            }
            let key = to_upper(self.params.wanted_coin_symbols[i].as_str());
            let place = find_coin(data, key.as_str());
            if place < data.len() {
                let coin_item = &data[place];
                let quote = find_quote(&coin_item.quotes, currency.as_str());
                if quote < coin_item.quotes.len() {
                    let currency_item = &coin_item.quotes[quote];
                    let ghost before = results@;
                    let new_val = CoinPriceItem {
                        symbol: to_upper(coin_item.symbol.as_str()),
                        name: coin_item.name.clone(),
                        current_price: currency_item.price,
                        watermarks_24h: None,
                        price_change_24h: Amount::zero(),
                        percent_change_1h: Some(currency_item.percent_change_1h),
                        percent_change_24h: currency_item.percent_change_24h,
                    };
                    results.push(new_val);
                    assert(snapshot_view(results@) =~= snapshot_view(before).push(
                        quoted_item(*coin_item, *currency_item),
                    ));
                }
            }
            i += 1;
        }
        proof {
            assert(wanted.take(i as int) == wanted);
        }
        Ok(results)
    }
}

} // verus!
