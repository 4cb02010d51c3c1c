//! The CoinGecko feed: which coins to ask for, and how.

use crate::amount::Amount;
use crate::price_provider::{
    CoinPriceItem, CoinPriceItemView, ConfigDetails, GetDataError, PriceProviderParams,
    Watermarks,
};
use crate::text::{
    append_joined, ascii_lower, ascii_upper, chars_of, contains_text, joined, same_text,
    text_contains, texts, to_lower, to_upper,
};
use crate::text_map::TextMap;
use vstd::prelude::*;
use vstd::string::StringExecFns;

verus! {

/// One coin of the feed's list of coins.
#[derive(Clone, Debug)]
pub struct CoinListResultItem {
    pub id: String,
    pub symbol: String,
    pub name: String,
}

/// What is known of the CoinGecko feed once it is configured.
pub struct ProviderCoinGecko {
    pub params: PriceProviderParams,
    /// The identifiers to ask prices for.
    pub ids_wanted: Vec<String>,
    pub currency_val: String,
    pub full_coin_list: Vec<CoinListResultItem>,
}

/// Whether a coin is ruled out: under `key` the ignore list holds a text
/// that stands in the coin's name.
pub open spec fn is_ignored(name: Seq<char>, key: Seq<char>, ignore: TextMap) -> bool {
    ignore.lookup(key) is Some && contains_text(name, ignore.lookup(key)->0)
}

/// The position of the last of the first `upto` coins that carries the
/// symbol `wanted`, given in upper case, and is not ruled out; -1 where
/// there is none.
pub open spec fn chosen_coin(
    list: Seq<CoinListResultItem>,
    ignore: TextMap,
    wanted: Seq<char>,
    upto: int,
) -> int
    decreases upto,
{
    if upto <= 0 || upto > list.len() {
        -1
    } else if ascii_upper(list[upto - 1].symbol@) == wanted && !is_ignored(
        list[upto - 1].name@,
        ascii_lower(list[upto - 1].symbol@),
        ignore,
    ) {
        upto - 1
    } else {
        chosen_coin(list, ignore, wanted, upto - 1)
    }
}

/// The identifiers after the coins `wanted` are looked up in order: each
/// symbol that the list knows adds the identifier of its chosen coin.
pub open spec fn ids_added(
    ids: Seq<Seq<char>>,
    list: Seq<CoinListResultItem>,
    ignore: TextMap,
    wanted: Seq<String>,
) -> Seq<Seq<char>>
    decreases wanted.len(),
{
    if wanted.len() == 0 {
        ids
    } else {
        let earlier = ids_added(ids, list, ignore, wanted.drop_last());
        let place = chosen_coin(list, ignore, ascii_upper(wanted.last()@), list.len() as int);
        if place >= 0 {
            earlier.push(list[place].id@)
        } else {
            earlier
        }
    }
}

/// The currency to quote in: the one asked for, in lower case, or `nzd`
/// where none is asked for.
pub open spec fn currency_of(fiat_currency: Seq<char>) -> Seq<char> {
    if fiat_currency.len() == 0 {
        "nzd"@
    } else {
        ascii_lower(fiat_currency)
    }
}

/// The currency to quote in.
pub fn choose_currency(fiat_currency: &str) -> (r: String)
    ensures
        r@ == currency_of(fiat_currency@),
{
    let lowered = to_lower(fiat_currency);
    if chars_of(fiat_currency).len() == 0 {
        String::from_str("nzd")
    } else {
        lowered
    }
}

/// Whether a coin is ruled out by the ignore list.
pub fn check_ignored(name: &str, key: &str, ignore: &TextMap) -> (r: bool)
    ensures
        r == is_ignored(name@, key@, *ignore),
{
    match ignore.get(key) {
        Some(val) => text_contains(name, val.as_str()),
        None => false,
    }
}

impl ProviderCoinGecko {
    fn choose_coin(&self, wanted_upper: &str) -> (r: Option<usize>)
        ensures
            match r {
                Some(place) => place == chosen_coin(
                    self.full_coin_list@,
                    self.params.coin_name_ignore_items,
                    wanted_upper@,
                    self.full_coin_list@.len() as int,
                ) && place < self.full_coin_list@.len(),
                None => chosen_coin(
                    self.full_coin_list@,
                    self.params.coin_name_ignore_items,
                    wanted_upper@,
                    self.full_coin_list@.len() as int,
                ) == -1,
            },
    {
        let mut upto: usize = self.full_coin_list.len();
        while upto > 0
            invariant
                upto <= self.full_coin_list@.len(),
                chosen_coin(
                    self.full_coin_list@,
                    self.params.coin_name_ignore_items,
                    wanted_upper@,
                    self.full_coin_list@.len() as int,
                ) == chosen_coin(
                    self.full_coin_list@,
                    self.params.coin_name_ignore_items,
                    wanted_upper@,
                    upto as int,
                ),
            decreases upto,
        {
            let coin = &self.full_coin_list[upto - 1];
            let upper = to_upper(coin.symbol.as_str());
            if same_text(upper.as_str(), wanted_upper) {
                let lower = to_lower(coin.symbol.as_str());
                if !check_ignored(
                    coin.name.as_str(),
                    lower.as_str(),
                    &self.params.coin_name_ignore_items,
                ) {
                    return Some(upto - 1);
                }
            }
            upto -= 1;
        }
        None
    }

    /// Takes the parameters and the list of coins that the feed knows, and
    /// works out the identifiers to ask for. `coin_list` is `None` where
    /// the list could not be had: then nothing is configured.
    pub fn configure(
        &mut self,
        params: PriceProviderParams,
        coin_list: Option<Vec<CoinListResultItem>>,
    ) -> (r: Option<ConfigDetails>)
        ensures
            final(self).params == params,
            r is Some == coin_list is Some,
            r is Some ==> r->0.have_watermarks_24h && r->0.have_price_change_24h
                && !r->0.have_percent_change_1h,
            coin_list is None ==> final(self).ids_wanted == old(self).ids_wanted && final(self).currency_val == old(self).currency_val && final(self).full_coin_list == old(self).full_coin_list,
            coin_list is Some ==> final(self).full_coin_list == coin_list->0 && final(self).currency_val@ == currency_of(params.fiat_currency@) && texts(
                final(self).ids_wanted@,
            ) == ids_added(
                texts(old(self).ids_wanted@),
                coin_list->0@,
                params.coin_name_ignore_items,
                params.wanted_coin_symbols@,
            ),
    {
        self.params = params;
        let coins = match coin_list {
            Some(coins) => coins,
            None => {
                return None;
            },
        };
        self.full_coin_list = coins;
        let ghost wanted = self.params.wanted_coin_symbols@;
        let ghost start = texts(old(self).ids_wanted@);
        let mut i: usize = 0;
        assert(wanted.take(0) =~= Seq::<String>::empty());
        assert(texts(self.ids_wanted@) =~= start);
        while i < self.params.wanted_coin_symbols.len()
            invariant
                i <= wanted.len(),
                wanted == self.params.wanted_coin_symbols@,
                self.params == params,
                self.full_coin_list == coin_list->0,
                self.currency_val == old(self).currency_val,
                texts(self.ids_wanted@) == ids_added(
                    start,
                    self.full_coin_list@,
                    self.params.coin_name_ignore_items,
                    wanted.take(i as int),
                ),
            decreases wanted.len() - i,
        {
            let upper = to_upper(self.params.wanted_coin_symbols[i].as_str());
            proof {
                assert(wanted.take(i + 1).drop_last() == wanted.take(i as int));
                assert(wanted.take(i + 1).last() == wanted[i as int]);
            }
            match self.choose_coin(upper.as_str()) {
                Some(place) => {
                    let ghost before = self.ids_wanted@;
                    let id = self.full_coin_list[place].id.clone();
                    self.ids_wanted.push(id);
                    assert(texts(self.ids_wanted@) =~= texts(before).push(
                        self.full_coin_list@[place as int].id@,
                    ));
                },
                None => {},
            }
            i += 1;
        }
        proof {
            assert(wanted.take(i as int) == wanted);
        }
        self.currency_val = choose_currency(self.params.fiat_currency.as_str());
        Some(ConfigDetails::new())
    }

    /// A feed configured from `params` and the feed's list of coins.
    pub fn new_from_config(
        params: PriceProviderParams,
        coin_list: Option<Vec<CoinListResultItem>>,
    ) -> (r: Option<(ProviderCoinGecko, ConfigDetails)>)
        ensures
            r is Some == coin_list is Some,
            match r {
                Some((provider, details)) => provider.params == params && provider.full_coin_list
                    == coin_list->0 && provider.currency_val@ == currency_of(params.fiat_currency@)
                    && texts(provider.ids_wanted@) == ids_added(
                    Seq::empty(),
                    coin_list->0@,
                    params.coin_name_ignore_items,
                    params.wanted_coin_symbols@,
                ) && details.have_watermarks_24h && details.have_price_change_24h
                    && !details.have_percent_change_1h,
                None => true,
            },
    {
        let mut provider = ProviderCoinGecko {
            params: PriceProviderParams::new(),
            ids_wanted: Vec::new(),
            currency_val: String::new(),
            full_coin_list: Vec::new(),
        };
        assert(texts(provider.ids_wanted@) =~= Seq::<Seq<char>>::empty());
        match provider.configure(params, coin_list) {
            Some(config_details) => Some((provider, config_details)),
            None => None,
        }
    }

    /// The address to ask for the prices of the coins wanted; an error
    /// where no coin is wanted.
    pub fn request_url(&self) -> (r: Result<String, GetDataError>)
        ensures
            r is Ok == (self.ids_wanted@.len() > 0),
            r is Ok ==> r->Ok_0@
                == "https://api.coingecko.com/api/v3/coins/markets?vs_currency="@
                + self.currency_val@ + "&ids="@ + joined(
                texts(self.ids_wanted@),
                self.ids_wanted@.len() as int,
            ),
            r is Err ==> (r->Err_0 matches GetDataError::ConfigError(m) && m@
                == "No currency symbols configured/requested"@),
    {
        if self.ids_wanted.len() == 0 {
            return Err(
                GetDataError::ConfigError(
                    String::from_str("No currency symbols configured/requested"),
                ),
            );
        }
        let mut url = String::from_str(
            "https://api.coingecko.com/api/v3/coins/markets?vs_currency=",
        ).concat(self.currency_val.as_str()).concat("&ids=");
        append_joined(&mut url, &self.ids_wanted);
        Ok(url)
    }

    /// The snapshot entry for one coin of an answer: the symbol in upper
    /// case, the watermarks of the day, and no change over the last hour.
    pub fn price_item(
        symbol: &str,
        name: &str,
        current_price: Amount,
        low_24h: Amount,
        high_24h: Amount,
        price_change_24h: Amount,
        percent_change_24h: Amount,
    ) -> (item: CoinPriceItem)
        ensures
            item@ == (CoinPriceItemView {
                symbol: ascii_upper(symbol@),
                name: name@,
                current_price,
                watermarks_24h: Some(Watermarks { low: low_24h, high: high_24h }),
                price_change_24h,
                percent_change_1h: None,
                percent_change_24h,
            }),
    {
        CoinPriceItem {
            symbol: to_upper(symbol),
            name: name.to_owned(),
            current_price,
            watermarks_24h: Some(Watermarks::new(low_24h, high_24h)),
            price_change_24h,
            percent_change_1h: None,
            percent_change_24h,
        }
    }
}

} // verus!
