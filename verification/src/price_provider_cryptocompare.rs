//! The CryptoCompare feed: which coins to ask for, and what they are called.

use crate::amount::Amount;
use crate::price_provider::{
    CoinPriceItem, CoinPriceItemView, ConfigDetails, GetDataError, PriceProviderParams,
    Watermarks,
};
use crate::price_provider_coingecko::{
    check_ignored, choose_currency, currency_of, is_ignored, CoinListResultItem,
};
use crate::text::{
    append_joined, ascii_lower, ascii_upper, joined, same_text, texts, to_lower,
    to_uppercase_text, to_upper, unicode_upper,
};
use crate::text_map::TextMap;
use vstd::prelude::*;
use vstd::string::StringExecFns;

verus! {

/// What is known of the CryptoCompare feed once it is configured.
pub struct ProviderCryptoCompare {
    pub params: PriceProviderParams,
    /// The symbols to ask prices for, in lower case.
    pub symbols_wanted: Vec<String>,
    pub currency_val: String,
    /// Symbol in upper case to the full name of the coin.
    pub name_lookup: TextMap,
}

/// Whether one of the first `upto` of `wanted`, put in upper case, is `upper`.
pub open spec fn is_wanted(wanted: Seq<String>, upper: Seq<char>, upto: int) -> bool
    decreases upto,
{
    0 < upto <= wanted.len() && (ascii_upper(wanted[upto - 1]@) == upper || is_wanted(
        wanted,
        upper,
        upto - 1,
    ))
}

/// The names after one coin is looked at, `upper` being its symbol in
/// upper case: a coin whose symbol is wanted, and which is not ruled out,
/// is stored under that symbol.
pub open spec fn name_taken(
    names: Map<Seq<char>, Seq<char>>,
    coin: CoinListResultItem,
    upper: Seq<char>,
    wanted: Seq<String>,
    ignore: TextMap,
) -> Map<Seq<char>, Seq<char>> {
    if is_wanted(wanted, upper, wanted.len() as int) && !is_ignored(
        coin.name@,
        coin.symbol@,
        ignore,
    ) {
        names.insert(upper, coin.name@)
    } else {
        names
    }
}

/// The names after the list of coins is gone through in order, every coin
/// under its symbol in upper case by the rules of Unicode.
pub open spec fn names_added(
    names: Map<Seq<char>, Seq<char>>,
    coins: Seq<CoinListResultItem>,
    wanted: Seq<String>,
    ignore: TextMap,
) -> Map<Seq<char>, Seq<char>>
    decreases coins.len(),
{
    if coins.len() == 0 {
        names
    } else {
        name_taken(
            names_added(names, coins.drop_last(), wanted, ignore),
            coins.last(),
            unicode_upper(coins.last().symbol@),
            wanted,
            ignore,
        )
    }
}

/// The symbols after `wanted` are added in lower case.
pub open spec fn symbols_added(symbols: Seq<Seq<char>>, wanted: Seq<String>) -> Seq<Seq<char>> {
    symbols + Seq::new(wanted.len(), |i: int| ascii_lower(wanted[i]@))
}

impl ProviderCryptoCompare {
    fn check_wanted(&self, upper: &str) -> (r: bool)
        ensures
            r == is_wanted(
                self.params.wanted_coin_symbols@,
                upper@,
                self.params.wanted_coin_symbols@.len() as int,
            ),
    {
        let mut upto: usize = self.params.wanted_coin_symbols.len();
        while upto > 0
            invariant
                upto <= self.params.wanted_coin_symbols@.len(),
                is_wanted(
                    self.params.wanted_coin_symbols@,
                    upper@,
                    self.params.wanted_coin_symbols@.len() as int,
                ) == is_wanted(self.params.wanted_coin_symbols@, upper@, upto as int),
            decreases upto,
        {
            let candidate = to_upper(self.params.wanted_coin_symbols[upto - 1].as_str());
            if same_text(candidate.as_str(), upper) {
                return true;
            }
            upto -= 1;
        }
        false
    }

    /// Looks at one coin of a list, `uppercase_symbol` being its symbol in
    /// upper case: stores its name where the symbol is wanted and the coin
    /// is not ruled out.
    pub fn take_coin_name(&mut self, coin: &CoinListResultItem, uppercase_symbol: String)
        requires
            old(self).name_lookup.wf(),
        ensures
            final(self).name_lookup.wf(),
            final(self).params == old(self).params,
            final(self).symbols_wanted == old(self).symbols_wanted,
            final(self).currency_val == old(self).currency_val,
            final(self).name_lookup.as_map() == name_taken(
                old(self).name_lookup.as_map(),
                *coin,
                uppercase_symbol@,
                old(self).params.wanted_coin_symbols@,
                old(self).params.coin_name_ignore_items,
            ),
    {
        if self.check_wanted(uppercase_symbol.as_str()) {
            if !check_ignored(
                coin.name.as_str(),
                coin.symbol.as_str(),
                &self.params.coin_name_ignore_items,
            ) {
                self.name_lookup.insert(uppercase_symbol, coin.name.clone());
            }
        }
    }

    /// Stores the names of the wanted coins from the list of coins that the
    /// CoinGecko feed knows; says whether there was a list.
    pub fn build_coin_name_lookup_coingecko(&mut self, coin_list: &Option<Vec<CoinListResultItem>>) -> (r:
        bool)
        requires
            old(self).name_lookup.wf(),
        ensures
            final(self).name_lookup.wf(),
            r == coin_list is Some,
            final(self).params == old(self).params,
            final(self).symbols_wanted == old(self).symbols_wanted,
            final(self).currency_val == old(self).currency_val,
            final(self).name_lookup.as_map() == (match coin_list {
                Some(coins) => names_added(
                    old(self).name_lookup.as_map(),
                    coins@,
                    old(self).params.wanted_coin_symbols@,
                    old(self).params.coin_name_ignore_items,
                ),
                None => old(self).name_lookup.as_map(),
            }),
    {
        let coins = match coin_list {
            Some(coins) => coins,
            None => {
                return false;
            },
        };
        let mut i: usize = 0;
        assert(coins@.take(0) =~= Seq::<CoinListResultItem>::empty());
        while i < coins.len()
            invariant
                i <= coins@.len(),
                self.name_lookup.wf(),
                self.params == old(self).params,
                self.symbols_wanted == old(self).symbols_wanted,
                self.currency_val == old(self).currency_val,
                self.name_lookup.as_map() == names_added(
                    old(self).name_lookup.as_map(),
                    coins@.take(i as int),
                    self.params.wanted_coin_symbols@,
                    self.params.coin_name_ignore_items,
                ),
            decreases coins@.len() - i,
        {
            let coin = &coins[i];
            proof {
                assert(coins@.take(i + 1).drop_last() == coins@.take(i as int));
                assert(coins@.take(i + 1).last() == coins@[i as int]);
            }
            let uppercase_symbol = to_uppercase_text(coin.symbol.as_str());
            self.take_coin_name(coin, uppercase_symbol);
            i += 1;
        }
        proof {
            assert(coins@.take(i as int) == coins@);
        }
        true
    }

    /// Takes the parameters and the list of coins that the CoinGecko feed
    /// knows (`None` where it could not be had): the symbols to ask for, the
    /// currency, and the names of the coins as far as the list gives them.
    pub fn configure(
        &mut self,
        params: PriceProviderParams,
        coin_list: &Option<Vec<CoinListResultItem>>,
    ) -> (r: Option<ConfigDetails>)
        requires
            old(self).name_lookup.wf(),
        ensures
            final(self).name_lookup.wf(),
            final(self).params == params,
            r is Some,
            r->0.have_watermarks_24h && r->0.have_price_change_24h && !r->0.have_percent_change_1h,
            texts(final(self).symbols_wanted@) == symbols_added(
                texts(old(self).symbols_wanted@),
                params.wanted_coin_symbols@,
            ),
            final(self).currency_val@ == currency_of(params.fiat_currency@),
            final(self).name_lookup.as_map() == (match coin_list {
                Some(coins) => names_added(
                    old(self).name_lookup.as_map(),
                    coins@,
                    params.wanted_coin_symbols@,
                    params.coin_name_ignore_items,
                ),
                None => old(self).name_lookup.as_map(),
            }),
    {
        self.params = params;
        let ghost wanted = self.params.wanted_coin_symbols@;
        let ghost start = texts(old(self).symbols_wanted@);
        let mut i: usize = 0;
        assert(texts(self.symbols_wanted@) =~= symbols_added(start, wanted.take(0)));
        while i < self.params.wanted_coin_symbols.len()
            invariant
                i <= wanted.len(),
                wanted == self.params.wanted_coin_symbols@,
                self.params == params,
                self.name_lookup == old(self).name_lookup,
                texts(self.symbols_wanted@) == symbols_added(start, wanted.take(i as int)),
            decreases wanted.len() - i,
        {
            let ghost before = self.symbols_wanted@;
            self.symbols_wanted.push(to_lower(self.params.wanted_coin_symbols[i].as_str()));
            proof {
                let added = ascii_lower(wanted[i as int]@);
                assert(texts(self.symbols_wanted@) =~= texts(before).push(added));
                assert(symbols_added(start, wanted.take(i + 1)) =~= symbols_added(
                    start,
                    wanted.take(i as int),
                ).push(added));
            }
            i += 1;
        }
        proof {
            assert(wanted.take(i as int) == wanted);
        }
        self.currency_val = choose_currency(self.params.fiat_currency.as_str());
        self.build_coin_name_lookup_coingecko(coin_list);
        Some(ConfigDetails::new())
    }

    /// A feed configured from `params` and the list of coins that the
    /// CoinGecko feed knows.
    pub fn new_from_config(
        params: PriceProviderParams,
        coin_list: &Option<Vec<CoinListResultItem>>,
    ) -> (r: Option<(ProviderCryptoCompare, ConfigDetails)>)
        ensures
            match r {
                Some((provider, details)) => provider.name_lookup.wf() && provider.params == params
                    && texts(provider.symbols_wanted@) == symbols_added(
                    Seq::empty(),
                    params.wanted_coin_symbols@,
                ) && provider.currency_val@ == currency_of(params.fiat_currency@)
                    && provider.name_lookup.as_map() == (match coin_list {
                    Some(coins) => names_added(
                        Map::empty(),
                        coins@,
                        params.wanted_coin_symbols@,
                        params.coin_name_ignore_items,
                    ),
                    None => Map::empty(),
                }) && details.have_watermarks_24h && details.have_price_change_24h
                    && !details.have_percent_change_1h,
                None => false,
            },
    {
        let mut provider = ProviderCryptoCompare {
            params: PriceProviderParams::new(),
            symbols_wanted: Vec::new(),
            currency_val: String::new(),
            name_lookup: TextMap::new(),
        };
        assert(texts(provider.symbols_wanted@) =~= Seq::<Seq<char>>::empty());
        match provider.configure(params, coin_list) {
            Some(config_details) => Some((provider, config_details)),
            None => None,
        }
    }

    /// The address to ask for the prices of the coins wanted; an error
    /// where no coin is wanted.
    pub fn request_url(&self) -> (r: Result<String, GetDataError>)
        ensures
            r is Ok == (self.symbols_wanted@.len() > 0),
            r is Ok ==> r->Ok_0@ == "https://min-api.cryptocompare.com/data/pricemultifull?fsyms="@
                + joined(texts(self.symbols_wanted@), self.symbols_wanted@.len() as int)
                + "&tsyms="@ + self.currency_val@,
            r is Err ==> (r->Err_0 matches GetDataError::ConfigError(m) && m@
                == "No currency symbols configured/requested"@),
    {
        if self.symbols_wanted.len() == 0 {
            return Err(
                GetDataError::ConfigError(
                    String::from_str("No currency symbols configured/requested"),
                ),
            );
        }
        let mut url = String::from_str(
            "https://min-api.cryptocompare.com/data/pricemultifull?fsyms=",
        );
        append_joined(&mut url, &self.symbols_wanted);
        url.append("&tsyms=");
        url.append(self.currency_val.as_str());
        Ok(url)
    }

    /// The full name of the coin with the symbol `from_symbol`, or
    /// `Unknown` where the lookup does not hold it.
    pub fn coin_name(&self, from_symbol: &str) -> (r: String)
        ensures
            r@ == (match self.name_lookup.lookup(ascii_upper(from_symbol@)) {
                Some(name) => name,
                None => "Unknown"@,
            }),
    {
        let coin_symbol = to_upper(from_symbol);
        match self.name_lookup.get(coin_symbol.as_str()) {
            Some(name) => name.clone(),
            None => String::from_str("Unknown"),
        }
    }

    /// The snapshot entry for one coin of an answer: the symbol in upper
    /// case, the name from the lookup, the watermarks of the day, and no
    /// change over the last hour.
    pub fn price_item(
        &self,
        from_symbol: &str,
        current_price: Amount,
        low_24h: Amount,
        high_24h: Amount,
        price_change_24h: Amount,
        percent_change_24h: Amount,
    ) -> (item: CoinPriceItem)
        ensures
            item@ == (CoinPriceItemView {
                symbol: ascii_upper(from_symbol@),
                name: match self.name_lookup.lookup(ascii_upper(from_symbol@)) {
                    Some(name) => name,
                    None => "Unknown"@,
                },
                current_price,
                watermarks_24h: Some(Watermarks { low: low_24h, high: high_24h }),
                price_change_24h,
                percent_change_1h: None,
                percent_change_24h,
            }),
    {
        CoinPriceItem {
            symbol: to_upper(from_symbol),
            name: self.coin_name(from_symbol),
            current_price,
            watermarks_24h: Some(Watermarks::new(low_24h, high_24h)),
            price_change_24h,
            percent_change_1h: None,
            percent_change_24h,
        }
    }
}

} // verus!
