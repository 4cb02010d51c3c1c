use cryptmon::alert_provider::{error_for_failed_request, AlertMessageParams, AlertProvider, SendAlertError};
use cryptmon::alert_provider_pushsafer::AlertProviderPushSafer;
use cryptmon::alert_provider_simplepush::AlertProviderSimplePush;
use cryptmon::alert_provider_textbelt::{AlertProviderTextbelt, TextbeltReply};
use cryptmon::amount::Amount;
use cryptmon::cli_table_printer::{Alignment, BorderType, CLITablePrinter, ColumnProperties};
use cryptmon::formatting_helpers::{insert_thousands_separator, needs_thousands_separator, smart_precision};
use cryptmon::price_provider::{check_results, CoinPriceItem, ConfigDetails, GetDataError, PriceProviderParams, Watermarks};
use cryptmon::price_provider_coingecko::{CoinListResultItem, ProviderCoinGecko};
use cryptmon::price_provider_coinmarketcap::{CurrencyQuote, ProviderCoinMarketCap, QuotedCoin};
use cryptmon::price_provider_cryptocompare::ProviderCryptoCompare;
use cryptmon::text::{chars_of, split_chars, string_of, text_contains, to_lower, to_upper, trim};

fn amt(v: f64) -> Amount {
    Amount::from_bits(v.to_bits())
}

fn smart_format(val: f64) -> String {
    let a = amt(val);
    let text = format!("{:.prec$}", val, prec = smart_precision(&a));
    if needs_thousands_separator(&a) {
        insert_thousands_separator(&text)
    } else {
        text
    }
}

fn coin(id: &str, symbol: &str, name: &str) -> CoinListResultItem {
    CoinListResultItem { id: id.to_string(), symbol: symbol.to_string(), name: name.to_string() }
}

fn coin_list() -> Vec<CoinListResultItem> {
    vec![
        coin("bitcoin", "btc", "Bitcoin"),
        coin("bitcoin-peg", "btc", "Binance-Peg Bitcoin"),
        coin("ethereum", "eth", "Ethereum"),
        coin("eth-wormhole", "ETH", "Ethereum (Wormhole)"),
    ]
}

fn params(fiat: &str, wanted: &[&str]) -> PriceProviderParams {
    let mut p = PriceProviderParams::new();
    p.fiat_currency = fiat.to_string();
    p.coin_name_ignore_items.insert("btc".to_string(), "Peg".to_string());
    p.wanted_coin_symbols = wanted.iter().map(|w| w.to_string()).collect();
    p
}

#[test]
fn test_smart_format_01() {
    assert_eq!(smart_format(64000.0), "64,000.00");
    assert_eq!(smart_format(4300.4), "4,300.40");
    assert_eq!(smart_format(128.52), "128.52");

    assert_eq!(smart_format(-64000.0), "-64,000.00");
    assert_eq!(smart_format(-4140.2), "-4,140.20");
    assert_eq!(smart_format(-128.52), "-128.52");
}

#[test]
fn precision_grows_as_values_shrink() {
    assert_eq!(smart_precision(&amt(10.0)), 2);
    assert_eq!(smart_precision(&amt(-10.0)), 2);
    assert_eq!(smart_precision(&amt(9.999)), 3);
    assert_eq!(smart_precision(&amt(1.0)), 3);
    assert_eq!(smart_precision(&amt(-1.0)), 3);
    assert_eq!(smart_precision(&amt(0.999)), 4);
    assert_eq!(smart_precision(&amt(0.0)), 4);
    assert_eq!(smart_precision(&amt(f64::NAN)), 4);
    assert_eq!(smart_precision(&amt(f64::INFINITY)), 2);
    assert_eq!(smart_format(5.5), "5.500");
    assert_eq!(smart_format(0.1234567), "0.1235");
    assert_eq!(smart_format(12.0), "12.00");
    assert_eq!(smart_format(1000.0), "1,000.00");
    assert_eq!(smart_format(999.999), "1000.00");
    assert_eq!(smart_format(1234567.0), "1234,567.00");
    assert!(needs_thousands_separator(&amt(-1000.0)));
    assert!(!needs_thousands_separator(&amt(999.99)));
    assert!(!needs_thousands_separator(&amt(f64::NAN)));
    assert_eq!(insert_thousands_separator("abc.d"), ",abc.d");
}

#[test]
fn amounts_order_as_the_numbers_do() {
    let values = [
        f64::NEG_INFINITY, -1.0e300, -2.5, -1.0, -f64::MIN_POSITIVE, -5e-324, -0.0, 0.0, 5e-324,
        f64::MIN_POSITIVE, 0.5, 1.0, 1.0000000000000002, 2.5, 50000.0, 1.0e300, f64::MAX,
        f64::INFINITY, f64::NAN,
    ];
    for a in values {
        for b in values {
            assert_eq!(amt(a).less_than(&amt(b)), a < b, "{} < {}", a, b);
            assert_eq!(amt(a).less_or_equal(&amt(b)), a <= b, "{} <= {}", a, b);
            assert_eq!(amt(a).greater_than(&amt(b)), a > b, "{} > {}", a, b);
            assert_eq!(amt(a).greater_or_equal(&amt(b)), a >= b, "{} >= {}", a, b);
            assert_eq!(amt(a).magnitude_at_least(&amt(b)), a.abs() >= b.abs(), "|{}| >= |{}|", a, b);
        }
        assert_eq!(amt(a).is_number(), !a.is_nan());
    }
    assert_eq!(Amount::zero().to_bits(), 0);
    assert!(!amt(-f64::NAN).is_number());
}

#[test]
fn table_with_titles_is_laid_out() {
    let mut table = CLITablePrinter::new(2);
    table.add_titles(&vec!["Sym".to_string(), "Price".to_string()]);
    table.set_alignment_multiple(&[1usize], Alignment::Right);
    table.add_row_strings(&["BTC", "51,000.00"]);
    table.add_row_strings(&["ETHEREUM", "3.5"]);
    let expected = format!(
        "Sym{}Price\n{}\nBTC{}51,000.00\nETHEREUM{}3.5\n",
        " ".repeat(11),
        "-".repeat(19),
        " ".repeat(7),
        " ".repeat(8)
    );
    assert_eq!(table.get_result(), expected);
}

#[test]
fn table_without_titles_pads_to_the_widest_cell() {
    let mut table = CLITablePrinter::new(3);
    table.add_row_strings(&["a", "bb", "ccc"]);
    table.add_row_strings(&["dddd", "e", ""]);
    table.set_alignment_multiple(&[0usize, 2usize], Alignment::Right);
    assert_eq!(table.get_result(), "   a  bb  ccc\ndddd  e      \n");
    assert_eq!(table.column_properties[0].text_alignment, Alignment::Right);
    assert_eq!(table.column_properties[1].text_alignment, Alignment::Left);
    assert_eq!(table.column_properties[2].text_alignment, Alignment::Right);
}

#[test]
fn table_counts_characters_not_bytes() {
    let mut table = CLITablePrinter::new(2);
    table.add_row_strings(&["äö", "x"]);
    table.add_row_strings(&["abc", "y"]);
    assert!(table.check_printable());
    assert_eq!(table.get_result(), "äö   x\nabc  y\n");
}

#[test]
fn tables_that_cannot_be_laid_out_are_told_apart() {
    assert!(!CLITablePrinter::new(0).check_printable());
    let mut table = CLITablePrinter::new(2);
    assert!(!table.check_printable());
    table.add_row_strings(&["a", "b"]);
    assert!(table.check_printable());
    table.add_titles(&vec!["only one".to_string()]);
    assert!(!table.check_printable());
    table.add_titles(&vec!["second".to_string()]);
    assert!(table.check_printable());
    table.add_column_def("third", Alignment::Left);
    assert!(!table.check_printable());
}

#[test]
fn columns_can_be_added_with_their_titles() {
    let mut table = CLITablePrinter::new(1);
    table.add_titles(&vec!["Sym".to_string()]);
    table.add_column_def("% chng 24h", Alignment::Right);
    assert_eq!(table.num_columns, 2);
    assert_eq!(table.column_titles, vec!["Sym".to_string(), "% chng 24h".to_string()]);
    assert_eq!(table.data_columns.len(), 2);
    assert_eq!(table.column_properties[1], ColumnProperties::new_with_alignment(Alignment::Right));
    assert_eq!(ColumnProperties::new().text_alignment, Alignment::Left);
    assert_eq!(ColumnProperties::new().next_border_type, BorderType::NoBorder);
    table.add_row_strings(&["BTC", "1.25%"]);
    assert_eq!(table.get_result(), format!("Sym  % chng 24h\n{}\nBTC{}1.25%\n", "-".repeat(15), " ".repeat(7)));
}

#[test]
fn pushsafer_statuses() {
    assert!(AlertProviderPushSafer::outcome_for_status(200).is_ok());
    let cases = [
        (250u16, "Invalid private key"),
        (255, "Invalid private key or empty message"),
        (260, "empty message"),
        (270, "Invalid device ID"),
        (280, "Insufficient API calls remaining"),
        (201, "Other error"),
        (500, "Other error"),
    ];
    for (status, text) in cases {
        match AlertProviderPushSafer::outcome_for_status(status) {
            Err(SendAlertError::OtherError(m)) => assert_eq!(m, text),
            other => panic!("unexpected outcome {:?}", other),
        }
    }
    assert!(matches!(error_for_failed_request(Some(401)), SendAlertError::AuthenticationError(m) if m.is_empty()));
    assert!(matches!(error_for_failed_request(Some(404)), SendAlertError::OtherError(m) if m.is_empty()));
    assert!(matches!(error_for_failed_request(Some(500)), SendAlertError::OtherError(m) if m.is_empty()));
    assert!(matches!(error_for_failed_request(None), SendAlertError::OtherError(m) if m.is_empty()));
}

#[test]
fn simplepush_and_textbelt_answers() {
    assert!(AlertProviderSimplePush::outcome_for_response(Some("OK"), "{}").is_ok());
    match AlertProviderSimplePush::outcome_for_response(Some("ok"), "{}") {
        Err(SendAlertError::OtherError(m)) => assert_eq!(m, "Error sending notification request to simplepush.io"),
        other => panic!("unexpected outcome {:?}", other),
    }
    match AlertProviderSimplePush::outcome_for_response(None, "<html>") {
        Err(SendAlertError::ParseError(m)) => assert_eq!(m, "Can't parse: <html>"),
        other => panic!("unexpected outcome {:?}", other),
    }
    assert!(AlertProviderTextbelt::outcome_for_response(Some(TextbeltReply { success: true, error: None }), "").is_ok());
    match AlertProviderTextbelt::outcome_for_response(
        Some(TextbeltReply { success: false, error: Some("Out of quota".to_string()) }),
        "",
    ) {
        Err(SendAlertError::OtherError(m)) => assert_eq!(m, "Out of quota"),
        other => panic!("unexpected outcome {:?}", other),
    }
    match AlertProviderTextbelt::outcome_for_response(None, "oops") {
        Err(SendAlertError::ParseError(m)) => assert_eq!(m, "Can't parse: oops"),
        other => panic!("unexpected outcome {:?}", other),
    }
}

#[test]
fn errors_in_words() {
    assert_eq!(SendAlertError::ConfigError("a".to_string()).describe(), "Configuration Error: a");
    assert_eq!(SendAlertError::CantConnect("b".to_string()).describe(), "Can't Connect: b");
    assert_eq!(SendAlertError::NoResponse("c".to_string()).describe(), "No Response from API server: c");
    assert_eq!(SendAlertError::AuthenticationError("d".to_string()).describe(), "Authentication Error: d");
    assert_eq!(SendAlertError::InvalidAPIParams("e".to_string()).describe(), "Invalid API params provided: e");
    assert_eq!(SendAlertError::ParseError("f".to_string()).describe(), "Error parsing response: f");
    assert_eq!(SendAlertError::OtherError("g".to_string()).describe(), "Error with API call: g");
    assert_eq!(SendAlertError::NotImplemented.describe(), "Not implemented");
    assert_eq!(GetDataError::ConfigError("a".to_string()).describe(), "Configuration Error: a");
    assert_eq!(GetDataError::CantConnect("b".to_string()).describe(), "Can't Connect: b");
    assert_eq!(GetDataError::NoResponse("c".to_string()).describe(), "No Response from API server: c");
    assert_eq!(GetDataError::InvalidAPIParams("e".to_string()).describe(), "Invalid API params provided: e");
    assert_eq!(GetDataError::ParseError("f".to_string()).describe(), "Error parsing response: f");
    assert_eq!(GetDataError::EmptyResults.describe(), "Empty results");
    assert_eq!(GetDataError::NotImplemented.describe(), "Not implemented");
    let message = AlertMessageParams::new("Cryptmon Price Alert", "Coin: BTC is at price: 1.000.");
    assert_eq!(message.subject, "Cryptmon Price Alert");
    assert_eq!(message.message, "Coin: BTC is at price: 1.000.");
}

struct SilentChannel;

impl AlertProvider for SilentChannel {}

#[test]
fn channel_without_a_way_to_send_is_not_implemented() {
    let outcome = SilentChannel.send_alert(AlertMessageParams::new("subject", "body"));
    assert!(matches!(outcome, Err(SendAlertError::NotImplemented)));
}

#[test]
fn empty_snapshot_is_an_error() {
    assert!(matches!(check_results(Vec::new()), Err(GetDataError::EmptyResults)));
    let item = CoinPriceItem {
        symbol: "BTC".to_string(),
        name: "Bitcoin".to_string(),
        current_price: amt(1.0),
        watermarks_24h: Some(Watermarks::new(amt(0.5), amt(2.0))),
        price_change_24h: amt(0.1),
        percent_change_1h: None,
        percent_change_24h: amt(10.0),
    };
    let kept = check_results(vec![item]).unwrap();
    assert_eq!(kept.len(), 1);
    assert_eq!(kept[0].watermarks_24h.unwrap().high.to_bits(), 2.0f64.to_bits());
    let details = ConfigDetails::new();
    assert!(!details.have_percent_change_1h && details.have_watermarks_24h && details.have_price_change_24h);
}

#[test]
fn coingecko_picks_the_last_coin_that_is_not_ruled_out() {
    let (provider, details) =
        ProviderCoinGecko::new_from_config(params("USD", &["BTC", "eth", "doge"]), Some(coin_list())).unwrap();
    assert_eq!(provider.ids_wanted, vec!["bitcoin".to_string(), "eth-wormhole".to_string()]);
    assert_eq!(provider.currency_val, "usd");
    assert_eq!(provider.full_coin_list.len(), 4);
    assert!(details.have_watermarks_24h);
    assert_eq!(
        provider.request_url().unwrap(),
        "https://api.coingecko.com/api/v3/coins/markets?vs_currency=usd&ids=bitcoin,eth-wormhole"
    );
    let item = ProviderCoinGecko::price_item("eth", "Ethereum", amt(3000.0), amt(2900.0), amt(3100.0), amt(5.0), amt(0.2));
    assert_eq!(item.symbol, "ETH");
    assert_eq!(item.name, "Ethereum");
    assert_eq!(item.watermarks_24h.unwrap().low.to_bits(), 2900.0f64.to_bits());
    assert!(item.percent_change_1h.is_none());
    assert!(ProviderCoinGecko::new_from_config(params("usd", &["btc"]), None).is_none());
    let (none_wanted, _) = ProviderCoinGecko::new_from_config(params("", &["doge"]), Some(coin_list())).unwrap();
    assert_eq!(none_wanted.currency_val, "nzd");
    match none_wanted.request_url() {
        Err(GetDataError::ConfigError(m)) => assert_eq!(m, "No currency symbols configured/requested"),
        other => panic!("unexpected outcome {:?}", other),
    }
}

#[test]
fn coinmarketcap_needs_a_key() {
    assert!(ProviderCoinMarketCap::new_from_config(params("usd", &["btc"]), None).is_none());
    assert!(ProviderCoinMarketCap::new_from_config(params("usd", &["btc"]), Some(String::new())).is_none());
    let (provider, details) =
        ProviderCoinMarketCap::new_from_config(params("usd", &["btc", "eth"]), Some("k".to_string())).unwrap();
    assert_eq!(provider.api_key, "k");
    assert!(details.have_percent_change_1h && !details.have_price_change_24h && !details.have_watermarks_24h);
    assert_eq!(
        provider.request_url().unwrap(),
        "https://pro-api.coinmarketcap.com/v1/cryptocurrency/quotes/latest?convert=usd&symbol=btc,eth"
    );
    let (empty, _) = ProviderCoinMarketCap::new_from_config(params("usd", &[]), Some("k".to_string())).unwrap();
    match empty.request_url() {
        Err(GetDataError::ConfigError(m)) => assert_eq!(m, "No coin currency symbols configured/requested"),
        other => panic!("unexpected outcome {:?}", other),
    }
}

fn quoted(key: &str, quotes: &[(&str, f64)]) -> QuotedCoin {
    QuotedCoin {
        key: key.to_string(),
        name: format!("{} coin", key),
        symbol: key.to_lowercase(),
        quotes: quotes
            .iter()
            .map(|(currency, price)| CurrencyQuote {
                currency: currency.to_string(),
                price: amt(*price),
                percent_change_1h: amt(0.5),
                percent_change_24h: amt(-1.5),
            })
            .collect(),
    }
}

#[test]
fn coinmarketcap_selects_wanted_coins_in_their_order() {
    let (provider, _) =
        ProviderCoinMarketCap::new_from_config(params("usd", &["eth", "xrp", "BTC", "ltc"]), Some("k".to_string()))
            .unwrap();
    let data = vec![
        quoted("BTC", &[("EUR", 1.0), ("USD", 51000.0)]),
        quoted("ETH", &[("USD", 3000.0)]),
        quoted("LTC", &[("EUR", 70.0)]),
    ];
    let prices = provider.select_prices(&data).unwrap();
    assert_eq!(prices.len(), 2);
    assert_eq!(prices[0].symbol, "ETH");
    assert_eq!(prices[0].name, "ETH coin");
    assert_eq!(prices[0].current_price.to_bits(), 3000.0f64.to_bits());
    assert_eq!(prices[1].symbol, "BTC");
    assert_eq!(prices[1].current_price.to_bits(), 51000.0f64.to_bits());
    assert!(prices[1].watermarks_24h.is_none());
    assert_eq!(prices[1].price_change_24h.to_bits(), 0);
    assert_eq!(prices[1].percent_change_1h.map(|p| p.to_bits()), Some(0.5f64.to_bits()));
    assert_eq!(prices[1].percent_change_24h.to_bits(), (-1.5f64).to_bits());
    assert!(matches!(provider.select_prices(&Vec::new()), Err(GetDataError::EmptyResults)));
    assert!(provider.select_prices(&vec![quoted("DOGE", &[("USD", 0.1)])]).unwrap().is_empty());
}

#[test]
fn cryptocompare_learns_the_names_of_wanted_coins() {
    let (provider, details) =
        ProviderCryptoCompare::new_from_config(params("USD", &["BTC", "eth"]), &Some(coin_list())).unwrap();
    assert_eq!(provider.symbols_wanted, vec!["btc".to_string(), "eth".to_string()]);
    assert_eq!(provider.currency_val, "usd");
    assert!(details.have_watermarks_24h && details.have_price_change_24h && !details.have_percent_change_1h);
    assert_eq!(provider.coin_name("btc"), "Bitcoin");
    assert_eq!(provider.coin_name("ETH"), "Ethereum (Wormhole)");
    assert_eq!(provider.coin_name("xrp"), "Unknown");
    assert_eq!(
        provider.request_url().unwrap(),
        "https://min-api.cryptocompare.com/data/pricemultifull?fsyms=btc,eth&tsyms=usd"
    );
    let item = provider.price_item("btc", amt(51000.0), amt(50000.0), amt(52000.0), amt(-10.0), amt(-0.02));
    assert_eq!(item.symbol, "BTC");
    assert_eq!(item.name, "Bitcoin");
    assert_eq!(item.current_price.to_bits(), 51000.0f64.to_bits());
    assert_eq!(item.watermarks_24h.unwrap().low.to_bits(), 50000.0f64.to_bits());
    assert_eq!(item.watermarks_24h.unwrap().high.to_bits(), 52000.0f64.to_bits());
    assert_eq!(item.price_change_24h.to_bits(), (-10.0f64).to_bits());
    assert!(item.percent_change_1h.is_none());
    assert_eq!(item.percent_change_24h.to_bits(), (-0.02f64).to_bits());
    let (mut bare, _) = ProviderCryptoCompare::new_from_config(params("", &["xrp"]), &None).unwrap();
    bare.take_coin_name(&coin("ripple", "xrp", "XRP"), "XRP".to_string());
    bare.take_coin_name(&coin("dogecoin", "doge", "Dogecoin"), "DOGE".to_string());
    bare.take_coin_name(&coin("other", "xrp", "Other"), "xrp".to_string());
    assert_eq!(bare.coin_name("xrp"), "XRP");
    assert_eq!(bare.coin_name("doge"), "Unknown");
    assert_eq!(bare.name_lookup.entries.len(), 1);
    let (bare, _) = ProviderCryptoCompare::new_from_config(params("", &[]), &None).unwrap();
    assert_eq!(bare.currency_val, "nzd");
    assert_eq!(bare.coin_name("btc"), "Unknown");
    assert!(matches!(bare.request_url(), Err(GetDataError::ConfigError(_))));
}

#[test]
fn text_helpers() {
    assert_eq!(to_lower("BtC-Ä1"), "btc-Ä1");
    assert_eq!(to_upper("BtC-ä1"), "BTC-ä1");
    assert_eq!(string_of(&trim(&chars_of(" \t\u{a0}a b\u{3000}\n"))), "a b");
    assert_eq!(string_of(&trim(&chars_of("   "))), "");
    let pieces: Vec<String> = split_chars(&chars_of("a,,b,"), ',').iter().map(string_of).collect();
    assert_eq!(pieces, vec!["a".to_string(), "".to_string(), "b".to_string(), "".to_string()]);
    let single: Vec<String> = split_chars(&chars_of(""), ',').iter().map(string_of).collect();
    assert_eq!(single, vec!["".to_string()]);
    assert!(text_contains("Binance-Peg Bitcoin", "Peg"));
    assert!(text_contains("abc", ""));
    assert!(text_contains("abc", "abc"));
    assert!(!text_contains("abc", "abcd"));
    assert!(!text_contains("Bitcoin", "Peg"));
}
