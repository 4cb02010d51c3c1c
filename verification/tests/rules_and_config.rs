use cryptmon::alert_service::AlertService;
use cryptmon::alert_state::{AlertAction, AlertTriggerType};
use cryptmon::amount::Amount;
use cryptmon::config::{
    convert_time_period_string_to_seconds, get_key_value_parts, read_time_period,
    AlertProviderConfig, Config, ConfigSubType, DisplayDataViewType,
};
use cryptmon::provider_registry::{ProviderHandle, ProviderRegistry};
use cryptmon::rule_parser::{parse_alert_rule, rule_threshold_text, split_rule_fields, RuleError};

fn num(v: f64) -> Option<Amount> {
    Some(Amount::from_bits(v.to_bits()))
}

fn read(line: &str, registry: &ProviderRegistry) -> Result<cryptmon::alert_state::AlertItem, RuleError> {
    let threshold = rule_threshold_text(line)
        .and_then(|t| t.parse::<f64>().ok())
        .map(|v| Amount::from_bits(v.to_bits()));
    parse_alert_rule(line, threshold, registry)
}

fn lines(text: &[&str]) -> Vec<String> {
    text.iter().map(|l| l.to_string()).collect()
}

#[test]
fn rule_is_read_field_by_field() {
    let registry = ProviderRegistry::new();
    let rule = read("newAlert (BTC, >, 50000, print)", &registry).unwrap();
    assert_eq!(rule.coin_symbol, "btc");
    assert_eq!(rule.trigger_type, AlertTriggerType::PriceGreaterThan);
    assert_eq!(rule.trigger_price.to_bits(), 50000.0f64.to_bits());
    assert!(matches!(rule.action, AlertAction::PrintMessage));
    assert_eq!(rule.alert_provider, None);
}

#[test]
fn every_operator_is_known() {
    let registry = ProviderRegistry::new();
    assert_eq!(read("(a,<,1,print)", &registry).unwrap().trigger_type, AlertTriggerType::PriceLessThan);
    assert_eq!(read("(a,<=,1,print)", &registry).unwrap().trigger_type, AlertTriggerType::PriceLessThanEqualTo);
    assert_eq!(read("(a,>=,1,print)", &registry).unwrap().trigger_type, AlertTriggerType::PriceGreaterThanEqualTo);
    assert_eq!(read("(a,>,1,print)", &registry).unwrap().trigger_type, AlertTriggerType::PriceGreaterThan);
}

#[test]
fn reading_twice_gives_the_same_rule() {
    let registry = ProviderRegistry::new();
    let a = read("( Eth ,  <= , 1234.5 ,  showNotification )", &registry).unwrap();
    let b = read("( Eth ,  <= , 1234.5 ,  showNotification )", &registry).unwrap();
    assert_eq!(a.coin_symbol, b.coin_symbol);
    assert_eq!(a.coin_symbol, "eth");
    assert_eq!(a.trigger_type, b.trigger_type);
    assert_eq!(a.trigger_price.to_bits(), b.trigger_price.to_bits());
    assert_eq!(a.trigger_price.to_bits(), 1234.5f64.to_bits());
    assert!(matches!(a.action, AlertAction::ShowNotification));
    assert!(matches!(b.action, AlertAction::ShowNotification));
    assert_eq!(a.alert_provider, b.alert_provider);
}

#[test]
fn each_malformed_rule_has_its_error() {
    let registry = ProviderRegistry::new();
    assert_eq!(read("btc, >, 50000, print)", &registry).unwrap_err(), RuleError::MissingParenthesis);
    assert_eq!(read("(btc, >, 50000, print", &registry).unwrap_err(), RuleError::MissingParenthesis);
    assert_eq!(read(")btc, >, 50000, print(", &registry).unwrap_err(), RuleError::MissingParenthesis);
    assert_eq!(read("", &registry).unwrap_err(), RuleError::MissingParenthesis);
    assert_eq!(read("(btc, >, 50000)", &registry).unwrap_err(), RuleError::WrongFieldCount);
    assert_eq!(read("(btc, >, 50000, print, more)", &registry).unwrap_err(), RuleError::WrongFieldCount);
    assert_eq!(read("()", &registry).unwrap_err(), RuleError::WrongFieldCount);
    assert_eq!(read("( , >, 50000, print)", &registry).unwrap_err(), RuleError::EmptySymbol);
    assert_eq!(read("(btc, =, 50000, print)", &registry).unwrap_err(), RuleError::UnknownOperator);
    assert_eq!(read("(btc, =>, 50000, print)", &registry).unwrap_err(), RuleError::UnknownOperator);
    assert_eq!(read("(btc, >, fifty, print)", &registry).unwrap_err(), RuleError::BadThreshold);
    assert_eq!(read("(btc, >, , print)", &registry).unwrap_err(), RuleError::BadThreshold);
    assert_eq!(read("(btc, >, 50000, pushsafer)", &registry).unwrap_err(), RuleError::UnknownProvider);
    assert_eq!(read("(btc, >, 50000, Print)", &registry).unwrap_err(), RuleError::UnknownProvider);
}

#[test]
fn threshold_given_as_none_is_a_bad_threshold() {
    let registry = ProviderRegistry::new();
    assert_eq!(
        parse_alert_rule("(btc, >, 50000, print)", None, &registry).unwrap_err(),
        RuleError::BadThreshold
    );
    let rule = parse_alert_rule("(btc, >, 50000, print)", num(7.0), &registry).unwrap();
    assert_eq!(rule.trigger_price.to_bits(), 7.0f64.to_bits());
}

#[test]
fn outer_parentheses_bound_the_fields() {
    let fields = split_rule_fields("x ( a(b , < , 1e3 , run) ) y").unwrap();
    assert_eq!(fields, vec!["a(b".to_string(), "<".to_string(), "1e3".to_string(), "run)".to_string()]);
    assert_eq!(rule_threshold_text(" (btc,>,\t50000.25 ,print)"), Some("50000.25".to_string()));
    assert_eq!(rule_threshold_text("btc,>,5,print"), None);
    assert_eq!(split_rule_fields("(a,b,c)").unwrap_err(), RuleError::WrongFieldCount);
}

#[test]
fn command_and_channel_actions() {
    let mut registry = ProviderRegistry::new();
    let mut cfg = AlertProviderConfig::new("simplepush", true);
    cfg.params.insert("key".to_string(), "abc".to_string());
    let handle = ProviderHandle::construct("simplepush", &cfg, false).unwrap();
    registry.insert("simplepush".to_string(), handle);
    let run = read("(btc, >, 1, runCommand: ls)", &registry).unwrap();
    match run.action {
        AlertAction::RunCommand(text) => assert_eq!(text, ""),
        other => panic!("unexpected action {:?}", other),
    }
    assert_eq!(run.alert_provider, None);
    let send = read("(btc, >, 1, simplepush)", &registry).unwrap();
    match send.action {
        AlertAction::RunProvider(name) => assert_eq!(name, "simplepush"),
        other => panic!("unexpected action {:?}", other),
    }
    assert_eq!(send.alert_provider, Some(0));
    assert_eq!(read("(btc, >, 1, runCommand)", &registry).unwrap_err(), RuleError::UnknownProvider);
}

#[test]
fn channels_are_built_only_from_complete_settings() {
    let mut cfg = AlertProviderConfig::new("pushsafer", true);
    assert!(ProviderHandle::construct("pushsafer", &cfg, false).is_none());
    cfg.params.insert("privateKey".to_string(), "pk".to_string());
    assert!(ProviderHandle::construct("pushsafer", &cfg, false).is_none());
    cfg.params.insert("deviceID".to_string(), "dev".to_string());
    match ProviderHandle::construct("pushsafer", &cfg, false) {
        Some(ProviderHandle::PushSafer(p)) => {
            assert_eq!(p.private_key, "pk");
            assert_eq!(p.device_id, "dev");
        }
        other => panic!("unexpected handle {:?}", other),
    }
    assert!(ProviderHandle::construct("carrier-pigeon", &cfg, true).is_none());
    let mut text = AlertProviderConfig::new("textbelt", true);
    text.params.insert("phoneNumber".to_string(), "123".to_string());
    match ProviderHandle::construct("textbelt", &text, false) {
        Some(ProviderHandle::Textbelt(p)) => {
            assert_eq!(p.api_key, "textbelt");
            assert_eq!(p.phone_number, "123");
        }
        other => panic!("unexpected handle {:?}", other),
    }
    text.params.insert("API_KEY".to_string(), "paid".to_string());
    match ProviderHandle::construct("textbelt", &text, false) {
        Some(ProviderHandle::Textbelt(p)) => assert_eq!(p.api_key, "paid"),
        other => panic!("unexpected handle {:?}", other),
    }
    let mut mail = AlertProviderConfig::new("mailSMTP", true);
    mail.params.insert("toAddress".to_string(), "a@b".to_string());
    mail.params.insert("smtpServer".to_string(), "smtp.b".to_string());
    mail.params.insert("smtpUsername".to_string(), "me".to_string());
    assert!(ProviderHandle::construct("mailSMTP", &mail, true).is_none());
    mail.params.insert("smtpPassword".to_string(), "pw".to_string());
    assert!(ProviderHandle::construct("mailSMTP", &mail, false).is_none());
    match ProviderHandle::construct("mailSMTP", &mail, true) {
        Some(ProviderHandle::MailSMTP(p)) => {
            assert_eq!(p.to_address, "a@b");
            assert_eq!(p.smtp_server, "smtp.b");
            assert_eq!(p.smtp_username, "me");
            assert_eq!(p.smtp_password, "pw");
        }
        other => panic!("unexpected handle {:?}", other),
    }
}

#[test]
fn registry_keeps_one_channel_per_name() {
    let mut config = Config::load(Some(&lines(&[
        "alerts.provider.simplepush.key: first",
        "alerts.provider.textbelt.enabled: true",
    ])));
    let mut registry = ProviderRegistry::new();
    assert!(registry.register("simplepush", &config.alert_config, false));
    assert!(!registry.register("textbelt", &config.alert_config, false));
    assert!(!registry.register("pushsafer", &config.alert_config, false));
    assert_eq!(registry.entries.len(), 1);
    assert_eq!(registry.position("simplepush"), Some(0));
    assert_eq!(registry.position("textbelt"), None);
    config.apply_line("alerts.provider.simplepush.key: second");
    assert!(registry.register("simplepush", &config.alert_config, false));
    assert_eq!(registry.entries.len(), 1);
    match &registry.entries[0].handle {
        ProviderHandle::SimplePush(p) => assert_eq!(p.key, "second"),
        other => panic!("unexpected handle {:?}", other),
    }
}

#[test]
fn malformed_rules_do_not_stop_the_others() {
    let config = Config::load(Some(&lines(&[
        "alerts.newAlert: btc, >, 50000, print",
        "alerts.newAlert: (btc, >, 50000, print)",
        "alerts.newAlert: (eth, ~, 1, print)",
        "alerts.newAlert: (eth, <, lots, print)",
        "alerts.newAlert: (eth, <, 1, 2, print)",
        "alerts.newAlert: (ltc, <=, 70.5, print)",
    ])));
    assert_eq!(config.alert_config.alert_config_strings.len(), 6);
    let thresholds: Vec<Option<Amount>> = config
        .alert_config
        .alert_config_strings
        .iter()
        .map(|l| rule_threshold_text(l).and_then(|t| t.parse::<f64>().ok()).map(|v| Amount::from_bits(v.to_bits())))
        .collect();
    let service = AlertService::new_at(&config, &thresholds, false, 0).unwrap();
    assert_eq!(service.alert_items.len(), 2);
    assert_eq!(service.alert_items[0].main_alert.coin_symbol, "btc");
    assert_eq!(service.alert_items[1].main_alert.coin_symbol, "ltc");
    assert_eq!(service.alert_items[1].main_alert.trigger_price.to_bits(), 70.5f64.to_bits());
    // thresholds that are missing count as unreadable
    let short = AlertService::new_at(&config, &thresholds[..2].to_vec(), false, 0).unwrap();
    assert_eq!(short.alert_items.len(), 1);
}

#[test]
fn key_value_parts_of_a_line() {
    assert_eq!(
        get_key_value_parts("display.updatePeriod: 5m"),
        Some((ConfigSubType::Display, "updatePeriod".to_string(), "5m".to_string()))
    );
    assert_eq!(
        get_key_value_parts("alerts.provider.pushsafer.deviceID :  77 "),
        Some((ConfigSubType::Alerts, "provider.pushsafer.deviceID".to_string(), "77".to_string()))
    );
    assert_eq!(
        get_key_value_parts("fiatCurrency:usd"),
        Some((ConfigSubType::General, "fiatCurrency".to_string(), "usd".to_string()))
    );
    assert_eq!(
        get_key_value_parts("other.key: a:b"),
        Some((ConfigSubType::General, "key".to_string(), "a:b".to_string()))
    );
    assert_eq!(get_key_value_parts("no colon here"), None);
    assert_eq!(get_key_value_parts(":value"), None);
    assert_eq!(get_key_value_parts("key:"), None);
    assert_eq!(
        get_key_value_parts("key: "),
        Some((ConfigSubType::General, "key".to_string(), "".to_string()))
    );
}

#[test]
fn time_periods_in_seconds() {
    assert_eq!(convert_time_period_string_to_seconds("1h"), Some(3600));
    assert_eq!(convert_time_period_string_to_seconds("6h"), Some(21600));
    assert_eq!(convert_time_period_string_to_seconds("90s"), Some(90));
    assert_eq!(convert_time_period_string_to_seconds("5m"), Some(300));
    assert_eq!(convert_time_period_string_to_seconds("15"), Some(900));
    assert_eq!(convert_time_period_string_to_seconds("+2h"), Some(7200));
    assert_eq!(convert_time_period_string_to_seconds("7d"), Some(420));
    assert_eq!(convert_time_period_string_to_seconds("h"), None);
    assert_eq!(convert_time_period_string_to_seconds("1.5h"), None);
    assert_eq!(convert_time_period_string_to_seconds("-5m"), None);
    assert_eq!(convert_time_period_string_to_seconds("5 m"), None);
    assert_eq!(convert_time_period_string_to_seconds("18446744073709551615s"), Some(u64::MAX));
    assert_eq!(convert_time_period_string_to_seconds("18446744073709551616s"), None);
    assert_eq!(convert_time_period_string_to_seconds("18446744073709551615m"), None);
    assert_eq!(convert_time_period_string_to_seconds("5124095576030431h"), Some(5124095576030431 * 3600));
    assert_eq!(convert_time_period_string_to_seconds("5124095576030432h"), None);
}

#[test]
fn time_periods_with_and_without_a_unit() {
    assert_eq!(read_time_period("2h", true), Some(7200));
    assert_eq!(read_time_period("2s", true), Some(2));
    assert_eq!(read_time_period("2m", true), Some(120));
    assert_eq!(read_time_period("2x", true), Some(120));
    assert_eq!(read_time_period("25", false), Some(1500));
    assert_eq!(read_time_period("25", true), Some(120));
    assert_eq!(read_time_period("2h", false), None);
    assert_eq!(read_time_period("h", true), None);
    assert_eq!(read_time_period("+", false), None);
    assert_eq!(read_time_period("007s", true), Some(7));
}

#[test]
fn defaults_without_a_file() {
    let config = Config::load(None);
    assert_eq!(config.display_config.data_provider, "cryptocompare");
    assert_eq!(config.display_config.fiat_currency, "nzd");
    assert_eq!(config.display_config.wanted_coins, lines(&["BTC", "ETH", "BTC", "LTC"]));
    assert_eq!(config.display_config.update_period, 120);
    assert_eq!(config.display_config.data_view_type, DisplayDataViewType::MediumData);
    assert_eq!(config.alert_config.data_provider, "cryptocompare");
    assert_eq!(config.alert_config.fiat_currency, "nzd");
    assert_eq!(config.alert_config.check_period, 120);
    assert_eq!(config.alert_config.general_sleep_period, 3600);
    assert!(!config.alert_config.watermark_trip_sleep_enabled);
    assert_eq!(config.alert_config.watermark_trip_sleep_period, 21600);
    assert!(config.alert_config.alert_provider_configs.is_empty());
    assert!(config.alert_config.alert_config_strings.is_empty());
    let empty_file = Config::load(Some(&Vec::new()));
    assert!(empty_file.display_config.wanted_coins.is_empty());
}

#[test]
fn settings_file_is_read_line_by_line() {
    let config = Config::load(Some(&lines(&[
        "# a comment: ignored",
        "",
        "what is this",
        "dataProvider: coingecko",
        "alerts.fiatCurrency: usd",
        "display.wantedCoins: BTC,Eth,ltc",
        "wantedCoins: DOGE",
        "alerts.wantedCoins: XRP",
        "display.displayDataViewType: full",
        "display.updatePeriod: 30s",
        "display.checkPeriod: 1s",
        "alerts.checkPeriod: 2m",
        "alerts.generalSleepPeriod: 2h",
        "alerts.watermarkTripSleepEnabled: 1",
        "alerts.watermarkTripSleepPeriod: bogus",
        "coinNameIgnoreItems: USDT/Wormhole,bad,eth/Peg",
        "alerts.coinNameIgnoreItems: ETH/Binance",
        "alerts.provider.pushsafer.privateKey: secret",
        "alerts.provider.pushsafer.enabled: true",
        "alerts.provider.textbelt.phoneNumber: 555",
        "alerts.provider.broken: 1",
        "provider.simplepush.key: k",
        "alerts.newAlert: (btc, >, 50000, print)",
        "alerts.newAlert: (eth, <, 1000, pushsafer)",
    ])));
    assert_eq!(config.display_config.data_provider, "coingecko");
    assert_eq!(config.alert_config.data_provider, "coingecko");
    assert_eq!(config.display_config.fiat_currency, "nzd");
    assert_eq!(config.alert_config.fiat_currency, "usd");
    assert_eq!(config.display_config.wanted_coins, lines(&["btc", "eth", "ltc"]));
    assert_eq!(config.display_config.data_view_type, DisplayDataViewType::FullData);
    assert_eq!(config.display_config.update_period, 30);
    assert_eq!(config.alert_config.check_period, 120);
    assert_eq!(config.alert_config.general_sleep_period, 7200);
    assert!(config.alert_config.watermark_trip_sleep_enabled);
    assert_eq!(config.alert_config.watermark_trip_sleep_period, 21600);
    assert_eq!(config.display_config.coin_name_ignore_items.get("usdt"), Some(&"Wormhole".to_string()));
    assert_eq!(config.display_config.coin_name_ignore_items.get("eth"), Some(&"Peg".to_string()));
    assert_eq!(config.display_config.coin_name_ignore_items.get("bad"), None);
    assert_eq!(config.alert_config.coin_name_ignore_items.get("usdt"), Some(&"Wormhole".to_string()));
    assert_eq!(config.alert_config.coin_name_ignore_items.get("eth"), Some(&"Binance".to_string()));
    assert_eq!(config.alert_config.alert_provider_configs.len(), 2);
    let pushsafer = &config.alert_config.alert_provider_configs[0];
    assert_eq!(pushsafer.name, "pushsafer");
    assert!(pushsafer.enabled);
    assert_eq!(pushsafer.get_param_as_string("privateKey"), Some("secret".to_string()));
    assert_eq!(pushsafer.get_param_as_string("enabled"), None);
    let textbelt = &config.alert_config.alert_provider_configs[1];
    assert_eq!(textbelt.name, "textbelt");
    assert!(!textbelt.enabled);
    assert_eq!(textbelt.get_param_as_string("phoneNumber"), Some("555".to_string()));
    assert_eq!(config.alert_config.alert_config_strings, lines(&["(btc, >, 50000, print)", "(eth, <, 1000, pushsafer)"]));
}

#[test]
fn unknown_view_type_falls_back_to_medium() {
    let mut config = Config::load(Some(&lines(&["display.displayDataViewType: priceOnly"])));
    assert_eq!(config.display_config.data_view_type, DisplayDataViewType::PriceOnly);
    config.apply_line("display.displayDataViewType: everything");
    assert_eq!(config.display_config.data_view_type, DisplayDataViewType::MediumData);
    config.apply_line("display.updatePeriod:  ");
    assert_eq!(config.display_config.update_period, 120);
    config.apply_line("alerts.watermarkTripSleepEnabled: true");
    assert!(config.alert_config.watermark_trip_sleep_enabled);
    config.apply_line("alerts.watermarkTripSleepEnabled: yes");
    assert!(!config.alert_config.watermark_trip_sleep_enabled);
}

#[test]
fn wanted_coins_are_lower_cased_by_unicode_rules() {
    let config = Config::load(Some(&lines(&["display.wantedCoins: ÄBC,xyz"])));
    assert_eq!(config.display_config.wanted_coins, lines(&["äbc", "xyz"]));
}
