use cryptmon::alert_service::AlertService;
use cryptmon::alert_state::{check_deadlines, deadline_after, AlertItem, AlertAction, AlertTriggerType, InternalAlertState, SleepSettings};
use cryptmon::amount::Amount;
use cryptmon::cli_table_printer::Alignment;
use cryptmon::config::{Config, DisplayDataViewType};
use cryptmon::price_provider::ConfigDetails;
use cryptmon::price_view_terminal::{CoinRowTexts, PriceViewTerminal, WatermarkTexts};
use cryptmon::rule_parser::rule_threshold_text;

fn amt(v: f64) -> Amount {
    Amount::from_bits(v.to_bits())
}

fn lines(text: &[&str]) -> Vec<String> {
    text.iter().map(|l| l.to_string()).collect()
}

fn thresholds(config: &Config) -> Vec<Option<Amount>> {
    config
        .alert_config
        .alert_config_strings
        .iter()
        .map(|l| rule_threshold_text(l).and_then(|t| t.parse::<f64>().ok()).map(amt))
        .collect()
}

fn row() -> CoinRowTexts {
    CoinRowTexts {
        symbol: "BTC".to_string(),
        name: "Bitcoin".to_string(),
        current_price: "51,000.00".to_string(),
        price_change_24h: "120.50".to_string(),
        percent_change_1h: Some("0.10%".to_string()),
        percent_change_24h: "2.41%".to_string(),
        watermarks_24h: Some(WatermarkTexts { low: "50,100.00".to_string(), high: "51,900.00".to_string() }),
    }
}

fn rule(kind: AlertTriggerType, threshold: f64) -> AlertItem {
    AlertItem {
        coin_symbol: "btc".to_string(),
        trigger_type: kind,
        trigger_price: amt(threshold),
        action: AlertAction::PrintMessage,
        alert_provider: None,
    }
}

#[test]
fn medium_view_has_the_columns_the_feed_can_fill() {
    let config = Config::load(Some(&lines(&["fiatCurrency: usd"])));
    let mut view = PriceViewTerminal::new(&config, ConfigDetails::new());
    view.configure_table();
    assert_eq!(view.table_headings, lines(&["Sym", "Name", "Price (USD)"]));
    assert_eq!(
        view.table_def.column_titles,
        lines(&["Sym", "Name", "Price (USD)", "chng 24h", "% chng 24h", "low 24h", "high 24h"])
    );
    assert_eq!(view.table_def.num_columns, 7);
    assert!(view.table_def.draw_titles);
    let alignments: Vec<Alignment> = view.table_def.column_properties.iter().map(|p| p.text_alignment).collect();
    assert_eq!(
        alignments,
        vec![
            Alignment::Left,
            Alignment::Left,
            Alignment::Right,
            Alignment::Right,
            Alignment::Right,
            Alignment::Right,
            Alignment::Right
        ]
    );
    assert_eq!(
        view.row_strings(&row()),
        lines(&["BTC", "Bitcoin", "51,000.00", "120.50", "2.41%", "50,100.00", "51,900.00"])
    );
    let mut without = row();
    without.watermarks_24h = None;
    assert_eq!(view.row_strings(&without), lines(&["BTC", "Bitcoin", "51,000.00", "120.50", "2.41%"]));
}

#[test]
fn columns_follow_what_the_feed_knows() {
    let config = Config::load(Some(&Vec::new()));
    let mut details = ConfigDetails::new();
    details.have_percent_change_1h = true;
    details.have_price_change_24h = false;
    details.have_watermarks_24h = false;
    let mut view = PriceViewTerminal::new(&config, details);
    view.configure_table();
    assert_eq!(view.table_def.column_titles, lines(&["Sym", "Name", "Price (NZD)", "% chng 1h", "% chng 24h"]));
    assert_eq!(view.row_strings(&row()), lines(&["BTC", "Bitcoin", "51,000.00", "0.10%", "2.41%"]));
    let mut without = row();
    without.percent_change_1h = None;
    assert_eq!(view.row_strings(&without), lines(&["BTC", "Bitcoin", "51,000.00", "2.41%"]));
}

#[test]
fn other_views_show_three_columns() {
    for kind in ["priceOnly", "full"] {
        let config = Config::load(Some(&vec![format!("display.displayDataViewType: {}", kind)]));
        assert!(config.display_config.data_view_type != DisplayDataViewType::MediumData);
        let mut view = PriceViewTerminal::new(&config, ConfigDetails::new());
        view.configure_table();
        assert_eq!(view.table_def.column_titles, lines(&["Sym", "Name", "Price (NZD)"]));
        assert_eq!(view.row_strings(&row()), lines(&["BTC", "Bitcoin", "51,000.00"]));
        let mut table = view.table_def.clone();
        table.add_row_strings(&["BTC", "Bitcoin", "51,000.00"]);
        assert_eq!(
            table.get_result(),
            format!("Sym  Name     Price (NZD)\n{}\nBTC  Bitcoin    51,000.00\n", "-".repeat(25))
        );
    }
}

#[test]
fn service_starts_at_the_clock() {
    let config = Config::load(Some(&lines(&[
        "alerts.checkPeriod: 30s",
        "alerts.generalSleepPeriod: 10m",
        "alerts.newAlert: (btc, >, 50000, print)",
        "alerts.newAlert: (eth, <, 1000, print)",
    ])));
    let service = AlertService::new(&config, &thresholds(&config), false).unwrap();
    assert_eq!(service.check_period, 30);
    assert_eq!(service.sleep_settings.general_sleep_period, 600);
    assert!(!service.sleep_settings.watermark_trip_sleep_enabled);
    assert_eq!(service.sleep_settings.watermark_trip_sleep_period, 21600);
    assert_eq!(service.alert_items.len(), 2);
    assert!(service.alert_items[0].sleep_until > 1_500_000_000_000);
    assert_eq!(service.alert_items[0].sleep_until, service.alert_items[1].sleep_until);
    assert!(!service.alert_items[1].has_triggered);
}

#[test]
fn channels_register_by_name() {
    let config = Config::load(Some(&lines(&[
        "alerts.provider.textbelt.phoneNumber: 555",
        "alerts.provider.pushsafer.privateKey: only half",
        "alerts.newAlert: (btc, >, 50000, textbelt)",
        "alerts.newAlert: (btc, >, 60000, pushsafer)",
        "alerts.newAlert: (btc, >, 70000, print)",
    ])));
    let t = thresholds(&config);
    let mut service = AlertService::new_at(&config, &t, false, 9).unwrap();
    assert_eq!(service.alert_providers.entries.len(), 1);
    assert_eq!(service.alert_providers.entries[0].name, "textbelt");
    assert!(service.register_alert_provider("textbelt", &config.alert_config, false));
    assert!(!service.register_alert_provider("pushsafer", &config.alert_config, false));
    assert!(!service.register_alert_provider("simplepush", &config.alert_config, false));
    assert_eq!(service.alert_providers.entries.len(), 1);
    let items = service.process_alert_config_items(&config.alert_config, &t).unwrap();
    assert_eq!(items.len(), 2);
    assert_eq!(items[0].alert_provider, Some(0));
    assert_eq!(items[0].trigger_price.to_bits(), 50000.0f64.to_bits());
    assert_eq!(items[1].alert_provider, None);
    assert_eq!(items[1].trigger_price.to_bits(), 70000.0f64.to_bits());
    assert!(service.process_alert_config_items(&config.alert_config, &Vec::new()).is_none());
}

#[test]
fn deadlines_are_in_milliseconds() {
    assert_eq!(deadline_after(1_000, 3600), Some(3_601_000));
    assert_eq!(deadline_after(-5_000, 1), Some(-4_000));
    assert_eq!(deadline_after(0, 0), Some(0));
    assert_eq!(deadline_after(i64::MAX - 999, 1), None);
    assert_eq!(deadline_after(i64::MAX - 1000, 1), Some(i64::MAX));
    assert_eq!(deadline_after(0, u64::MAX), None);
    let wide = SleepSettings {
        general_sleep_period: 10,
        watermark_trip_sleep_enabled: false,
        watermark_trip_sleep_period: u64::MAX,
    };
    assert!(check_deadlines(0, &wide));
    assert!(!check_deadlines(i64::MAX, &wide));
    let enabled = SleepSettings { watermark_trip_sleep_enabled: true, ..wide };
    assert!(!check_deadlines(0, &enabled));
}

#[test]
fn one_rule_step_by_step() {
    let settings = SleepSettings {
        general_sleep_period: 60,
        watermark_trip_sleep_enabled: true,
        watermark_trip_sleep_period: 600,
    };
    let mut state = InternalAlertState::new(rule(AlertTriggerType::PriceLessThanEqualTo, 100.0), 0);
    // no price: nothing happens
    assert!(!state.evaluate(None, 10, &settings));
    assert_eq!(state.last_price.to_bits(), 0);
    // a price that does not pass the test is only recorded
    assert!(!state.evaluate(Some(amt(100.5)), 20, &settings));
    assert_eq!(state.last_price.to_bits(), 100.5f64.to_bits());
    assert!(!state.has_triggered);
    assert_eq!(state.sleep_until, 0);
    // equality passes a non-strict test
    assert!(state.evaluate(Some(amt(100.0)), 30, &settings));
    assert!(state.has_triggered);
    assert_eq!(state.sleep_until, 60_030);
    assert_eq!(state.watermark_trip_sleep_until, Some(600_030));
    assert_eq!(state.previous_alert_watermark.map(|a| a.to_bits()), Some(100.0f64.to_bits()));
    // while the rule is quiet even the price is not recorded
    assert!(!state.evaluate(Some(amt(50.0)), 60_029, &settings));
    assert_eq!(state.last_price.to_bits(), 100.0f64.to_bits());
    // at the deadline the watermark decides: equal is held back, lower goes out
    assert!(!state.evaluate(Some(amt(100.0)), 60_030, &settings));
    assert!(state.evaluate(Some(amt(99.0)), 60_031, &settings));
    assert_eq!(state.sleep_until, 120_031);
    assert_eq!(state.previous_alert_watermark.map(|a| a.to_bits()), Some(99.0f64.to_bits()));
    // with the watermark window switched off only the general window counts
    let plain = SleepSettings { watermark_trip_sleep_enabled: false, ..settings };
    assert!(state.evaluate(Some(amt(99.0)), 120_031, &plain));
    assert_eq!(state.previous_alert_watermark.map(|a| a.to_bits()), Some(99.0f64.to_bits()));
    assert_eq!(state.watermark_trip_sleep_until, Some(660_031));
}
