//! Price-threshold alerting for cryptocurrency feeds: rule parsing, the alert
//! state machine with its two suppression timers, configuration handling and
//! plain-text table layout.

pub mod alert_provider;
pub mod alert_provider_pushsafer;
pub mod alert_provider_simplepush;
pub mod alert_provider_smtp_mail;
pub mod alert_provider_textbelt;
pub mod alert_service;
pub mod alert_state;
pub mod amount;
pub mod cli_table_printer;
pub mod config;
pub mod config_file;
pub mod formatting_helpers;
pub mod price_provider;
pub mod price_provider_coingecko;
pub mod price_provider_coinmarketcap;
pub mod price_provider_cryptocompare;
pub mod price_view_terminal;
pub mod provider_registry;
pub mod rule_parser;
pub mod text;
pub mod text_map;
