//! The settings of a run: what to display, what to watch, how long to stay quiet.

use crate::text::{
    chars_of, find_char, find_from, is_alphabetic, is_alphabetic_char, parse_u64, parsed_u64,
    same_chars, string_of, subvec, trim, trimmed,
};
use crate::text_map::TextMap;
use vstd::prelude::*;

verus! {

/// The section that a settings key belongs to.
#[derive(Clone, Copy, Debug, PartialEq, Eq, Structural)]
pub enum ConfigSubType {
    /// No section was named: the key is meant for both.
    General,
    Display,
    Alerts,
}

/// How many columns the price table shows.
#[derive(Clone, Copy, Debug, PartialEq, Eq, Structural)]
pub enum DisplayDataViewType {
    PriceOnly,
    MediumData,
    FullData,
}

/// The settings, in their two halves.
#[derive(Clone, Debug)]
pub struct Config {
    pub display_config: DisplayConfig,
    pub alert_config: AlertConfig,
}

/// The settings of the terminal view.
#[derive(Clone, Debug)]
pub struct DisplayConfig {
    pub data_provider: String,
    pub fiat_currency: String,
    pub wanted_coins: Vec<String>,
    /// Lower-case symbol to a text that, found in a coin's name, rules the coin out.
    pub coin_name_ignore_items: TextMap,
    /// Seconds between two refreshes of the table.
    pub update_period: u64,
    pub data_view_type: DisplayDataViewType,
}

/// The settings of the alert service.
#[derive(Clone, Debug)]
pub struct AlertConfig {
    pub data_provider: String,
    pub fiat_currency: String,
    /// Lower-case symbol to a text that, found in a coin's name, rules the coin out.
    pub coin_name_ignore_items: TextMap,
    /// Seconds between two checks of the rules.
    pub check_period: u64,
    /// Seconds for which a rule stays quiet after it has notified.
    pub general_sleep_period: u64,
    /// Whether a rule that has notified stays quiet for a second, longer
    /// window unless the price moves further past the price it notified at.
    pub watermark_trip_sleep_enabled: bool,
    /// Seconds of that second window.
    pub watermark_trip_sleep_period: u64,
    /// The configured channels; no name occurs twice.
    pub alert_provider_configs: Vec<AlertProviderConfig>,
    /// The rules as they were written, one text per rule.
    pub alert_config_strings: Vec<String>,
}

/// The settings of one delivery channel.
#[derive(Clone, Debug)]
pub struct AlertProviderConfig {
    pub name: String,
    pub enabled: bool,
    pub params: TextMap,
}

impl AlertProviderConfig {
    pub fn new(name: &str, enabled: bool) -> (c: AlertProviderConfig)
        ensures
            c.name@ == name@,
            c.enabled == enabled,
            c.params.entries@.len() == 0,
            c.params.wf(),
            c.params.as_map() == Map::<Seq<char>, Seq<char>>::empty(),
    {
        AlertProviderConfig { name: name.to_owned(), enabled, params: TextMap::new() }
    }

    /// The parameter stored under `name`, if there is one.
    pub fn get_param_as_string(&self, name: &str) -> (r: Option<String>)
        ensures
            match r {
                Some(v) => self.params.lookup(name@) == Some(v@),
                None => self.params.lookup(name@) is None,
            },
    {
        match self.params.get(name) {
            Some(val) => Some(val.clone()),
            None => None,
        }
    }
}

/// The position of the first channel at or after `i` that is called `name`,
/// or the length where there is none.
pub open spec fn provider_position_from(
    configs: Seq<AlertProviderConfig>,
    name: Seq<char>,
    i: int,
) -> int
    decreases configs.len() - i,
{
    if i < 0 || i >= configs.len() {
        configs.len() as int
    } else if configs[i].name@ == name {
        i
    } else {
        provider_position_from(configs, name, i + 1)
    }
}

impl AlertConfig {
    /// Whether a channel called `name` is configured.
    pub open spec fn has_provider(&self, name: Seq<char>) -> bool {
        provider_position_from(self.alert_provider_configs@, name, 0)
            < self.alert_provider_configs@.len()
    }

    /// The channel called `name`; meaningful where there is one.
    pub open spec fn provider(&self, name: Seq<char>) -> AlertProviderConfig {
        self.alert_provider_configs@[provider_position_from(self.alert_provider_configs@, name, 0)]
    }

    /// The position of the channel called `name`, if it is configured.
    pub fn find_provider(&self, name: &str) -> (r: Option<usize>)
        ensures
            match r {
                Some(p) => p < self.alert_provider_configs@.len() && p == provider_position_from(
                    self.alert_provider_configs@,
                    name@,
                    0,
                ) && self.has_provider(name@) && self.alert_provider_configs@[p as int]
                    == self.provider(name@),
                None => !self.has_provider(name@),
            },
    {
        let mut i: usize = 0;
        while i < self.alert_provider_configs.len()
            invariant
                i <= self.alert_provider_configs@.len(),
                provider_position_from(self.alert_provider_configs@, name@, 0)
                    == provider_position_from(self.alert_provider_configs@, name@, i as int),
            decreases self.alert_provider_configs@.len() - i,
        {
            if crate::text::same_text(self.alert_provider_configs[i].name.as_str(), name) {
                return Some(i);
            }
            i += 1;
        }
        None
    }
}

/// The section, the key and the value of a settings line `KEY: VALUE`,
/// where the key may carry a section in front, as in `alerts.KEY`. The line
/// is cut at its first colon; there are no parts where there is no colon,
/// or nothing on one side of it. Whatever stands before the first dot of the
/// key is taken off it, and names the section if it is `display` or `alerts`.
pub open spec fn key_value_parts(line: Seq<char>) -> Option<(ConfigSubType, Seq<char>, Seq<char>)> {
    let colon = find_from(line, ':', 0);
    if colon >= line.len() || colon == 0 || colon + 1 >= line.len() {
        None
    } else {
        let key = line.subrange(0, colon);
        let val = line.subrange(colon + 1, line.len() as int);
        let dot = find_from(key, '.', 0);
        if dot >= key.len() {
            Some((ConfigSubType::General, trimmed(key), trimmed(val)))
        } else {
            let left = key.subrange(0, dot);
            let right = key.subrange(dot + 1, key.len() as int);
            let sub_type = if left == "display"@ {
                ConfigSubType::Display
            } else if left == "alerts"@ {
                ConfigSubType::Alerts
            } else {
                ConfigSubType::General
            };
            Some((sub_type, trimmed(right), trimmed(val)))
        }
    }
}

/// The section, the key and the value of a settings line.
pub fn get_key_value_parts(str_val: &str) -> (r: Option<(ConfigSubType, String, String)>)
    ensures
        match r {
            Some((sub_type, key, val)) => key_value_parts(str_val@) == Some(
                (sub_type, key@, val@),
            ),
            None => key_value_parts(str_val@) is None,
        },
{
    let line = chars_of(str_val);
    let colon = find_char(&line, ':', 0);
    if colon >= line.len() || colon == 0 || colon + 1 >= line.len() {
        return None;
    }
    let key = subvec(&line, 0, colon);
    let val = subvec(&line, colon + 1, line.len());
    let dot = find_char(&key, '.', 0);
    if dot >= key.len() {
        return Some(
            (ConfigSubType::General, string_of(&trim(&key)), string_of(&trim(&val))),
        );
    }
    let left = subvec(&key, 0, dot);
    let right = subvec(&key, dot + 1, key.len());
    let sub_type = if same_chars(&left, &chars_of("display")) {
        ConfigSubType::Display
    } else if same_chars(&left, &chars_of("alerts")) {
        ConfigSubType::Alerts
    } else {
        ConfigSubType::General
    };
    Some((sub_type, string_of(&trim(&right)), string_of(&trim(&val))))
}

/// The seconds in one unit of a time period that ends in `last`: `s` for
/// seconds, `h` for hours, minutes for everything else.
pub open spec fn seconds_per_unit(last: char) -> u64 {
    if last == 's' {
        1
    } else if last == 'h' {
        3600
    } else {
        60
    }
}

/// The seconds that a time period such as `90s`, `5m`, `6h` or `15` spells,
/// given whether its last character is a unit. A unit is taken off the
/// number; the last character says which unit it is either way. There is no
/// period where what is left is no unsigned number, or where the seconds do
/// not fit.
pub open spec fn time_period_with_unit(text: Seq<char>, has_unit: bool) -> Option<u64> {
    let last = text.last();
    let number = if has_unit {
        text.drop_last()
    } else {
        text
    };
    match parsed_u64(number) {
        None => None,
        Some(n) => if n * seconds_per_unit(last) > u64::MAX {
            None
        } else {
            Some((n * seconds_per_unit(last)) as u64)
        },
    }
}

/// The seconds that a time period spells: its last character is a unit
/// where it is alphabetic.
pub open spec fn time_period_seconds(text: Seq<char>) -> Option<u64> {
    time_period_with_unit(text, is_alphabetic_char(text.last()))
}

/// The seconds that a time period spells, given whether its last character
/// is a unit.
pub fn read_time_period(str_val: &str, has_unit: bool) -> (r: Option<u64>)
    requires
        str_val@.len() > 0,
    ensures
        r == time_period_with_unit(str_val@, has_unit),
{
    let text = chars_of(str_val);
    let last_char = text[text.len() - 1];
    let mult_to_seconds: u64 = if last_char == 's' {
        1
    } else if last_char == 'h' {
        60 * 60
    } else {
        60
    };
    let number = if has_unit {
        subvec(&text, 0, text.len() - 1)
    } else {
        subvec(&text, 0, text.len())
    };
    assert(text@.subrange(0, text@.len() as int) == text@);
    assert(text@.subrange(0, text@.len() - 1) == text@.drop_last());
    match parse_u64(&number) {
        None => None,
        Some(n) => n.checked_mul(mult_to_seconds),
    }
}

/// The seconds that a time period spells.
pub fn convert_time_period_string_to_seconds(str_val: &str) -> (r: Option<u64>)
    requires
        str_val@.len() > 0,
    ensures
        r == time_period_seconds(str_val@),
{
    let text = chars_of(str_val);
    let has_unit = is_alphabetic(text[text.len() - 1]);
    read_time_period(str_val, has_unit)
}

} // verus!
