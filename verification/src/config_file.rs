//! Reading the settings file, line by line.

use crate::config::{
    convert_time_period_string_to_seconds, get_key_value_parts, key_value_parts,
    time_period_seconds, AlertConfig, AlertProviderConfig, Config, ConfigSubType, DisplayConfig,
    DisplayDataViewType,
};
use crate::text::{
    ascii_lower, chars_of, find_char, find_from, has_prefix, lower_of, same_chars, split_chars,
    same_text, slice_string, split_on, starts_with_chars, string_of, subvec, texts, to_lower,
    to_lowercase_text, unicode_lower,
};
use crate::text_map::TextMap;
use vstd::prelude::*;
use vstd::string::StringExecFns;

verus! {

/// The settings of one channel, with texts as character sequences.
pub struct ProviderConfigView {
    pub name: Seq<char>,
    pub enabled: bool,
    pub params: Map<Seq<char>, Seq<char>>,
}

/// The display settings, with texts as character sequences.
pub struct DisplayConfigView {
    pub data_provider: Seq<char>,
    pub fiat_currency: Seq<char>,
    pub wanted_coins: Seq<Seq<char>>,
    pub coin_name_ignore_items: Map<Seq<char>, Seq<char>>,
    pub update_period: u64,
    pub data_view_type: DisplayDataViewType,
}

/// The alert settings, with texts as character sequences.
pub struct AlertConfigView {
    pub data_provider: Seq<char>,
    pub fiat_currency: Seq<char>,
    pub coin_name_ignore_items: Map<Seq<char>, Seq<char>>,
    pub check_period: u64,
    pub general_sleep_period: u64,
    pub watermark_trip_sleep_enabled: bool,
    pub watermark_trip_sleep_period: u64,
    pub alert_provider_configs: Seq<ProviderConfigView>,
    pub alert_config_strings: Seq<Seq<char>>,
}

/// The settings, with texts as character sequences.
pub struct ConfigView {
    pub display_config: DisplayConfigView,
    pub alert_config: AlertConfigView,
}

/// The views of a list of channel settings.
pub open spec fn provider_views(v: Seq<AlertProviderConfig>) -> Seq<ProviderConfigView> {
    Seq::new(v.len(), |i: int| v[i]@)
}

impl View for AlertProviderConfig {
    type V = ProviderConfigView;

    open spec fn view(&self) -> ProviderConfigView {
        ProviderConfigView { name: self.name@, enabled: self.enabled, params: self.params.as_map() }
    }
}

impl View for DisplayConfig {
    type V = DisplayConfigView;

    open spec fn view(&self) -> DisplayConfigView {
        DisplayConfigView {
            data_provider: self.data_provider@,
            fiat_currency: self.fiat_currency@,
            wanted_coins: texts(self.wanted_coins@),
            coin_name_ignore_items: self.coin_name_ignore_items.as_map(),
            update_period: self.update_period,
            data_view_type: self.data_view_type,
        }
    }
}

impl View for AlertConfig {
    type V = AlertConfigView;

    open spec fn view(&self) -> AlertConfigView {
        AlertConfigView {
            data_provider: self.data_provider@,
            fiat_currency: self.fiat_currency@,
            coin_name_ignore_items: self.coin_name_ignore_items.as_map(),
            check_period: self.check_period,
            general_sleep_period: self.general_sleep_period,
            watermark_trip_sleep_enabled: self.watermark_trip_sleep_enabled,
            watermark_trip_sleep_period: self.watermark_trip_sleep_period,
            alert_provider_configs: provider_views(self.alert_provider_configs@),
            alert_config_strings: texts(self.alert_config_strings@),
        }
    }
}

impl View for Config {
    type V = ConfigView;

    open spec fn view(&self) -> ConfigView {
        ConfigView { display_config: self.display_config@, alert_config: self.alert_config@ }
    }
}

/// The map after the pairs `SYMBOL/TEXT` among `pieces` are stored, each
/// under its symbol in lower case; a piece without a slash is passed over.
pub open spec fn ignore_items_added(
    m: Map<Seq<char>, Seq<char>>,
    pieces: Seq<Seq<char>>,
) -> Map<Seq<char>, Seq<char>>
    decreases pieces.len(),
{
    if pieces.len() == 0 {
        m
    } else {
        let earlier = ignore_items_added(m, pieces.drop_last());
        let piece = pieces.last();
        let slash = find_from(piece, '/', 0);
        if slash >= piece.len() {
            earlier
        } else {
            earlier.insert(
                ascii_lower(piece.subrange(0, slash)),
                piece.subrange(slash + 1, piece.len() as int),
            )
        }
    }
}

/// The period that a settings value asks for, or `current` where it asks
/// for none that can be read.
pub open spec fn period_or(current: u64, val: Seq<char>) -> u64 {
    if val.len() == 0 {
        current
    } else {
        match time_period_seconds(val) {
            Some(seconds) => seconds,
            None => current,
        }
    }
}

/// Whether a settings value switches something on.
pub open spec fn is_true_value(val: Seq<char>) -> bool {
    val == "true"@ || val == "1"@
}

/// The table layout that a settings value names.
pub open spec fn data_view_type_of(val: Seq<char>) -> DisplayDataViewType {
    if val == "priceOnly"@ {
        DisplayDataViewType::PriceOnly
    } else if val == "medium"@ {
        DisplayDataViewType::MediumData
    } else if val == "full"@ {
        DisplayDataViewType::FullData
    } else {
        DisplayDataViewType::MediumData
    }
}

/// The position of the first channel at or after `i` that is called `name`,
/// or the length where there is none.
pub open spec fn view_position_from(
    configs: Seq<ProviderConfigView>,
    name: Seq<char>,
    i: int,
) -> int
    decreases configs.len() - i,
{
    if i < 0 || i >= configs.len() {
        configs.len() as int
    } else if configs[i].name == name {
        i
    } else {
        view_position_from(configs, name, i + 1)
    }
}

/// The channel settings after `PROVIDER.PARAM` is given the value `val`:
/// a channel that is not there yet is added, switched off; `enabled`
/// switches the channel, every other parameter is stored under its name.
pub open spec fn provider_param_set(
    configs: Seq<ProviderConfigView>,
    provider: Seq<char>,
    param: Seq<char>,
    val: Seq<char>,
) -> Seq<ProviderConfigView> {
    let place = view_position_from(configs, provider, 0);
    let base = if place < configs.len() {
        configs
    } else {
        configs.push(ProviderConfigView { name: provider, enabled: false, params: Map::empty() })
    };
    let entry = base[place];
    if param == "enabled"@ {
        base.update(
            place,
            ProviderConfigView { name: entry.name, enabled: is_true_value(val), params: entry.params },
        )
    } else {
        base.update(
            place,
            ProviderConfigView {
                name: entry.name,
                enabled: entry.enabled,
                params: entry.params.insert(param, val),
            },
        )
    }
}

/// The channel settings after a key that begins with `provider.` is given
/// the value `val`; a key without a second dot changes nothing.
pub open spec fn provider_key_applied(
    configs: Seq<ProviderConfigView>,
    key: Seq<char>,
    val: Seq<char>,
) -> Seq<ProviderConfigView> {
    let definition = key.subrange("provider."@.len() as int, key.len() as int);
    let dot = find_from(definition, '.', 0);
    if dot >= definition.len() {
        configs
    } else {
        provider_param_set(
            configs,
            definition.subrange(0, dot),
            definition.subrange(dot + 1, definition.len() as int),
            val,
        )
    }
}

/// The lower-case forms of `pieces`, by the rules of Unicode.
pub open spec fn lowered(pieces: Seq<Seq<char>>) -> Seq<Seq<char>> {
    Seq::new(pieces.len(), |i: int| unicode_lower(pieces[i]))
}

/// The display settings after `key` is given `val` in a section that
/// reaches them.
pub open spec fn display_entry_applied(
    d: DisplayConfigView,
    sub_type: ConfigSubType,
    key: Seq<char>,
    val: Seq<char>,
) -> DisplayConfigView {
    let named = sub_type == ConfigSubType::Display;
    if key == "coinNameIgnoreItems"@ {
        DisplayConfigView {
            coin_name_ignore_items: ignore_items_added(d.coin_name_ignore_items, split_on(val, ',')),
            ..d
        }
    } else if key == "dataProvider"@ {
        DisplayConfigView { data_provider: val, ..d }
    } else if named && key == "wantedCoins"@ {
        DisplayConfigView { wanted_coins: d.wanted_coins + lowered(split_on(val, ',')), ..d }
    } else if key == "fiatCurrency"@ {
        DisplayConfigView { fiat_currency: val, ..d }
    } else if named && key == "displayDataViewType"@ {
        DisplayConfigView { data_view_type: data_view_type_of(val), ..d }
    } else if named && key == "updatePeriod"@ {
        DisplayConfigView { update_period: period_or(d.update_period, val), ..d }
    } else {
        d
    }
}

/// The alert settings after `key` is given `val` in a section that reaches
/// them.
pub open spec fn alert_entry_applied(
    a: AlertConfigView,
    sub_type: ConfigSubType,
    key: Seq<char>,
    val: Seq<char>,
) -> AlertConfigView {
    let named = sub_type == ConfigSubType::Alerts;
    if key == "coinNameIgnoreItems"@ {
        AlertConfigView {
            coin_name_ignore_items: ignore_items_added(a.coin_name_ignore_items, split_on(val, ',')),
            ..a
        }
    } else if key == "dataProvider"@ {
        AlertConfigView { data_provider: val, ..a }
    } else if key == "fiatCurrency"@ {
        AlertConfigView { fiat_currency: val, ..a }
    } else if named && key == "checkPeriod"@ {
        AlertConfigView { check_period: period_or(a.check_period, val), ..a }
    } else if named && key == "generalSleepPeriod"@ {
        AlertConfigView { general_sleep_period: period_or(a.general_sleep_period, val), ..a }
    } else if named && key == "watermarkTripSleepEnabled"@ {
        AlertConfigView { watermark_trip_sleep_enabled: is_true_value(val), ..a }
    } else if named && key == "watermarkTripSleepPeriod"@ {
        AlertConfigView {
            watermark_trip_sleep_period: period_or(a.watermark_trip_sleep_period, val),
            ..a
        }
    } else if named && has_prefix(key, "provider."@) {
        AlertConfigView {
            alert_provider_configs: provider_key_applied(a.alert_provider_configs, key, val),
            ..a
        }
    } else if named && key == "newAlert"@ {
        AlertConfigView { alert_config_strings: a.alert_config_strings.push(val), ..a }
    } else {
        a
    }
}

/// The settings after one line of the file. An empty line, a line that
/// begins with `#` and a line without key and value change nothing. A key
/// without a section reaches both halves of the settings, a key with a
/// section only its own.
pub open spec fn line_applied(c: ConfigView, line: Seq<char>) -> ConfigView {
    if line.len() == 0 || line[0] == '#' {
        c
    } else {
        match key_value_parts(line) {
            None => c,
            Some((sub_type, key, val)) => ConfigView {
                display_config: if sub_type == ConfigSubType::Alerts {
                    c.display_config
                } else {
                    display_entry_applied(c.display_config, sub_type, key, val)
                },
                alert_config: if sub_type == ConfigSubType::Display {
                    c.alert_config
                } else {
                    alert_entry_applied(c.alert_config, sub_type, key, val)
                },
            },
        }
    }
}

/// The settings after the lines of a file, taken in order.
pub open spec fn lines_applied(c: ConfigView, lines: Seq<Seq<char>>) -> ConfigView
    decreases lines.len(),
{
    if lines.len() == 0 {
        c
    } else {
        line_applied(lines_applied(c, lines.drop_last()), lines.last())
    }
}

/// The settings that hold before any line is read.
pub open spec fn default_view() -> ConfigView {
    ConfigView {
        display_config: DisplayConfigView {
            data_provider: "cryptocompare"@,
            fiat_currency: "nzd"@,
            wanted_coins: Seq::empty(),
            coin_name_ignore_items: Map::empty(),
            update_period: 120,
            data_view_type: DisplayDataViewType::MediumData,
        },
        alert_config: AlertConfigView {
            data_provider: "cryptocompare"@,
            fiat_currency: "nzd"@,
            coin_name_ignore_items: Map::empty(),
            check_period: 120,
            general_sleep_period: 3600,
            watermark_trip_sleep_enabled: false,
            watermark_trip_sleep_period: 21600,
            alert_provider_configs: Seq::empty(),
            alert_config_strings: Seq::empty(),
        },
    }
}

/// The settings that hold where there is no file: the defaults, with a
/// short list of coins to show.
pub open spec fn fallback_view() -> ConfigView {
    ConfigView {
        display_config: DisplayConfigView {
            wanted_coins: seq!["BTC"@, "ETH"@, "BTC"@, "LTC"@],
            ..default_view().display_config
        },
        alert_config: default_view().alert_config,
    }
}

fn is_true_text(val: &str) -> (r: bool)
    ensures
        r == is_true_value(val@),
{
    same_text(val, "true") || same_text(val, "1")
}

fn read_period(current: u64, val: &str) -> (r: u64)
    ensures
        r == period_or(current, val@),
{
    let chars = chars_of(val);
    if chars.len() == 0 {
        return current;
    }
    match convert_time_period_string_to_seconds(val) {
        Some(seconds) => seconds,
        None => current,
    }
}

fn read_data_view_type(val: &str) -> (r: DisplayDataViewType)
    ensures
        r == data_view_type_of(val@),
{
    if same_text(val, "priceOnly") {
        DisplayDataViewType::PriceOnly
    } else if same_text(val, "medium") {
        DisplayDataViewType::MediumData
    } else if same_text(val, "full") {
        DisplayDataViewType::FullData
    } else {
        DisplayDataViewType::MediumData
    }
}

fn add_ignore_items(map: &mut TextMap, val: &str)
    requires
        old(map).wf(),
    ensures
        final(map).wf(),
        final(map).as_map() == ignore_items_added(old(map).as_map(), split_on(val@, ',')),
{
    let chars = chars_of(val);
    let pieces = split_chars(&chars, ',');
    let ghost all = split_on(val@, ',');
    let mut i: usize = 0;
    while i < pieces.len()
        invariant
            i <= pieces@.len(),
            pieces@.len() == all.len(),
            forall|k: int| 0 <= k < pieces@.len() ==> (#[trigger] pieces@[k])@ == all[k],
            map.wf(),
            map.as_map() == ignore_items_added(old(map).as_map(), all.take(i as int)),
        decreases pieces@.len() - i,
    {
        let piece = &pieces[i];
        let slash = find_char(piece, '/', 0);
        proof {
            assert(all.take(i + 1).drop_last() == all.take(i as int));
            assert(all.take(i + 1).last() == piece@);
        }
        if slash < piece.len() {
            let symbol = slice_string(piece, 0, slash);
            let ignore_string = slice_string(piece, slash + 1, piece.len());
            map.insert(to_lower(symbol.as_str()), ignore_string);
        }
        i += 1;
    }
    proof {
        assert(all.take(i as int) == all);
    }
}

fn add_wanted_coins(coins: &mut Vec<String>, val: &str)
    ensures
        texts(final(coins)@) == texts(old(coins)@) + lowered(split_on(val@, ',')),
{
    let chars = chars_of(val);
    let pieces = split_chars(&chars, ',');
    let ghost all = split_on(val@, ',');
    let mut i: usize = 0;
    assert(texts(coins@) =~= texts(old(coins)@) + lowered(all.take(0)));
    while i < pieces.len()
        invariant
            i <= pieces@.len(),
            pieces@.len() == all.len(),
            forall|k: int| 0 <= k < pieces@.len() ==> (#[trigger] pieces@[k])@ == all[k],
            texts(coins@) == texts(old(coins)@) + lowered(all.take(i as int)),
        decreases pieces@.len() - i,
    {
        let symbol = string_of(&pieces[i]);
        let ghost before = coins@;
        coins.push(to_lowercase_text(symbol.as_str()));
        proof {
            assert(texts(coins@) =~= texts(before).push(unicode_lower(all[i as int])));
            assert(lowered(all.take(i + 1)) =~= lowered(all.take(i as int)).push(
                unicode_lower(all[i as int]),
            ));
            assert(texts(coins@) =~= texts(old(coins)@) + lowered(all.take(i + 1)));
        }
        i += 1;
    }
    proof {
        assert(all.take(i as int) == all);
    }
}

/// Every channel keeps a well-formed list of parameters.
pub open spec fn providers_wf(configs: Seq<AlertProviderConfig>) -> bool {
    forall|i: int| 0 <= i < configs.len() ==> (#[trigger] configs[i]).params.wf()
}

fn position_of(configs: &Vec<AlertProviderConfig>, name: &str) -> (place: usize)
    ensures
        place == view_position_from(provider_views(configs@), name@, 0),
        place <= configs@.len(),
        place < configs@.len() ==> configs@[place as int].name@ == name@,
{
    let ghost views = provider_views(configs@);
    let mut place: usize = 0;
    while place < configs.len()
        invariant
            place <= configs@.len(),
            views == provider_views(configs@),
            view_position_from(views, name@, 0) == view_position_from(views, name@, place as int),
        decreases configs@.len() - place,
    {
        assert(views[place as int].name == configs@[place as int].name@);
        if same_text(configs[place].name.as_str(), name) {
            return place;
        }
        place += 1;
    }
    place
}

fn apply_provider_key(configs: &mut Vec<AlertProviderConfig>, key: &str, val: &str)
    requires
        providers_wf(old(configs)@),
        has_prefix(key@, "provider."@),
    ensures
        providers_wf(final(configs)@),
        provider_views(final(configs)@) == provider_key_applied(
            provider_views(old(configs)@),
            key@,
            val@,
        ),
{
    let k = chars_of(key);
    let prefix = chars_of("provider.");
    let definition = subvec(&k, prefix.len(), k.len());
    let dot = find_char(&definition, '.', 0);
    if dot >= definition.len() {
        return;
    }
    let provider_name = slice_string(&definition, 0, dot);
    let param_name = slice_string(&definition, dot + 1, definition.len());
    let ghost views = provider_views(configs@);
    let place = position_of(configs, provider_name.as_str());
    if place == configs.len() {
        configs.push(AlertProviderConfig::new(provider_name.as_str(), false));
    }
    let ghost base = provider_views(configs@);
    proof {
        if place == old(configs)@.len() {
            assert(base =~= views.push(
                ProviderConfigView { name: provider_name@, enabled: false, params: Map::empty() },
            ));
        } else {
            assert(base =~= views);
            assert(views[place as int].name == provider_name@);
        }
    }
    let ghost before = configs@;
    if same_text(param_name.as_str(), "enabled") {
        let switched = is_true_text(val);
        configs[place].enabled = switched;
    } else {
        configs[place].params.insert(param_name, val.to_owned());
    }
    proof {
        assert forall|i: int| 0 <= i < configs@.len() implies (#[trigger] configs@[i]).params.wf() by {
            if i != place {
                assert(configs@[i] == before[i]);
            }
        }
        assert(provider_views(configs@) =~= provider_param_set(
            views,
            provider_name@,
            param_name@,
            val@,
        ));
    }
}

fn apply_display_entry(d: &mut DisplayConfig, sub_type: ConfigSubType, key: &str, val: &str)
    requires
        old(d).coin_name_ignore_items.wf(),
    ensures
        final(d).coin_name_ignore_items.wf(),
        final(d)@ == display_entry_applied(old(d)@, sub_type, key@, val@),
{
    let named = matches!(sub_type, ConfigSubType::Display);
    if same_text(key, "coinNameIgnoreItems") {
        add_ignore_items(&mut d.coin_name_ignore_items, val);
    } else if same_text(key, "dataProvider") {
        d.data_provider = val.to_owned();
    } else if named && same_text(key, "wantedCoins") {
        add_wanted_coins(&mut d.wanted_coins, val);
    } else if same_text(key, "fiatCurrency") {
        d.fiat_currency = val.to_owned();
    } else if named && same_text(key, "displayDataViewType") {
        d.data_view_type = read_data_view_type(val);
    } else if named && same_text(key, "updatePeriod") {
        d.update_period = read_period(d.update_period, val);
    }
}

fn apply_alert_entry(a: &mut AlertConfig, sub_type: ConfigSubType, key: &str, val: &str)
    requires
        old(a).coin_name_ignore_items.wf(),
        providers_wf(old(a).alert_provider_configs@),
    ensures
        final(a).coin_name_ignore_items.wf(),
        providers_wf(final(a).alert_provider_configs@),
        final(a)@ == alert_entry_applied(old(a)@, sub_type, key@, val@),
{
    let named = matches!(sub_type, ConfigSubType::Alerts);
    let key_chars = chars_of(key);
    if same_text(key, "coinNameIgnoreItems") {
        add_ignore_items(&mut a.coin_name_ignore_items, val);
    } else if same_text(key, "dataProvider") {
        a.data_provider = val.to_owned();
    } else if same_text(key, "fiatCurrency") {
        a.fiat_currency = val.to_owned();
    } else if named && same_text(key, "checkPeriod") {
        a.check_period = read_period(a.check_period, val);
    } else if named && same_text(key, "generalSleepPeriod") {
        a.general_sleep_period = read_period(a.general_sleep_period, val);
    } else if named && same_text(key, "watermarkTripSleepEnabled") {
        a.watermark_trip_sleep_enabled = is_true_text(val);
    } else if named && same_text(key, "watermarkTripSleepPeriod") {
        a.watermark_trip_sleep_period = read_period(a.watermark_trip_sleep_period, val);
    } else if named && starts_with_chars(&key_chars, &chars_of("provider.")) {
        apply_provider_key(&mut a.alert_provider_configs, key, val);
    } else if named && same_text(key, "newAlert") {
        let ghost before = a.alert_config_strings@;
        a.alert_config_strings.push(val.to_owned());
        assert(texts(a.alert_config_strings@) =~= texts(before).push(val@));
    }
}

impl Config {
    /// The lists of parameters and of ignored names are well formed.
    pub open spec fn wf(&self) -> bool {
        &&& self.display_config.coin_name_ignore_items.wf()
        &&& self.alert_config.coin_name_ignore_items.wf()
        &&& providers_wf(self.alert_config.alert_provider_configs@)
    }

    /// Takes one line of the settings file into the settings.
    pub fn apply_line(&mut self, line: &str)
        requires
            old(self).wf(),
        ensures
            final(self).wf(),
            final(self)@ == line_applied(old(self)@, line@),
    {
        let chars = chars_of(line);
        if chars.len() == 0 || chars[0] == '#' {
            return;
        }
        match get_key_value_parts(line) {
            None => {},
            Some((sub_type, key, val)) => {
                if !matches!(sub_type, ConfigSubType::Alerts) {
                    apply_display_entry(
                        &mut self.display_config,
                        sub_type,
                        key.as_str(),
                        val.as_str(),
                    );
                }
                if !matches!(sub_type, ConfigSubType::Display) {
                    apply_alert_entry(&mut self.alert_config, sub_type, key.as_str(), val.as_str());
                }
            },
        }
    }

    /// Takes the lines of the settings file into the settings, in order.
    pub fn load_config_file(&mut self, lines: &Vec<String>)
        requires
            old(self).wf(),
        ensures
            final(self).wf(),
            final(self)@ == lines_applied(old(self)@, texts(lines@)),
    {
        let ghost all = texts(lines@);
        let mut i: usize = 0;
        assert(all.take(0) =~= Seq::<Seq<char>>::empty());
        while i < lines.len()
            invariant
                i <= lines@.len(),
                all == texts(lines@),
                self.wf(),
                self@ == lines_applied(old(self)@, all.take(i as int)),
            decreases lines@.len() - i,
        {
            proof {
                assert(all.take(i + 1).drop_last() == all.take(i as int));
                assert(all.take(i + 1).last() == lines@[i as int]@);
            }
            self.apply_line(lines[i].as_str());
            i += 1;
        }
        proof {
            assert(all.take(i as int) == all);
        }
    }

    /// The settings that hold before any line is read.
    pub fn defaults() -> (c: Config)
        ensures
            c.wf(),
            c@ == default_view(),
    {
        let c = Config {
            display_config: DisplayConfig {
                data_provider: String::from_str("cryptocompare"),
                fiat_currency: String::from_str("nzd"),
                wanted_coins: Vec::new(),
                coin_name_ignore_items: TextMap::new(),
                update_period: 120,
                data_view_type: DisplayDataViewType::MediumData,
            },
            alert_config: AlertConfig {
                data_provider: String::from_str("cryptocompare"),
                fiat_currency: String::from_str("nzd"),
                coin_name_ignore_items: TextMap::new(),
                check_period: 120,
                general_sleep_period: 3600,
                watermark_trip_sleep_enabled: false,
                watermark_trip_sleep_period: 21600,
                alert_provider_configs: Vec::new(),
                alert_config_strings: Vec::new(),
            },
        };
        assert(texts(c.display_config.wanted_coins@) =~= Seq::<Seq<char>>::empty());
        assert(texts(c.alert_config.alert_config_strings@) =~= Seq::<Seq<char>>::empty());
        assert(provider_views(c.alert_config.alert_provider_configs@) =~= Seq::<
            ProviderConfigView,
        >::empty());
        c
    }

    /// The settings of a run. `lines` are the lines of the settings file,
    /// `None` where there is no file: then the defaults hold, with a short
    /// list of coins to show.
    pub fn load(lines: Option<&Vec<String>>) -> (c: Config)
        ensures
            c.wf(),
            c@ == (match lines {
                Some(l) => lines_applied(default_view(), texts(l@)),
                None => fallback_view(),
            }),
    {
        let mut config = Config::defaults();
        match lines {
            Some(l) => {
                config.load_config_file(l);
            },
            None => {
                config.display_config.wanted_coins.push(String::from_str("BTC"));
                config.display_config.wanted_coins.push(String::from_str("ETH"));
                config.display_config.wanted_coins.push(String::from_str("BTC"));
                config.display_config.wanted_coins.push(String::from_str("LTC"));
                assert(texts(config.display_config.wanted_coins@) =~= seq![
                    "BTC"@,
                    "ETH"@,
                    "BTC"@,
                    "LTC"@,
                ]);
            },
        }
        config
    }
}

} // verus!
