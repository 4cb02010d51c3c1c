//! The alert service: the registry of channels, the table of rules and the
//! polling cycle over it.

use crate::alert_state::{
    check_deadlines, deadlines_fit, AlertItem, Dispatch, InternalAlertState, SleepSettings,
};
use crate::amount::Amount;
use crate::config::{AlertConfig, Config};
use crate::price_provider::{CoinPriceItem, GetDataError};
use crate::provider_registry::{
    can_construct, lemma_name_position, name_position_from, ProviderRegistry,
};
use crate::rule_parser::{parse_alert_rule, rule_outcome, AlertItemView, RuleError};
use crate::text::{ascii_lower, ascii_upper, same_text, to_lower, to_upper};
use vstd::prelude::*;
use vstd::string::StringExecFns;

verus! {

/// One rule as it is handed in: its text, and the number that its threshold
/// field reads as, if it reads as one.
pub struct RuleSource {
    pub line: Seq<char>,
    pub threshold: Option<Amount>,
}

/// The rule texts paired with their thresholds; a text without an entry in
/// `thresholds` has none.
pub open spec fn sources_of(lines: Seq<String>, thresholds: Seq<Option<Amount>>) -> Seq<
    RuleSource,
> {
    Seq::new(
        lines.len(),
        |i: int|
            RuleSource {
                line: lines[i]@,
                threshold: if i < thresholds.len() {
                    thresholds[i]
                } else {
                    None
                },
            },
    )
}

/// The rules that `sources` yield, in order; a text that yields none is
/// passed over.
pub open spec fn surviving_rules(sources: Seq<RuleSource>, providers: Seq<Seq<char>>) -> Seq<
    AlertItemView,
>
    decreases sources.len(),
{
    if sources.len() == 0 {
        Seq::empty()
    } else {
        let earlier = surviving_rules(sources.drop_last(), providers);
        match rule_outcome(sources.last().line, sources.last().threshold, providers) {
            Ok(item) => earlier.push(item),
            Err(_) => earlier,
        }
    }
}

/// The rules of two lists of texts, one after the other, are the rules of
/// the first followed by the rules of the second: what one text yields does
/// not depend on the texts around it.
pub proof fn lemma_surviving_rules_concat(
    first: Seq<RuleSource>,
    second: Seq<RuleSource>,
    providers: Seq<Seq<char>>,
)
    ensures
        surviving_rules(first + second, providers) == surviving_rules(first, providers)
            + surviving_rules(second, providers),
    decreases second.len(),
{
    if second.len() == 0 {
        assert(first + second == first);
        assert(surviving_rules(first, providers) + Seq::<AlertItemView>::empty()
            == surviving_rules(first, providers));
    } else {
        lemma_surviving_rules_concat(first, second.drop_last(), providers);
        assert((first + second).drop_last() == first + second.drop_last());
        assert((first + second).last() == second.last());
        let a = surviving_rules(first, providers);
        let b = surviving_rules(second.drop_last(), providers);
        match rule_outcome(second.last().line, second.last().threshold, providers) {
            Ok(item) => {
                assert((a + b).push(item) == a + b.push(item));
            },
            Err(_) => {},
        }
    }
}

/// A text that yields no rule is dropped and nothing else: the rules of
/// the texts before it and after it are read as if it were not there.
pub proof fn lemma_malformed_rule_is_dropped(
    before: Seq<RuleSource>,
    malformed: RuleSource,
    after: Seq<RuleSource>,
    providers: Seq<Seq<char>>,
)
    requires
        rule_outcome(malformed.line, malformed.threshold, providers) is Err,
    ensures
        surviving_rules(before.push(malformed) + after, providers) == surviving_rules(
            before + after,
            providers,
        ),
{
    lemma_surviving_rules_concat(before.push(malformed), after, providers);
    lemma_surviving_rules_concat(before, after, providers);
    assert(before.push(malformed).drop_last() == before);
}

/// The names in the registry after an attempt to register `name`.
pub open spec fn names_after_register(
    names: Seq<Seq<char>>,
    name: Seq<char>,
    config: &AlertConfig,
    smtp_available: bool,
) -> Seq<Seq<char>> {
    if config.has_provider(name) && can_construct(name, &config.provider(name), smtp_available)
        && name_position_from(names, name, 0) >= names.len() {
        names.push(name)
    } else {
        names
    }
}

/// The names in the registry once the service has started: the known
/// channels, as far as they are configured and could be built.
pub open spec fn startup_names(config: &AlertConfig, smtp_available: bool) -> Seq<Seq<char>> {
    let n0 = Seq::<Seq<char>>::empty();
    let n1 = names_after_register(n0, "pushsafer"@, config, smtp_available);
    let n2 = names_after_register(n1, "simplepush"@, config, smtp_available);
    let n3 = names_after_register(n2, "textbelt"@, config, smtp_available);
    names_after_register(n3, "mailSMTP"@, config, smtp_available)
}

/// Whether two symbols name the same coin: they are equal once the case of
/// their ASCII letters is set aside.
pub open spec fn same_symbol(a: Seq<char>, b: Seq<char>) -> bool {
    ascii_lower(a) == ascii_lower(b)
}

/// The first price in `prices`, from position `i` on, of a coin whose symbol
/// is `symbol`, whatever the case of either.
pub open spec fn price_from(symbol: Seq<char>, prices: Seq<CoinPriceItem>, i: int) -> Option<
    Amount,
>
    decreases prices.len() - i,
{
    if i < 0 || i >= prices.len() {
        None
    } else if same_symbol(prices[i].symbol@, symbol) {
        Some(prices[i].current_price)
    } else {
        price_from(symbol, prices, i + 1)
    }
}

/// The lookup finds the first coin of the snapshot that carries the symbol,
/// and finds none exactly where no coin carries it.
pub proof fn lemma_price_is_of_first_match(symbol: Seq<char>, prices: Seq<CoinPriceItem>, i: int)
    requires
        0 <= i <= prices.len(),
    ensures
        price_from(symbol, prices, i) is None <==> forall|k: int|
            i <= k < prices.len() ==> !same_symbol((#[trigger] prices[k]).symbol@, symbol),
        price_from(symbol, prices, i) is Some ==> exists|k: int|
            i <= k < prices.len() && same_symbol((#[trigger] prices[k]).symbol@, symbol)
                && price_from(symbol, prices, i) == Some(prices[k].current_price) && forall|j: int|
                i <= j < k ==> !same_symbol((#[trigger] prices[j]).symbol@, symbol),
    decreases prices.len() - i,
{
    if i < prices.len() {
        if same_symbol(prices[i].symbol@, symbol) {
            assert(same_symbol(prices[i].symbol@, symbol) && price_from(symbol, prices, i) == Some(
                prices[i].current_price,
            ));
        } else {
            lemma_price_is_of_first_match(symbol, prices, i + 1);
            if price_from(symbol, prices, i + 1) is Some {
                let k = choose|k: int|
                    i + 1 <= k < prices.len() && same_symbol((#[trigger] prices[k]).symbol@, symbol)
                        && price_from(symbol, prices, i + 1) == Some(prices[k].current_price)
                        && forall|j: int|
                        i + 1 <= j < k ==> !same_symbol((#[trigger] prices[j]).symbol@, symbol);
                assert forall|j: int| i <= j < k implies !same_symbol(
                    (#[trigger] prices[j]).symbol@,
                    symbol,
                ) by {}
            }
        }
    }
}

/// The price that a snapshot holds for the coin of a rule.
pub open spec fn found_for(state: InternalAlertState, prices: Seq<CoinPriceItem>) -> Option<
    Amount,
> {
    price_from(state.main_alert.coin_symbol@, prices, 0)
}

/// The notifications that one cycle asks for among the first `upto` rules,
/// in table order.
pub open spec fn dispatches_upto(
    items: Seq<InternalAlertState>,
    prices: Seq<CoinPriceItem>,
    now: i64,
    settings: SleepSettings,
    upto: int,
) -> Seq<Dispatch>
    decreases upto,
{
    if upto <= 0 || upto > items.len() {
        Seq::empty()
    } else {
        let earlier = dispatches_upto(items, prices, now, settings, upto - 1);
        let found = found_for(items[upto - 1], prices);
        if items[upto - 1].notifies(found, now, settings) {
            earlier.push(Dispatch { alert_index: (upto - 1) as usize, price: found->0 })
        } else {
            earlier
        }
    }
}

/// The rules among the first `upto` that a cycle at `now` looks up a price
/// for and finds none: those that are not passed over and whose coin the
/// snapshot does not hold. In table order, by position.
pub open spec fn unpriced_upto(
    items: Seq<InternalAlertState>,
    prices: Seq<CoinPriceItem>,
    now: i64,
    upto: int,
) -> Seq<usize>
    decreases upto,
{
    if upto <= 0 || upto > items.len() {
        Seq::empty()
    } else {
        let earlier = unpriced_upto(items, prices, now, upto - 1);
        if !items[upto - 1].is_quiescent(now) && found_for(items[upto - 1], prices) is None {
            earlier.push((upto - 1) as usize)
        } else {
            earlier
        }
    }
}

/// A cycle asks for no notification of a rule whose general deadline has
/// not come, whatever the snapshot holds.
pub proof fn lemma_cycle_is_quiet_before_deadline(
    items: Seq<InternalAlertState>,
    prices: Seq<CoinPriceItem>,
    now: i64,
    settings: SleepSettings,
    upto: int,
    rule: int,
)
    requires
        0 <= rule < items.len(),
        items.len() <= usize::MAX,
        now < items[rule].sleep_until,
    ensures
        forall|k: int|
            0 <= k < dispatches_upto(items, prices, now, settings, upto).len()
                ==> (#[trigger] dispatches_upto(items, prices, now, settings, upto)[k]).alert_index
                != rule,
    decreases upto,
{
    if 0 < upto <= items.len() {
        lemma_cycle_is_quiet_before_deadline(items, prices, now, settings, upto - 1, rule);
        let earlier = dispatches_upto(items, prices, now, settings, upto - 1);
        let all = dispatches_upto(items, prices, now, settings, upto);
        assert forall|k: int| 0 <= k < all.len() implies (#[trigger] all[k]).alert_index
            != rule by {
            if k < earlier.len() {
                assert(all[k] == earlier[k]);
            }
        }
    }
}

/// Every notification of a cycle names a rule of the table, and the price
/// that the snapshot holds for the coin of that rule.
pub proof fn lemma_dispatches_name_rules(
    items: Seq<InternalAlertState>,
    prices: Seq<CoinPriceItem>,
    now: i64,
    settings: SleepSettings,
    upto: int,
)
    requires
        items.len() <= usize::MAX,
    ensures
        forall|k: int|
            0 <= k < dispatches_upto(items, prices, now, settings, upto).len() ==> {
                let d = #[trigger] dispatches_upto(items, prices, now, settings, upto)[k];
                &&& d.alert_index < items.len()
                &&& d.alert_index < upto
                &&& items[d.alert_index as int].notifies(
                    found_for(items[d.alert_index as int], prices),
                    now,
                    settings,
                )
                &&& found_for(items[d.alert_index as int], prices) == Some(d.price)
            },
    decreases upto,
{
    if 0 < upto <= items.len() {
        lemma_dispatches_name_rules(items, prices, now, settings, upto - 1);
    }
}

/// The price that a snapshot holds for the coin `symbol`: that of the first
/// coin with this symbol, whatever the case of either.
pub fn get_price_for_symbol(symbol: &str, prices: &Vec<CoinPriceItem>) -> (r: Option<Amount>)
    ensures
        r == price_from(symbol@, prices@, 0),
{
    let wanted = to_lower(symbol);
    let mut i: usize = 0;
    while i < prices.len()
        invariant
            i <= prices@.len(),
            wanted@ == ascii_lower(symbol@),
            price_from(symbol@, prices@, 0) == price_from(symbol@, prices@, i as int),
        decreases prices@.len() - i,
    {
        let lowered = to_lower(prices[i].symbol.as_str());
        if same_text(lowered.as_str(), wanted.as_str()) {
            return Some(prices[i].current_price);
        }
        i += 1;
    }
    None
}

/// The text of a notification: the symbol in upper case and the price as
/// it was formatted.
pub fn render_alert_message(coin_symbol: &str, formatted_price: &str) -> (r: String)
    ensures
        r@ == "Coin: "@ + ascii_upper(coin_symbol@) + " is at price: "@ + formatted_price@ + "."@,
{
    let upper = to_upper(coin_symbol);
    String::from_str("Coin: ").concat(upper.as_str()).concat(" is at price: ").concat(
        formatted_price,
    ).concat(".")
}

/// Reads the clock with `chrono::Local::now` and gives the instant as
/// `DateTime::timestamp_millis` does, in milliseconds since the Unix epoch.
/// Nothing is claimed of the instant.
#[verifier::external_body]
fn current_instant() -> i64 {
    chrono::Local::now().timestamp_millis()
}

/// How one polling cycle ended.
#[derive(Debug)]
pub enum CycleOutcome {
    /// No snapshot was had; the table was left alone.
    FetchFailed(GetDataError),
    /// The clock gave an instant from which the deadlines cannot be
    /// reckoned; the table was left alone.
    ClockOutOfRange(i64),
    /// The rules were evaluated at `now`; `dispatches` are to be sent, and
    /// for the rules `unpriced` the snapshot held no price.
    Evaluated { now: i64, unpriced: Vec<usize>, dispatches: Vec<Dispatch> },
}

/// The registry of channels and the table of rules, with the periods
/// that the cycle goes by.
pub struct AlertService {
    /// Seconds between two cycles.
    pub check_period: u64,
    pub sleep_settings: SleepSettings,
    pub alert_providers: ProviderRegistry,
    pub alert_items: Vec<InternalAlertState>,
}

/// The quiet periods that `config` asks for.
pub open spec fn settings_of(config: &AlertConfig) -> SleepSettings {
    SleepSettings {
        general_sleep_period: config.general_sleep_period,
        watermark_trip_sleep_enabled: config.watermark_trip_sleep_enabled,
        watermark_trip_sleep_period: config.watermark_trip_sleep_period,
    }
}

/// A rule that sends through a channel points at a registered channel of
/// that name, and no other rule points anywhere.
pub open spec fn is_resolved(item: AlertItemView, providers: Seq<Seq<char>>) -> bool {
    match item.action {
        crate::rule_parser::ActionView::RunProvider(name) => item.alert_provider is Some
            && item.alert_provider->0 < providers.len() && providers[item.alert_provider->0 as int]
            == name,
        _ => item.alert_provider is None,
    }
}

/// Every rule that a text yields is resolved.
pub proof fn lemma_parsed_rule_is_resolved(
    line: Seq<char>,
    threshold: Option<Amount>,
    providers: Seq<Seq<char>>,
)
    requires
        rule_outcome(line, threshold, providers) is Ok,
        providers.len() <= usize::MAX,
    ensures
        is_resolved(rule_outcome(line, threshold, providers)->Ok_0, providers),
{
    let fields = crate::rule_parser::rule_fields(line)->Ok_0;
    lemma_name_position(providers, fields[3], 0);
}

impl AlertService {
    /// The registry and every row of the table are well formed, and every
    /// rule is resolved.
    pub open spec fn wf(&self) -> bool {
        &&& self.alert_providers.wf()
        &&& forall|i: int|
            0 <= i < self.alert_items@.len() ==> (#[trigger] self.alert_items@[i]).wf()
                && is_resolved(self.alert_items@[i].main_alert@, self.alert_providers.names())
    }

    /// Registers the channel called `name` if it is configured and can be
    /// built; says whether it did.
    pub fn register_alert_provider(
        &mut self,
        name: &str,
        config: &AlertConfig,
        smtp_available: bool,
    ) -> (ok: bool)
        requires
            old(self).wf(),
        ensures
            final(self).wf(),
            final(self).alert_items == old(self).alert_items,
            final(self).check_period == old(self).check_period,
            final(self).sleep_settings == old(self).sleep_settings,
            ok == (config.has_provider(name@) && can_construct(
                name@,
                &config.provider(name@),
                smtp_available,
            )),
            final(self).alert_providers.names() == names_after_register(
                old(self).alert_providers.names(),
                name@,
                config,
                smtp_available,
            ),
            !ok ==> final(self).alert_providers.entries@ == old(self).alert_providers.entries@,
            ok ==> final(self).alert_providers.entries@[name_position_from(
                final(self).alert_providers.names(),
                name@,
                0,
            )].handle.built_from(name@, &config.provider(name@)),
            forall|k: int|
                0 <= k < old(self).alert_providers.entries@.len() && old(self).alert_providers.entries@[k].name@ != name@ ==> #[trigger] final(self).alert_providers.entries@[k] == old(self).alert_providers.entries@[k],
            old(self).alert_providers.is_built_from(config) ==> final(self).alert_providers.is_built_from(config),
    {
        let ok = self.alert_providers.register(name, config, smtp_available);
        proof {
            let before = old(self).alert_providers.names();
            let after = self.alert_providers.names();
            assert forall|i: int| 0 <= i < self.alert_items@.len() implies is_resolved(
                (#[trigger] self.alert_items@[i]).main_alert@,
                after,
            ) by {
                let item = self.alert_items@[i].main_alert@;
                assert(is_resolved(old(self).alert_items@[i].main_alert@, before));
                if item.alert_provider is Some && after != before {
                    assert(after[item.alert_provider->0 as int] == before[item.alert_provider->0 as int]);
                }
            }
        }
        ok
    }

    /// Reads the rules of `alert_config`, in order, against the registered
    /// channels. `thresholds[i]` is the number that the threshold field of
    /// rule `i` reads as. Gives `None` where no rule is left.
    pub fn process_alert_config_items(
        &self,
        alert_config: &AlertConfig,
        thresholds: &Vec<Option<Amount>>,
    ) -> (r: Option<Vec<AlertItem>>)
        ensures
            ({
                let survivors = surviving_rules(
                    sources_of(alert_config.alert_config_strings@, thresholds@),
                    self.alert_providers.names(),
                );
                match r {
                    Some(items) => items@.len() > 0 && items@.len() == survivors.len()
                        && forall|k: int|
                        0 <= k < items@.len() ==> (#[trigger] items@[k])@ == survivors[k],
                    None => survivors.len() == 0,
                }
            }),
    {
        let mut alert_items: Vec<AlertItem> = Vec::new();
        let ghost sources = sources_of(alert_config.alert_config_strings@, thresholds@);
        let ghost providers = self.alert_providers.names();
        let mut i: usize = 0;
        while i < alert_config.alert_config_strings.len()
            invariant
                i <= alert_config.alert_config_strings@.len(),
                sources == sources_of(alert_config.alert_config_strings@, thresholds@),
                providers == self.alert_providers.names(),
                alert_items@.len() == surviving_rules(sources.take(i as int), providers).len(),
                forall|k: int|
                    0 <= k < alert_items@.len() ==> (#[trigger] alert_items@[k])@
                        == surviving_rules(sources.take(i as int), providers)[k],
            decreases alert_config.alert_config_strings@.len() - i,
        {
            let threshold = if i < thresholds.len() {
                thresholds[i]
            } else {
                None
            };
            proof {
                assert(sources.take(i + 1).drop_last() == sources.take(i as int));
                assert(sources.take(i + 1).last() == sources[i as int]);
            }
            match parse_alert_rule(
                alert_config.alert_config_strings[i].as_str(),
                threshold,
                &self.alert_providers,
            ) {
                Ok(item) => {
                    alert_items.push(item);
                },
                Err(_) => {},
            }
            i += 1;
        }
        proof {
            assert(sources.take(i as int) == sources);
        }
        if alert_items.len() == 0 {
            None
        } else {
            Some(alert_items)
        }
    }

    /// Whether the service may start at all: a configuration that names the
    /// mail channel cannot be served where that channel is not available.
    pub open spec fn startup_allowed(config: &AlertConfig, smtp_available: bool) -> bool {
        smtp_available || !config.has_provider("mailSMTP"@)
    }

    /// Starts the service at the instant `now`: registers the known
    /// channels, reads the rules and gives every rule that is left a fresh
    /// row. There is no service where the mail channel is configured but
    /// not available, nor where no rule is left.
    pub fn new_at(
        config: &Config,
        thresholds: &Vec<Option<Amount>>,
        smtp_available: bool,
        now: i64,
    ) -> (r: Option<AlertService>)
        ensures
            ({
                let names = startup_names(&config.alert_config, smtp_available);
                let survivors = surviving_rules(
                    sources_of(config.alert_config.alert_config_strings@, thresholds@),
                    names,
                );
                &&& r is Some == (Self::startup_allowed(&config.alert_config, smtp_available)
                    && survivors.len() > 0)
                &&& r is Some ==> {
                    &&& r->0.wf()
                    &&& r->0.alert_providers.names() == names
                    &&& r->0.alert_providers.is_built_from(&config.alert_config)
                    &&& r->0.check_period == config.alert_config.check_period
                    &&& r->0.sleep_settings == settings_of(&config.alert_config)
                    &&& r->0.alert_items@.len() == survivors.len()
                    &&& forall|k: int|
                        0 <= k < survivors.len() ==> {
                            let row = #[trigger] r->0.alert_items@[k];
                            &&& row.main_alert@ == survivors[k]
                            &&& row.last_price.bits == 0
                            &&& !row.has_triggered
                            &&& row.previous_alert_watermark is None
                            &&& row.watermark_trip_sleep_until is None
                            &&& row.sleep_until == now
                        }
                }
            }),
    {
        let alert_config = &config.alert_config;
        let mut service = AlertService {
            check_period: alert_config.check_period,
            sleep_settings: SleepSettings {
                general_sleep_period: alert_config.general_sleep_period,
                watermark_trip_sleep_enabled: alert_config.watermark_trip_sleep_enabled,
                watermark_trip_sleep_period: alert_config.watermark_trip_sleep_period,
            },
            alert_providers: ProviderRegistry::new(),
            alert_items: Vec::new(),
        };
        assert(service.alert_providers.names() =~= Seq::<Seq<char>>::empty());
        service.register_alert_provider("pushsafer", alert_config, smtp_available);
        service.register_alert_provider("simplepush", alert_config, smtp_available);
        service.register_alert_provider("textbelt", alert_config, smtp_available);
        service.register_alert_provider("mailSMTP", alert_config, smtp_available);
        if !smtp_available && alert_config.find_provider("mailSMTP").is_some() {
            return None;
        }
        let alert_items = match service.process_alert_config_items(alert_config, thresholds) {
            Some(items) => items,
            None => {
                return None;
            },
        };
        let ghost names = service.alert_providers.names();
        let ghost sources = sources_of(alert_config.alert_config_strings@, thresholds@);
        let ghost survivors = surviving_rules(sources, names);
        let ghost views = Seq::new(alert_items@.len(), |k: int| alert_items@[k]@);
        proof {
            lemma_survivors_are_resolved(sources, names);
        }
        for alert_item in it: alert_items
            invariant
                service.alert_providers.wf(),
                service.alert_providers.names() == names,
                service.alert_providers.is_built_from(alert_config),
                service.check_period == alert_config.check_period,
                service.sleep_settings == settings_of(alert_config),
                names.len() <= usize::MAX,
                it.seq().len() == survivors.len(),
                forall|k: int| 0 <= k < survivors.len() ==> (#[trigger] it.seq()[k])@ == survivors[k],
                forall|k: int| 0 <= k < survivors.len() ==> is_resolved(survivors[k], names),
                service.alert_items@.len() == it.index(),
                forall|k: int|
                    0 <= k < service.alert_items@.len() ==> {
                        let row = #[trigger] service.alert_items@[k];
                        &&& row.main_alert@ == survivors[k]
                        &&& row.last_price.bits == 0
                        &&& !row.has_triggered
                        &&& row.previous_alert_watermark is None
                        &&& row.watermark_trip_sleep_until is None
                        &&& row.sleep_until == now
                    },
        {
            service.alert_items.push(InternalAlertState::new(alert_item, now));
        }
        Some(service)
    }

    /// Starts the service now; see `new_at`.
    pub fn new(config: &Config, thresholds: &Vec<Option<Amount>>, smtp_available: bool) -> (r:
        Option<AlertService>)
        ensures
            ({
                let names = startup_names(&config.alert_config, smtp_available);
                let survivors = surviving_rules(
                    sources_of(config.alert_config.alert_config_strings@, thresholds@),
                    names,
                );
                &&& r is Some == (Self::startup_allowed(&config.alert_config, smtp_available)
                    && survivors.len() > 0)
                &&& r is Some ==> {
                    &&& r->0.wf()
                    &&& r->0.alert_providers.names() == names
                    &&& r->0.alert_providers.is_built_from(&config.alert_config)
                    &&& r->0.alert_items@.len() == survivors.len()
                    &&& r->0.check_period == config.alert_config.check_period
                    &&& r->0.sleep_settings == settings_of(&config.alert_config)
                    &&& forall|k: int|
                        0 <= k < survivors.len() ==> {
                            let row = #[trigger] r->0.alert_items@[k];
                            &&& row.main_alert@ == survivors[k]
                            &&& row.last_price.bits == 0
                            &&& !row.has_triggered
                            &&& row.previous_alert_watermark is None
                            &&& row.watermark_trip_sleep_until is None
                            &&& row.sleep_until == r->0.alert_items@[0].sleep_until
                        }
                }
            }),
    {
        Self::new_at(config, thresholds, smtp_available, current_instant())
    }

    /// The symbols of the coins that the rules watch, in table order.
    pub fn wanted_coin_symbols(&self) -> (r: Vec<String>)
        ensures
            r@.len() == self.alert_items@.len(),
            forall|k: int|
                0 <= k < r@.len() ==> (#[trigger] r@[k])@ == ascii_lower(
                    self.alert_items@[k].main_alert.coin_symbol@,
                ),
    {
        let mut wanted: Vec<String> = Vec::new();
        let mut i: usize = 0;
        while i < self.alert_items.len()
            invariant
                i <= self.alert_items@.len(),
                wanted@.len() == i,
                forall|k: int|
                    0 <= k < i ==> (#[trigger] wanted@[k])@ == ascii_lower(
                        self.alert_items@[k].main_alert.coin_symbol@,
                    ),
            decreases self.alert_items@.len() - i,
        {
            wanted.push(to_lower(self.alert_items[i].main_alert.coin_symbol.as_str()));
            i += 1;
        }
        wanted
    }

    /// The rules that a cycle at `now` would look up a price for and find
    /// none in `prices`, by position in the table.
    pub fn unpriced_rules(&self, prices: &Vec<CoinPriceItem>, now: i64) -> (unpriced: Vec<usize>)
        ensures
            unpriced@ == unpriced_upto(
                self.alert_items@,
                prices@,
                now,
                self.alert_items@.len() as int,
            ),
    {
        let mut unpriced: Vec<usize> = Vec::new();
        let mut i: usize = 0;
        while i < self.alert_items.len()
            invariant
                i <= self.alert_items@.len(),
                unpriced@ == unpriced_upto(self.alert_items@, prices@, now, i as int),
            decreases self.alert_items@.len() - i,
        {
            let alert = &self.alert_items[i];
            if !(alert.has_triggered && alert.sleep_until > now) {
                if get_price_for_symbol(alert.main_alert.coin_symbol.as_str(), prices).is_none() {
                    unpriced.push(i);
                }
            }
            i += 1;
        }
        unpriced
    }

    /// One cycle over the table with the snapshot `prices`, at the instant
    /// `now`: every rule takes its step against the price of its coin, and
    /// the rules that notify are listed in table order.
    pub fn evaluate_cycle(&mut self, prices: &Vec<CoinPriceItem>, now: i64) -> (dispatches: Vec<
        Dispatch,
    >)
        requires
            old(self).wf(),
            deadlines_fit(now, old(self).sleep_settings),
        ensures
            final(self).wf(),
            final(self).check_period == old(self).check_period,
            final(self).sleep_settings == old(self).sleep_settings,
            final(self).alert_providers == old(self).alert_providers,
            final(self).alert_items@.len() == old(self).alert_items@.len(),
            forall|i: int|
                0 <= i < old(self).alert_items@.len() ==> #[trigger] final(self).alert_items@[i]
                    == old(self).alert_items@[i].next(
                    found_for(old(self).alert_items@[i], prices@),
                    now,
                    old(self).sleep_settings,
                ),
            dispatches@ == dispatches_upto(
                old(self).alert_items@,
                prices@,
                now,
                old(self).sleep_settings,
                old(self).alert_items@.len() as int,
            ),
    {
        let mut dispatches: Vec<Dispatch> = Vec::new();
        let settings = self.sleep_settings;
        let ghost before = self.alert_items@;
        let mut i: usize = 0;
        while i < self.alert_items.len()
            invariant
                i <= before.len(),
                self.alert_items@.len() == before.len(),
                before == old(self).alert_items@,
                settings == old(self).sleep_settings,
                self.sleep_settings == old(self).sleep_settings,
                self.check_period == old(self).check_period,
                self.alert_providers == old(self).alert_providers,
                deadlines_fit(now, settings),
                old(self).wf(),
                forall|k: int|
                    0 <= k < i ==> #[trigger] self.alert_items@[k] == before[k].next(
                        found_for(before[k], prices@),
                        now,
                        settings,
                    ),
                forall|k: int| i <= k < before.len() ==> #[trigger] self.alert_items@[k] == before[k],
                dispatches@ == dispatches_upto(before, prices@, now, settings, i as int),
            decreases before.len() - i,
        {
            assert(before[i as int].wf());
            let found = if self.alert_items[i].has_triggered && self.alert_items[i].sleep_until
                > now {
                None
            } else {
                get_price_for_symbol(self.alert_items[i].main_alert.coin_symbol.as_str(), prices)
            };
            let notify = self.alert_items[i].evaluate(found, now, &settings);
            if notify {
                if let Some(price) = found {
                    dispatches.push(Dispatch { alert_index: i, price });
                }
            }
            i += 1;
        }
        proof {
            assert forall|k: int| 0 <= k < self.alert_items@.len() implies (
            #[trigger] self.alert_items@[k]).wf() && is_resolved(
                self.alert_items@[k].main_alert@,
                self.alert_providers.names(),
            ) by {
                assert(before[k].wf());
                assert(self.alert_items@[k].main_alert == before[k].main_alert);
            }
        }
        dispatches
    }

    /// One polling cycle, from what the fetch of the snapshot gave. A failed
    /// fetch leaves the table alone and asks for nothing. After a fetch that
    /// succeeded the clock is read once, and every rule is evaluated at that
    /// instant.
    pub fn run_cycle(&mut self, fetched: Result<Vec<CoinPriceItem>, GetDataError>) -> (outcome:
        CycleOutcome)
        requires
            old(self).wf(),
        ensures
            final(self).wf(),
            match outcome {
                CycleOutcome::FetchFailed(e) => fetched == Err::<Vec<CoinPriceItem>, GetDataError>(
                    e,
                ) && *final(self) == *old(self),
                CycleOutcome::ClockOutOfRange(now) => fetched is Ok && !deadlines_fit(
                    now,
                    old(self).sleep_settings,
                ) && *final(self) == *old(self),
                CycleOutcome::Evaluated { now, unpriced, dispatches } => {
                    &&& fetched is Ok
                    &&& deadlines_fit(now, old(self).sleep_settings)
                    &&& unpriced@ == unpriced_upto(
                        old(self).alert_items@,
                        fetched->Ok_0@,
                        now,
                        old(self).alert_items@.len() as int,
                    )
                    &&& final(self).check_period == old(self).check_period
                    &&& final(self).sleep_settings == old(self).sleep_settings
                    &&& final(self).alert_providers == old(self).alert_providers
                    &&& final(self).alert_items@.len() == old(self).alert_items@.len()
                    &&& forall|i: int|
                        0 <= i < old(self).alert_items@.len() ==> #[trigger] final(self).alert_items@[i] == old(self).alert_items@[i].next(
                            found_for(old(self).alert_items@[i], fetched->Ok_0@),
                            now,
                            old(self).sleep_settings,
                        )
                    &&& dispatches@ == dispatches_upto(
                        old(self).alert_items@,
                        fetched->Ok_0@,
                        now,
                        old(self).sleep_settings,
                        old(self).alert_items@.len() as int,
                    )
                },
            },
    {
        match fetched {
            Err(e) => CycleOutcome::FetchFailed(e),
            Ok(prices) => {
                let now = current_instant();
                if !check_deadlines(now, &self.sleep_settings) {
                    return CycleOutcome::ClockOutOfRange(now);
                }
                let unpriced = self.unpriced_rules(&prices, now);
                let dispatches = self.evaluate_cycle(&prices, now);
                CycleOutcome::Evaluated { now, unpriced, dispatches }
            },
        }
    }
}

/// Every rule that survives is resolved against the channels it was read with.
pub proof fn lemma_survivors_are_resolved(sources: Seq<RuleSource>, providers: Seq<Seq<char>>)
    requires
        providers.len() <= usize::MAX,
    ensures
        forall|k: int|
            0 <= k < surviving_rules(sources, providers).len() ==> is_resolved(
                #[trigger] surviving_rules(sources, providers)[k],
                providers,
            ),
    decreases sources.len(),
{
    if sources.len() > 0 {
        let earlier = surviving_rules(sources.drop_last(), providers);
        let all = surviving_rules(sources, providers);
        lemma_survivors_are_resolved(sources.drop_last(), providers);
        match rule_outcome(sources.last().line, sources.last().threshold, providers) {
            Ok(item) => {
                lemma_parsed_rule_is_resolved(
                    sources.last().line,
                    sources.last().threshold,
                    providers,
                );
                assert(all == earlier.push(item));
                assert forall|k: int| 0 <= k < all.len() implies is_resolved(
                    #[trigger] all[k],
                    providers,
                ) by {
                    if k < earlier.len() {
                        assert(all[k] == earlier[k]);
                    }
                }
            },
            Err(_) => {
                assert(all == earlier);
            },
        }
    }
}

} // verus!
