//! The state of one rule and the step that a polling cycle takes on it.

use crate::amount::Amount;
use vstd::prelude::*;

verus! {

/// How the price is held against the threshold.
#[derive(Clone, Copy, Debug, PartialEq, Eq, Structural)]
pub enum AlertTriggerType {
    PriceLessThan,
    PriceLessThanEqualTo,
    PriceGreaterThanEqualTo,
    PriceGreaterThan,
}

/// What a rule does when it notifies.
#[derive(Clone, Debug)]
pub enum AlertAction {
    PrintMessage,
    ShowNotification,
    RunCommand(String),
    RunProvider(String),
}

/// One rule: a coin, a threshold test and an action.
#[derive(Clone, Debug)]
pub struct AlertItem {
    /// Always lower case.
    pub coin_symbol: String,
    pub trigger_type: AlertTriggerType,
    pub trigger_price: Amount,
    pub action: AlertAction,
    /// Position of the channel in the registry; set exactly for `RunProvider`.
    pub alert_provider: Option<usize>,
}

/// A rule together with what the cycles so far have left behind.
/// Instants are milliseconds since the Unix epoch.
#[derive(Clone, Debug)]
pub struct InternalAlertState {
    pub main_alert: AlertItem,
    pub last_price: Amount,
    pub has_triggered: bool,
    /// The price at the most recent notification.
    pub previous_alert_watermark: Option<Amount>,
    pub watermark_trip_sleep_until: Option<i64>,
    pub sleep_until: i64,
}

/// The two quiet periods, in seconds.
#[derive(Clone, Copy, Debug)]
pub struct SleepSettings {
    pub general_sleep_period: u64,
    pub watermark_trip_sleep_enabled: bool,
    pub watermark_trip_sleep_period: u64,
}

/// One notification that a cycle asks for.
#[derive(Clone, Copy, Debug)]
pub struct Dispatch {
    /// Position of the rule in the table.
    pub alert_index: usize,
    /// The price that made the rule notify.
    pub price: Amount,
}

/// The threshold test: the comparison that the rule names, between the
/// price seen and the threshold.
pub open spec fn triggers(
    trigger_type: AlertTriggerType,
    trigger_value: Amount,
    actual_value: Amount,
) -> bool {
    match trigger_type {
        AlertTriggerType::PriceGreaterThan => trigger_value.below(actual_value),
        AlertTriggerType::PriceGreaterThanEqualTo => trigger_value.at_most(actual_value),
        AlertTriggerType::PriceLessThan => actual_value.below(trigger_value),
        AlertTriggerType::PriceLessThanEqualTo => actual_value.at_most(trigger_value),
    }
}

/// The test against the price of the last notification: strictly beyond it,
/// in the direction of the rule.
pub open spec fn triggers_watermark(
    trigger_type: AlertTriggerType,
    watermark_value: Amount,
    actual_value: Amount,
) -> bool {
    match trigger_type {
        AlertTriggerType::PriceGreaterThan | AlertTriggerType::PriceGreaterThanEqualTo => {
            watermark_value.below(actual_value)
        },
        AlertTriggerType::PriceLessThan | AlertTriggerType::PriceLessThanEqualTo => {
            actual_value.below(watermark_value)
        },
    }
}

/// The threshold test of a rule against the price seen.
pub fn should_alert_trigger(
    trigger_type: AlertTriggerType,
    trigger_value: Amount,
    actual_value: Amount,
) -> (r: bool)
    ensures
        r == triggers(trigger_type, trigger_value, actual_value),
{
    match trigger_type {
        AlertTriggerType::PriceGreaterThan => actual_value.greater_than(&trigger_value),
        AlertTriggerType::PriceGreaterThanEqualTo => actual_value.greater_or_equal(&trigger_value),
        AlertTriggerType::PriceLessThan => actual_value.less_than(&trigger_value),
        AlertTriggerType::PriceLessThanEqualTo => actual_value.less_or_equal(&trigger_value),
    }
}

/// The test of the price seen against the price of the last notification.
pub fn should_alert_trigger_watermark(
    trigger_type: AlertTriggerType,
    watermark_value: Amount,
    actual_value: Amount,
) -> (r: bool)
    ensures
        r == triggers_watermark(trigger_type, watermark_value, actual_value),
{
    match trigger_type {
        AlertTriggerType::PriceGreaterThan | AlertTriggerType::PriceGreaterThanEqualTo => {
            actual_value.greater_than(&watermark_value)
        },
        AlertTriggerType::PriceLessThan | AlertTriggerType::PriceLessThanEqualTo => {
            actual_value.less_than(&watermark_value)
        },
    }
}

/// The instant `period` seconds after `now`.
pub open spec fn deadline(now: i64, period: u64) -> int {
    now + period * 1000
}

/// Whether the deadlines that a notification at `now` would set can be held.
pub open spec fn deadlines_fit(now: i64, settings: SleepSettings) -> bool {
    &&& deadline(now, settings.general_sleep_period) <= i64::MAX
    &&& settings.watermark_trip_sleep_enabled ==> deadline(
        now,
        settings.watermark_trip_sleep_period,
    ) <= i64::MAX
}

/// The instant `period` seconds after `now`, where it can be held.
pub fn deadline_after(now: i64, period: u64) -> (r: Option<i64>)
    ensures
        match r {
            Some(d) => d == deadline(now, period),
            None => deadline(now, period) > i64::MAX,
        },
{
    let wide: i128 = (now as i128) + (period as i128) * 1000;
    if wide <= i64::MAX as i128 {
        Some(wide as i64)
    } else {
        None
    }
}

/// Whether `deadlines_fit(now, settings)`.
pub fn check_deadlines(now: i64, settings: &SleepSettings) -> (r: bool)
    ensures
        r == deadlines_fit(now, *settings),
{
    deadline_after(now, settings.general_sleep_period).is_some() && (
    !settings.watermark_trip_sleep_enabled || deadline_after(
        now,
        settings.watermark_trip_sleep_period,
    ).is_some())
}

impl InternalAlertState {
    /// A watermark window always comes with the price it was opened at.
    pub open spec fn wf(&self) -> bool {
        self.watermark_trip_sleep_until is Some ==> self.previous_alert_watermark is Some
    }

    /// The rule has notified before and its general quiet period still runs:
    /// the cycle passes it over.
    pub open spec fn is_quiescent(&self, now: i64) -> bool {
        self.has_triggered && now < self.sleep_until
    }

    /// The watermark window is open and the price has not moved strictly
    /// beyond the price of the last notification.
    pub open spec fn is_watermark_held(
        &self,
        price: Amount,
        now: i64,
        settings: SleepSettings,
    ) -> bool {
        &&& settings.watermark_trip_sleep_enabled
        &&& self.watermark_trip_sleep_until is Some
        &&& now < self.watermark_trip_sleep_until->0
        &&& !triggers_watermark(
            self.main_alert.trigger_type,
            self.previous_alert_watermark->0,
            price,
        )
    }

    /// Whether a cycle at `now` that found the price `found` notifies.
    pub open spec fn notifies(
        &self,
        found: Option<Amount>,
        now: i64,
        settings: SleepSettings,
    ) -> bool {
        &&& !self.is_quiescent(now)
        &&& found is Some
        &&& triggers(self.main_alert.trigger_type, self.main_alert.trigger_price, found->0)
        &&& !(now < self.sleep_until)
        &&& !self.is_watermark_held(found->0, now, settings)
    }

    /// The state that a cycle at `now` leaves, given the price it found.
    pub open spec fn next(
        &self,
        found: Option<Amount>,
        now: i64,
        settings: SleepSettings,
    ) -> InternalAlertState {
        if self.is_quiescent(now) || found is None {
            *self
        } else if self.notifies(found, now, settings) {
            InternalAlertState {
                main_alert: self.main_alert,
                last_price: found->0,
                has_triggered: true,
                previous_alert_watermark: if settings.watermark_trip_sleep_enabled {
                    found
                } else {
                    self.previous_alert_watermark
                },
                watermark_trip_sleep_until: if settings.watermark_trip_sleep_enabled {
                    Some(deadline(now, settings.watermark_trip_sleep_period) as i64)
                } else {
                    self.watermark_trip_sleep_until
                },
                sleep_until: deadline(now, settings.general_sleep_period) as i64,
            }
        } else {
            InternalAlertState {
                main_alert: self.main_alert,
                last_price: found->0,
                has_triggered: self.has_triggered,
                previous_alert_watermark: self.previous_alert_watermark,
                watermark_trip_sleep_until: self.watermark_trip_sleep_until,
                sleep_until: self.sleep_until,
            }
        }
    }

    /// A rule that has seen no cycle yet; it may notify from `now` on.
    pub fn new(main_alert: AlertItem, now: i64) -> (state: InternalAlertState)
        ensures
            state.main_alert == main_alert,
            state.last_price.bits == 0,
            !state.has_triggered,
            state.previous_alert_watermark is None,
            state.watermark_trip_sleep_until is None,
            state.sleep_until == now,
            state.wf(),
    {
        InternalAlertState {
            main_alert,
            last_price: Amount::zero(),
            has_triggered: false,
            previous_alert_watermark: None,
            watermark_trip_sleep_until: None,
            sleep_until: now,
        }
    }

    /// One cycle on this rule. The price is recorded whenever the rule is not
    /// passed over and a price was found; the timers move only when it notifies.
    pub fn evaluate(&mut self, found: Option<Amount>, now: i64, settings: &SleepSettings) -> (notify:
        bool)
        requires
            old(self).wf(),
            deadlines_fit(now, *settings),
        ensures
            *final(self) == old(self).next(found, now, *settings),
            notify == old(self).notifies(found, now, *settings),
            final(self).wf(),
    {
        if self.has_triggered && self.sleep_until > now {
            return false;
        }
        let current_price = match found {
            Some(price) => price,
            None => {
                return false;
            },
        };
        let alert_triggered = should_alert_trigger(
            self.main_alert.trigger_type,
            self.main_alert.trigger_price,
            current_price,
        );
        self.last_price = current_price;
        if !alert_triggered {
            return false;
        }
        let mut should_show_alert = true;
        if now < self.sleep_until {
            should_show_alert = false;
        }
        if should_show_alert && settings.watermark_trip_sleep_enabled {
            if let Some(watermark_sleep_until) = self.watermark_trip_sleep_until {
                if now < watermark_sleep_until {
                    if let Some(prev_watermark_val) = self.previous_alert_watermark {
                        if !should_alert_trigger_watermark(
                            self.main_alert.trigger_type,
                            prev_watermark_val,
                            current_price,
                        ) {
                            should_show_alert = false;
                        }
                    }
                }
            }
        }
        if should_show_alert {
            if let Some(until) = deadline_after(now, settings.general_sleep_period) {
                self.sleep_until = until;
            }
            if settings.watermark_trip_sleep_enabled {
                self.previous_alert_watermark = Some(current_price);
                self.watermark_trip_sleep_until = deadline_after(
                    now,
                    settings.watermark_trip_sleep_period,
                );
            }
            self.has_triggered = true;
        }
        should_show_alert
    }
}

/// At a price equal to the threshold the two non-strict tests hold and the
/// two strict ones do not.
pub proof fn lemma_threshold_at_equality(threshold: Amount, price: Amount)
    requires
        price.same_number(threshold),
    ensures
        triggers(AlertTriggerType::PriceGreaterThanEqualTo, threshold, price),
        triggers(AlertTriggerType::PriceLessThanEqualTo, threshold, price),
        !triggers(AlertTriggerType::PriceGreaterThan, threshold, price),
        !triggers(AlertTriggerType::PriceLessThan, threshold, price),
{
}

/// On numbers each threshold test is the comparison of the two ranks that
/// its name gives; against a pattern that is not a number every test fails.
pub proof fn lemma_threshold_semantics(
    trigger_type: AlertTriggerType,
    threshold: Amount,
    price: Amount,
)
    ensures
        (threshold.is_nan() || price.is_nan()) ==> !triggers(trigger_type, threshold, price),
        (!threshold.is_nan() && !price.is_nan()) ==> triggers(trigger_type, threshold, price) == (
        match trigger_type {
            AlertTriggerType::PriceLessThan => price.rank() < threshold.rank(),
            AlertTriggerType::PriceLessThanEqualTo => price.rank() <= threshold.rank(),
            AlertTriggerType::PriceGreaterThanEqualTo => price.rank() >= threshold.rank(),
            AlertTriggerType::PriceGreaterThan => price.rank() > threshold.rank(),
        }),
{
}

/// The watermark test never holds at a price equal to the price of the last
/// notification, whatever the comparison of the rule.
pub proof fn lemma_watermark_needs_movement(
    trigger_type: AlertTriggerType,
    watermark: Amount,
    price: Amount,
)
    requires
        price.bits == watermark.bits || price.same_number(watermark),
    ensures
        !triggers_watermark(trigger_type, watermark, price),
{
}

/// The watermark test implies movement in the direction of the rule, and is
/// the strict form of the comparison for all four kinds.
pub proof fn lemma_watermark_is_strict(
    trigger_type: AlertTriggerType,
    watermark: Amount,
    price: Amount,
)
    ensures
        triggers_watermark(trigger_type, watermark, price) == (triggers(
            trigger_type,
            watermark,
            price,
        ) && !price.same_number(watermark)),
{
}

/// Before the general deadline a cycle never notifies and never moves the
/// deadline, whatever price it finds.
pub proof fn lemma_quiet_before_deadline(
    state: InternalAlertState,
    found: Option<Amount>,
    now: i64,
    settings: SleepSettings,
)
    requires
        now < state.sleep_until,
    ensures
        !state.notifies(found, now, settings),
        state.next(found, now, settings).sleep_until == state.sleep_until,
        state.next(found, now, settings).has_triggered == state.has_triggered,
        state.next(found, now, settings).previous_alert_watermark
            == state.previous_alert_watermark,
        state.next(found, now, settings).watermark_trip_sleep_until
            == state.watermark_trip_sleep_until,
{
}

/// What one cycle saw for a rule: the price, if one was found, and the instant.
pub struct Observation {
    pub found: Option<Amount>,
    pub now: i64,
}

/// The state after the cycles `observations`, taken in order.
pub open spec fn state_after(
    state: InternalAlertState,
    observations: Seq<Observation>,
    settings: SleepSettings,
) -> InternalAlertState
    decreases observations.len(),
{
    if observations.len() == 0 {
        state
    } else {
        state_after(state, observations.drop_last(), settings).next(
            observations.last().found,
            observations.last().now,
            settings,
        )
    }
}

/// How many of the cycles `observations` notified.
pub open spec fn notifications_during(
    state: InternalAlertState,
    observations: Seq<Observation>,
    settings: SleepSettings,
) -> nat
    decreases observations.len(),
{
    if observations.len() == 0 {
        0
    } else {
        let before = state_after(state, observations.drop_last(), settings);
        let earlier = notifications_during(state, observations.drop_last(), settings);
        if before.notifies(observations.last().found, observations.last().now, settings) {
            earlier + 1
        } else {
            earlier
        }
    }
}

/// However many cycles run before the general deadline, and whatever prices
/// they find, none of them notifies and the deadline stays where it was.
pub proof fn lemma_no_notification_before_deadline(
    state: InternalAlertState,
    observations: Seq<Observation>,
    settings: SleepSettings,
)
    requires
        forall|k: int| 0 <= k < observations.len() ==> observations[k].now < state.sleep_until,
    ensures
        notifications_during(state, observations, settings) == 0,
        state_after(state, observations, settings).sleep_until == state.sleep_until,
    decreases observations.len(),
{
    if observations.len() > 0 {
        let earlier = observations.drop_last();
        lemma_no_notification_before_deadline(state, earlier, settings);
        let before = state_after(state, earlier, settings);
        lemma_quiet_before_deadline(
            before,
            observations.last().found,
            observations.last().now,
            settings,
        );
    }
}

/// A cycle that notifies sets the general deadline one general period after
/// its instant, and marks the rule as having notified.
pub proof fn lemma_notification_arms_deadline(
    state: InternalAlertState,
    found: Option<Amount>,
    now: i64,
    settings: SleepSettings,
)
    requires
        deadlines_fit(now, settings),
        state.notifies(found, now, settings),
    ensures
        state.next(found, now, settings).sleep_until == deadline(
            now,
            settings.general_sleep_period,
        ),
        state.next(found, now, settings).has_triggered,
        state.next(found, now, settings).last_price == found->0,
        settings.watermark_trip_sleep_enabled ==> state.next(
            found,
            now,
            settings,
        ).previous_alert_watermark == found && state.next(
            found,
            now,
            settings,
        ).watermark_trip_sleep_until == Some(
            deadline(now, settings.watermark_trip_sleep_period) as i64,
        ),
{
}

} // verus!
