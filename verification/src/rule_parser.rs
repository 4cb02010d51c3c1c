//! Reading one rule, written as `(SYMBOL, OPERATOR, THRESHOLD, ACTION)`.

use crate::alert_state::{AlertAction, AlertItem, AlertTriggerType};
use crate::amount::Amount;
use crate::provider_registry::{name_position_from, ProviderRegistry};
use crate::text::{
    ascii_lower, chars_of, contains_char, find_char, find_from, find_last_before, has_prefix,
    lemma_find_from_bounds, lemma_find_last_bounds, rfind_char, same_chars, split_chars, split_on,
    starts_with_chars, string_of, subvec, trim, trimmed,
};
use vstd::prelude::*;

verus! {

/// Why a rule text yields no rule.
#[derive(Clone, Copy, Debug, PartialEq, Eq, Structural)]
pub enum RuleError {
    /// There is no `(`, no `)`, or the last `)` comes before the first `(`.
    MissingParenthesis,
    /// The text between the parentheses does not have four comma-separated fields.
    WrongFieldCount,
    /// The first field is empty.
    EmptySymbol,
    /// The second field is none of `<`, `<=`, `>=`, `>`.
    UnknownOperator,
    /// The third field does not read as a number.
    BadThreshold,
    /// The fourth field names a channel that is not registered.
    UnknownProvider,
}

/// An action, with its texts as character sequences.
pub enum ActionView {
    PrintMessage,
    ShowNotification,
    RunCommand(Seq<char>),
    RunProvider(Seq<char>),
}

/// A rule, with its texts as character sequences.
pub struct AlertItemView {
    pub coin_symbol: Seq<char>,
    pub trigger_type: AlertTriggerType,
    pub trigger_price: Amount,
    pub action: ActionView,
    pub alert_provider: Option<usize>,
}

impl View for AlertAction {
    type V = ActionView;

    open spec fn view(&self) -> ActionView {
        match self {
            AlertAction::PrintMessage => ActionView::PrintMessage,
            AlertAction::ShowNotification => ActionView::ShowNotification,
            AlertAction::RunCommand(c) => ActionView::RunCommand(c@),
            AlertAction::RunProvider(n) => ActionView::RunProvider(n@),
        }
    }
}

impl View for AlertItem {
    type V = AlertItemView;

    open spec fn view(&self) -> AlertItemView {
        AlertItemView {
            coin_symbol: self.coin_symbol@,
            trigger_type: self.trigger_type,
            trigger_price: self.trigger_price,
            action: self.action@,
            alert_provider: self.alert_provider,
        }
    }
}

/// The four fields of a rule text, each without surrounding white space:
/// what stands between the first `(` and the last `)`, split at the commas.
pub open spec fn rule_fields(line: Seq<char>) -> Result<Seq<Seq<char>>, RuleError> {
    let open = find_from(line, '(', 0);
    let close = find_last_before(line, ')', line.len() as int);
    if open >= line.len() || close < 0 || close < open + 1 {
        Err(RuleError::MissingParenthesis)
    } else {
        let parts = split_on(line.subrange(open + 1, close), ',');
        if parts.len() != 4 {
            Err(RuleError::WrongFieldCount)
        } else {
            Ok(seq![trimmed(parts[0]), trimmed(parts[1]), trimmed(parts[2]), trimmed(parts[3])])
        }
    }
}

/// The comparison that an operator field names.
pub open spec fn comparator_of(text: Seq<char>) -> Option<AlertTriggerType> {
    if text == "<"@ {
        Some(AlertTriggerType::PriceLessThan)
    } else if text == "<="@ {
        Some(AlertTriggerType::PriceLessThanEqualTo)
    } else if text == ">"@ {
        Some(AlertTriggerType::PriceGreaterThan)
    } else if text == ">="@ {
        Some(AlertTriggerType::PriceGreaterThanEqualTo)
    } else {
        None
    }
}

/// The action that an action field names. A command carries no text yet;
/// whatever is no other action is the name of a channel.
pub open spec fn action_of(text: Seq<char>) -> ActionView {
    if text == "print"@ {
        ActionView::PrintMessage
    } else if text == "showNotification"@ {
        ActionView::ShowNotification
    } else if has_prefix(text, "runCommand"@) && text.contains(':') {
        ActionView::RunCommand(Seq::empty())
    } else {
        ActionView::RunProvider(text)
    }
}

/// What a rule text yields. `threshold` is the number that the third field
/// reads as, `None` where it reads as none; `providers` are the names of the
/// registered channels. The checks are made in the order of the errors.
pub open spec fn rule_outcome(
    line: Seq<char>,
    threshold: Option<Amount>,
    providers: Seq<Seq<char>>,
) -> Result<AlertItemView, RuleError> {
    match rule_fields(line) {
        Err(e) => Err(e),
        Ok(fields) => {
            if fields[0].len() == 0 {
                Err(RuleError::EmptySymbol)
            } else if comparator_of(fields[1]) is None {
                Err(RuleError::UnknownOperator)
            } else if threshold is None {
                Err(RuleError::BadThreshold)
            } else {
                let action = action_of(fields[3]);
                let place = name_position_from(providers, fields[3], 0);
                if action is RunProvider && place >= providers.len() {
                    Err(RuleError::UnknownProvider)
                } else {
                    Ok(
                        AlertItemView {
                            coin_symbol: ascii_lower(fields[0]),
                            trigger_type: comparator_of(fields[1])->0,
                            trigger_price: threshold->0,
                            action,
                            alert_provider: if action is RunProvider {
                                Some(place as usize)
                            } else {
                                None
                            },
                        },
                    )
                }
            }
        },
    }
}

/// Whether `r` is what the rule text `line` yields: the rule by its view, or
/// the error.
pub open spec fn is_reading_of(
    r: Result<AlertItem, RuleError>,
    line: Seq<char>,
    threshold: Option<Amount>,
    providers: Seq<Seq<char>>,
) -> bool {
    match r {
        Ok(item) => rule_outcome(line, threshold, providers) == Ok::<AlertItemView, RuleError>(
            item@,
        ),
        Err(e) => rule_outcome(line, threshold, providers) == Err::<AlertItemView, RuleError>(e),
    }
}

/// Reading the same text twice, against the same channels, yields the same
/// rule, field by field, or the same error.
pub proof fn lemma_reading_is_repeatable(
    first: Result<AlertItem, RuleError>,
    second: Result<AlertItem, RuleError>,
    line: Seq<char>,
    threshold: Option<Amount>,
    providers: Seq<Seq<char>>,
)
    requires
        is_reading_of(first, line, threshold, providers),
        is_reading_of(second, line, threshold, providers),
    ensures
        match (first, second) {
            (Ok(a), Ok(b)) => a@ == b@,
            (Err(x), Err(y)) => x == y,
            _ => false,
        },
{
}

/// A text without an opening or a closing parenthesis, with another count
/// of fields than four, with an unknown operator or with a threshold that
/// is no number yields no rule, and the error says which of these it was.
pub proof fn lemma_malformed_rule_yields_none(
    line: Seq<char>,
    threshold: Option<Amount>,
    providers: Seq<Seq<char>>,
)
    ensures
        !line.contains('(') ==> rule_outcome(line, threshold, providers) == Err::<
            AlertItemView,
            RuleError,
        >(RuleError::MissingParenthesis),
        !line.contains(')') ==> rule_outcome(line, threshold, providers) == Err::<
            AlertItemView,
            RuleError,
        >(RuleError::MissingParenthesis),
        rule_fields(line) == Err::<Seq<Seq<char>>, RuleError>(RuleError::WrongFieldCount)
            ==> rule_outcome(line, threshold, providers) == Err::<AlertItemView, RuleError>(
            RuleError::WrongFieldCount,
        ),
        (rule_fields(line) is Ok && rule_fields(line)->Ok_0[0].len() > 0 && comparator_of(
            rule_fields(line)->Ok_0[1],
        ) is None) ==> rule_outcome(line, threshold, providers) == Err::<AlertItemView, RuleError>(
            RuleError::UnknownOperator,
        ),
        (rule_fields(line) is Ok && rule_fields(line)->Ok_0[0].len() > 0 && comparator_of(
            rule_fields(line)->Ok_0[1],
        ) is Some && threshold is None) ==> rule_outcome(line, threshold, providers) == Err::<
            AlertItemView,
            RuleError,
        >(RuleError::BadThreshold),
{
    lemma_find_from_bounds(line, '(', 0);
    lemma_find_last_bounds(line, ')', line.len() as int);
    let open = find_from(line, '(', 0);
    let close = find_last_before(line, ')', line.len() as int);
    if open < line.len() {
        assert(line[open] == '(');
    }
    if close >= 0 {
        assert(line[close] == ')');
    }
}

fn fields_of(line: &Vec<char>) -> (r: Result<Vec<Vec<char>>, RuleError>)
    ensures
        match r {
            Ok(fields) => rule_fields(line@) is Ok && fields@.len() == 4 && forall|k: int|
                0 <= k < 4 ==> (#[trigger] fields@[k])@ == rule_fields(line@)->Ok_0[k],
            Err(e) => rule_fields(line@) == Err::<Seq<Seq<char>>, RuleError>(e),
        },
{
    let open = find_char(line, '(', 0);
    let close = match rfind_char(line, ')') {
        Some(c) => c,
        None => {
            return Err(RuleError::MissingParenthesis);
        },
    };
    if open >= line.len() || close < open + 1 {
        return Err(RuleError::MissingParenthesis);
    }
    let inner = subvec(line, open + 1, close);
    let parts = split_chars(&inner, ',');
    if parts.len() != 4 {
        return Err(RuleError::WrongFieldCount);
    }
    let mut fields: Vec<Vec<char>> = Vec::new();
    let mut k: usize = 0;
    while k < 4
        invariant
            k <= 4,
            parts@.len() == 4,
            fields@.len() == k,
            forall|j: int| 0 <= j < k ==> (#[trigger] fields@[j])@ == trimmed(parts@[j]@),
        decreases 4 - k,
    {
        let field = trim(&parts[k]);
        fields.push(field);
        k += 1;
    }
    Ok(fields)
}

/// The four fields of a rule text.
pub fn split_rule_fields(line: &str) -> (r: Result<Vec<String>, RuleError>)
    ensures
        match r {
            Ok(fields) => rule_fields(line@) is Ok && fields@.len() == 4 && forall|k: int|
                0 <= k < 4 ==> (#[trigger] fields@[k])@ == rule_fields(line@)->Ok_0[k],
            Err(e) => rule_fields(line@) == Err::<Seq<Seq<char>>, RuleError>(e),
        },
{
    let chars = chars_of(line);
    match fields_of(&chars) {
        Err(e) => Err(e),
        Ok(fields) => {
            let mut texts: Vec<String> = Vec::new();
            let mut k: usize = 0;
            while k < 4
                invariant
                    k <= 4,
                    fields@.len() == 4,
                    texts@.len() == k,
                    forall|j: int| 0 <= j < k ==> (#[trigger] texts@[j])@ == fields@[j]@,
                decreases 4 - k,
            {
                texts.push(string_of(&fields[k]));
                k += 1;
            }
            Ok(texts)
        },
    }
}

/// The threshold field of a rule text, for whoever reads numbers; `None`
/// where the text does not have its four fields.
pub fn rule_threshold_text(line: &str) -> (r: Option<String>)
    ensures
        match r {
            Some(t) => rule_fields(line@) is Ok && t@ == rule_fields(line@)->Ok_0[2],
            None => rule_fields(line@) is Err,
        },
{
    let chars = chars_of(line);
    match fields_of(&chars) {
        Err(_) => None,
        Ok(fields) => Some(string_of(&fields[2])),
    }
}

/// The comparison that an operator field names.
pub fn parse_comparator(text: &Vec<char>) -> (r: Option<AlertTriggerType>)
    ensures
        r == comparator_of(text@),
{
    if same_chars(text, &chars_of("<")) {
        Some(AlertTriggerType::PriceLessThan)
    } else if same_chars(text, &chars_of("<=")) {
        Some(AlertTriggerType::PriceLessThanEqualTo)
    } else if same_chars(text, &chars_of(">")) {
        Some(AlertTriggerType::PriceGreaterThan)
    } else if same_chars(text, &chars_of(">=")) {
        Some(AlertTriggerType::PriceGreaterThanEqualTo)
    } else {
        None
    }
}

/// The action that an action field names.
pub fn parse_action(text: &Vec<char>) -> (r: AlertAction)
    ensures
        r@ == action_of(text@),
{
    if same_chars(text, &chars_of("print")) {
        AlertAction::PrintMessage
    } else if same_chars(text, &chars_of("showNotification")) {
        AlertAction::ShowNotification
    } else if starts_with_chars(text, &chars_of("runCommand")) && contains_char(text, ':') {
        AlertAction::RunCommand(String::new())
    } else {
        AlertAction::RunProvider(string_of(text))
    }
}

/// Reads one rule. `threshold` is the number that the threshold field reads
/// as, `None` where it reads as none.
pub fn parse_alert_rule(line: &str, threshold: Option<Amount>, registry: &ProviderRegistry) -> (r:
    Result<AlertItem, RuleError>)
    ensures
        is_reading_of(r, line@, threshold, registry.names()),
{
    let chars = chars_of(line);
    let fields = match fields_of(&chars) {
        Ok(fields) => fields,
        Err(e) => {
            return Err(e);
        },
    };
    if fields[0].len() == 0 {
        return Err(RuleError::EmptySymbol);
    }
    let trigger_type = match parse_comparator(&fields[1]) {
        Some(t) => t,
        None => {
            return Err(RuleError::UnknownOperator);
        },
    };
    let trigger_price = match threshold {
        Some(p) => p,
        None => {
            return Err(RuleError::BadThreshold);
        },
    };
    let action = parse_action(&fields[3]);
    let mut alert_provider: Option<usize> = None;
    if let AlertAction::RunProvider(provider_name) = &action {
        match registry.position(provider_name.as_str()) {
            Some(place) => {
                alert_provider = Some(place);
            },
            None => {
                return Err(RuleError::UnknownProvider);
            },
        }
    }
    let symbol = string_of(&fields[0]);
    let coin_symbol = crate::text::to_lower(symbol.as_str());
    Ok(AlertItem { coin_symbol, trigger_type, trigger_price, action, alert_provider })
}

} // verus!
