//! How many decimals a quantity is shown with, and where its thousands
//! separator goes.

use crate::amount::Amount;
use crate::text::{chars_of, find_char, find_from, push_char};
use vstd::prelude::*;

verus! {

/// The bits of the number one.
pub const ONE_BITS: u64 = 0x3FF0_0000_0000_0000;

/// The bits of the number ten.
pub const TEN_BITS: u64 = 0x4024_0000_0000_0000;

/// The bits of the number one thousand.
pub const THOUSAND_BITS: u64 = 0x408F_4000_0000_0000;

/// The decimals for a quantity: two from ten on, three from one on, four
/// below one and for what is not a number.
pub open spec fn precision_of(val: Amount) -> usize {
    if !val.is_nan() && val.magnitude() >= TEN_BITS {
        2
    } else if !val.is_nan() && val.magnitude() >= ONE_BITS {
        3
    } else {
        4
    }
}

/// Whether a quantity is shown with a thousands separator: from one
/// thousand on, in either direction.
pub open spec fn is_separated(val: Amount) -> bool {
    !val.is_nan() && val.magnitude() >= THOUSAND_BITS
}

/// `formatted` with a comma three places before its decimal point.
pub open spec fn with_separator(formatted: Seq<char>) -> Seq<char> {
    let at = find_from(formatted, '.', 0) - 3;
    formatted.subrange(0, at) + seq![','] + formatted.subrange(at, formatted.len() as int)
}

/// The number of decimals to show a quantity with.
pub fn smart_precision(val: &Amount) -> (r: usize)
    ensures
        r == precision_of(*val),
{
    if val.magnitude_at_least(&Amount::from_bits(TEN_BITS)) {
        2
    } else if val.magnitude_at_least(&Amount::from_bits(ONE_BITS)) {
        3
    } else {
        4
    }
}

/// Whether a quantity is shown with a thousands separator.
pub fn needs_thousands_separator(val: &Amount) -> (r: bool)
    ensures
        r == is_separated(*val),
{
    val.magnitude_at_least(&Amount::from_bits(THOUSAND_BITS))
}

/// Puts the thousands separator into a quantity written with a decimal
/// point that has at least three characters before it.
pub fn insert_thousands_separator(formatted: &str) -> (r: String)
    requires
        3 <= find_from(formatted@, '.', 0) < formatted@.len(),
    ensures
        r@ == with_separator(formatted@),
{
    let chars = chars_of(formatted);
    let decimal_place = find_char(&chars, '.', 0);
    let thousands_pos = decimal_place - 3;
    let mut r = String::new();
    let mut i: usize = 0;
    while i < thousands_pos
        invariant
            i <= thousands_pos <= chars@.len(),
            r@ == chars@.subrange(0, i as int),
        decreases thousands_pos - i,
    {
        push_char(&mut r, chars[i]);
        assert(chars@.subrange(0, i as int).push(chars@[i as int]) == chars@.subrange(0, i + 1));
        i += 1;
    }
    push_char(&mut r, ',');
    let ghost head = r@;
    assert(chars@.subrange(thousands_pos as int, thousands_pos as int) =~= Seq::<char>::empty());
    assert(r@ =~= head + chars@.subrange(thousands_pos as int, i as int));
    while i < chars.len()
        invariant
            thousands_pos <= i <= chars@.len(),
            r@ == head + chars@.subrange(thousands_pos as int, i as int),
        decreases chars@.len() - i,
    {
        push_char(&mut r, chars[i]);
        assert(chars@.subrange(thousands_pos as int, i as int).push(chars@[i as int])
            == chars@.subrange(thousands_pos as int, i + 1));
        assert(r@ =~= head + chars@.subrange(thousands_pos as int, i + 1));
        i += 1;
    }
    assert(head =~= chars@.subrange(0, thousands_pos as int) + seq![',']);
    r
}

} // verus!
