//! Character-level helpers shared by the parsers and the table layout.

use vstd::prelude::*;
use vstd::string::StringExecFns;

verus! {

/// Lower-case form of an ASCII letter; every other character is left alone.
pub open spec fn lower_char(c: char) -> char {
    if 'A' <= c && c <= 'Z' {
        ((c as u8) + 32) as char
    } else {
        c
    }
}

/// Upper-case form of an ASCII letter; every other character is left alone.
pub open spec fn upper_char(c: char) -> char {
    if 'a' <= c && c <= 'z' {
        ((c as u8) - 32) as char
    } else {
        c
    }
}

/// `s` with every ASCII upper-case letter in lower case.
pub open spec fn ascii_lower(s: Seq<char>) -> Seq<char> {
    Seq::new(s.len(), |i: int| lower_char(s[i]))
}

/// `s` with every ASCII lower-case letter in upper case.
pub open spec fn ascii_upper(s: Seq<char>) -> Seq<char> {
    Seq::new(s.len(), |i: int| upper_char(s[i]))
}

/// The lower-case form of an ASCII letter; any other character as it is.
pub fn lower_of(c: char) -> (r: char)
    ensures
        r == lower_char(c),
{
    if 'A' <= c && c <= 'Z' {
        ((c as u8) + 32) as char
    } else {
        c
    }
}

/// The upper-case form of an ASCII letter; any other character as it is.
pub fn upper_of(c: char) -> (r: char)
    ensures
        r == upper_char(c),
{
    if 'a' <= c && c <= 'z' {
        ((c as u8) - 32) as char
    } else {
        c
    }
}

/// The characters of `s`, in order.
pub fn chars_of(s: &str) -> (v: Vec<char>)
    ensures
        v@ == s@,
{
    let mut v: Vec<char> = Vec::new();
    for c in it: s.chars()
        invariant
            it.seq() == s@,
            v@ == it.seq().take(it.index() as int),
    {
        v.push(c);
    }
    v
}

/// Appends one character with `String::push`: the text afterwards is the
/// text before followed by `c`.
#[verifier::external_body]
pub(crate) fn push_char(s: &mut String, c: char)
    ensures
        final(s)@ == old(s)@.push(c),
{
    s.push(c);
}

/// The text made of `v[from..to]`.
pub fn slice_string(v: &Vec<char>, from: usize, to: usize) -> (s: String)
    requires
        from <= to <= v.len(),
    ensures
        s@ == v@.subrange(from as int, to as int),
{
    let mut s = String::new();
    let mut i: usize = from;
    while i < to
        invariant
            from <= i <= to <= v.len(),
            s@ == v@.subrange(from as int, i as int),
        decreases to - i,
    {
        push_char(&mut s, v[i]);
        assert(v@.subrange(from as int, i as int).push(v@[i as int]) == v@.subrange(
            from as int,
            i + 1,
        ));
        i += 1;
    }
    s
}

/// The text made of the characters of `v`.
pub fn string_of(v: &Vec<char>) -> (s: String)
    ensures
        s@ == v@,
{
    let s = slice_string(v, 0, v.len());
    assert(v@.subrange(0, v.len() as int) == v@);
    s
}

/// A copy of `v[from..to]`.
pub fn subvec(v: &Vec<char>, from: usize, to: usize) -> (r: Vec<char>)
    requires
        from <= to <= v.len(),
    ensures
        r@ == v@.subrange(from as int, to as int),
{
    let mut r: Vec<char> = Vec::new();
    let mut i: usize = from;
    while i < to
        invariant
            from <= i <= to <= v.len(),
            r@ == v@.subrange(from as int, i as int),
        decreases to - i,
    {
        r.push(v[i]);
        assert(v@.subrange(from as int, i as int).push(v@[i as int]) == v@.subrange(
            from as int,
            i + 1,
        ));
        i += 1;
    }
    r
}

/// `s` with every ASCII upper-case letter replaced by its lower-case form.
pub fn to_lower(s: &str) -> (r: String)
    ensures
        r@ == ascii_lower(s@),
{
    let v = chars_of(s);
    let mut r = String::new();
    let mut i: usize = 0;
    while i < v.len()
        invariant
            i <= v.len(),
            v@ == s@,
            r@ == ascii_lower(s@).take(i as int),
        decreases v.len() - i,
    {
        push_char(&mut r, lower_of(v[i]));
        assert(ascii_lower(s@).take(i as int).push(lower_char(v@[i as int])) == ascii_lower(
            s@,
        ).take(i + 1));
        i += 1;
    }
    assert(ascii_lower(s@).take(v.len() as int) == ascii_lower(s@));
    r
}

/// `s` with every ASCII lower-case letter replaced by its upper-case form.
pub fn to_upper(s: &str) -> (r: String)
    ensures
        r@ == ascii_upper(s@),
{
    let v = chars_of(s);
    let mut r = String::new();
    let mut i: usize = 0;
    while i < v.len()
        invariant
            i <= v.len(),
            v@ == s@,
            r@ == ascii_upper(s@).take(i as int),
        decreases v.len() - i,
    {
        push_char(&mut r, upper_of(v[i]));
        assert(ascii_upper(s@).take(i as int).push(upper_char(v@[i as int])) == ascii_upper(
            s@,
        ).take(i + 1));
        i += 1;
    }
    assert(ascii_upper(s@).take(v.len() as int) == ascii_upper(s@));
    r
}

/// Whether two character vectors hold the same text.
pub fn same_chars(a: &Vec<char>, b: &Vec<char>) -> (r: bool)
    ensures
        r == (a@ == b@),
{
    if a.len() != b.len() {
        return false;
    }
    let mut i: usize = 0;
    while i < a.len()
        invariant
            i <= a.len(),
            a.len() == b.len(),
            a@.take(i as int) == b@.take(i as int),
        decreases a.len() - i,
    {
        if a[i] != b[i] {
            return false;
        }
        assert(a@.take(i + 1) == a@.take(i as int).push(a@[i as int]));
        assert(b@.take(i + 1) == b@.take(i as int).push(b@[i as int]));
        i += 1;
    }
    assert(a@.take(a.len() as int) == a@);
    assert(b@.take(b.len() as int) == b@);
    true
}

/// Whether two string slices hold the same text.
pub fn same_text(a: &str, b: &str) -> (r: bool)
    ensures
        r == (a@ == b@),
{
    let x = chars_of(a);
    let y = chars_of(b);
    same_chars(&x, &y)
}

/// The characters that trimming removes: the Unicode white space.
pub open spec fn is_space(c: char) -> bool {
    ('\u{9}' <= c && c <= '\u{d}') || c == ' ' || c == '\u{85}' || c == '\u{a0}' || c
        == '\u{1680}' || ('\u{2000}' <= c && c <= '\u{200a}') || c == '\u{2028}' || c
        == '\u{2029}' || c == '\u{202f}' || c == '\u{205f}' || c == '\u{3000}'
}

/// Whether trimming removes `c`.
pub fn is_space_char(c: char) -> (r: bool)
    ensures
        r == is_space(c),
{
    ('\u{9}' <= c && c <= '\u{d}') || c == ' ' || c == '\u{85}' || c == '\u{a0}' || c
        == '\u{1680}' || ('\u{2000}' <= c && c <= '\u{200a}') || c == '\u{2028}' || c
        == '\u{2029}' || c == '\u{202f}' || c == '\u{205f}' || c == '\u{3000}'
}

/// The first index at or after `i` that holds no white space, or the length.
pub open spec fn skip_spaces(s: Seq<char>, i: int) -> int
    decreases s.len() - i,
{
    if 0 <= i < s.len() && is_space(s[i]) {
        skip_spaces(s, i + 1)
    } else {
        i
    }
}

/// The end of the text in `s[lo..j]` once trailing white space is dropped.
pub open spec fn drop_spaces(s: Seq<char>, lo: int, j: int) -> int
    decreases j - lo,
{
    if lo < j <= s.len() && is_space(s[j - 1]) {
        drop_spaces(s, lo, j - 1)
    } else {
        j
    }
}

/// `s` without leading and trailing white space.
pub open spec fn trimmed(s: Seq<char>) -> Seq<char> {
    let a = skip_spaces(s, 0);
    s.subrange(a, drop_spaces(s, a, s.len() as int))
}

/// A copy of `v` without leading and trailing white space.
pub fn trim(v: &Vec<char>) -> (r: Vec<char>)
    ensures
        r@ == trimmed(v@),
{
    let mut a: usize = 0;
    while a < v.len() && is_space_char(v[a])
        invariant
            a <= v.len(),
            skip_spaces(v@, 0) == skip_spaces(v@, a as int),
        decreases v.len() - a,
    {
        a += 1;
    }
    let mut b: usize = v.len();
    while a < b && is_space_char(v[b - 1])
        invariant
            a <= b <= v.len(),
            drop_spaces(v@, a as int, v.len() as int) == drop_spaces(v@, a as int, b as int),
        decreases b - a,
    {
        b -= 1;
    }
    subvec(v, a, b)
}

/// The first index at or after `i` that holds `c`, or the length where none does.
pub open spec fn find_from(s: Seq<char>, c: char, i: int) -> int
    decreases s.len() - i,
{
    if i < 0 || i >= s.len() {
        s.len() as int
    } else if s[i] == c {
        i
    } else {
        find_from(s, c, i + 1)
    }
}

/// The last index before `j` that holds `c`, or -1 where none does.
pub open spec fn find_last_before(s: Seq<char>, c: char, j: int) -> int
    decreases j,
{
    if j <= 0 || j > s.len() {
        -1
    } else if s[j - 1] == c {
        j - 1
    } else {
        find_last_before(s, c, j - 1)
    }
}

/// The index found lies between `i` and the length, holds `c` where it
/// is short of the length, and nothing before it does.
pub proof fn lemma_find_from_bounds(s: Seq<char>, c: char, i: int)
    requires
        0 <= i <= s.len(),
    ensures
        i <= find_from(s, c, i) <= s.len(),
        find_from(s, c, i) < s.len() ==> s[find_from(s, c, i)] == c,
        forall|k: int| i <= k < find_from(s, c, i) ==> s[k] != c,
    decreases s.len() - i,
{
    if i < s.len() && s[i] != c {
        lemma_find_from_bounds(s, c, i + 1);
    }
}

/// The index found lies below `j`, holds `c` where there is one, and
/// nothing after it does.
pub proof fn lemma_find_last_bounds(s: Seq<char>, c: char, j: int)
    requires
        0 <= j <= s.len(),
    ensures
        -1 <= find_last_before(s, c, j) < j,
        find_last_before(s, c, j) >= 0 ==> s[find_last_before(s, c, j)] == c,
        forall|k: int| find_last_before(s, c, j) < k < j ==> s[k] != c,
    decreases j,
{
    if j > 0 && s[j - 1] != c {
        lemma_find_last_bounds(s, c, j - 1);
    }
}

/// The first index at or after `from` that holds `c`, or the length.
pub fn find_char(v: &Vec<char>, c: char, from: usize) -> (r: usize)
    requires
        from <= v.len(),
    ensures
        r == find_from(v@, c, from as int),
        from <= r <= v.len(),
{
    let mut i: usize = from;
    while i < v.len() && v[i] != c
        invariant
            from <= i <= v.len(),
            find_from(v@, c, from as int) == find_from(v@, c, i as int),
        decreases v.len() - i,
    {
        i += 1;
    }
    i
}

/// The last index that holds `c`, if any does.
pub fn rfind_char(v: &Vec<char>, c: char) -> (r: Option<usize>)
    ensures
        match r {
            Some(i) => i == find_last_before(v@, c, v.len() as int) && i < v.len(),
            None => find_last_before(v@, c, v.len() as int) == -1,
        },
{
    let mut j: usize = v.len();
    while j > 0 && v[j - 1] != c
        invariant
            j <= v.len(),
            find_last_before(v@, c, v.len() as int) == find_last_before(v@, c, j as int),
        decreases j,
    {
        j -= 1;
    }
    if j == 0 {
        None
    } else {
        Some(j - 1)
    }
}

/// The pieces of `s[start..]` between occurrences of `sep`; as many pieces
/// as there are separators, and one more.
pub open spec fn split_from(s: Seq<char>, sep: char, start: int) -> Seq<Seq<char>>
    decreases s.len() - start,
{
    let j = find_from(s, sep, start);
    if start < 0 || start > s.len() || j < start || j >= s.len() {
        seq![s.subrange(start, s.len() as int)]
    } else {
        seq![s.subrange(start, j)] + split_from(s, sep, j + 1)
    }
}

/// The pieces of `s` between occurrences of `sep`.
pub open spec fn split_on(s: Seq<char>, sep: char) -> Seq<Seq<char>> {
    split_from(s, sep, 0)
}

/// The pieces of `v` between occurrences of `sep`, in order.
pub fn split_chars(v: &Vec<char>, sep: char) -> (r: Vec<Vec<char>>)
    ensures
        r@.len() == split_on(v@, sep).len(),
        forall|k: int| 0 <= k < r@.len() ==> (#[trigger] r@[k])@ == split_on(v@, sep)[k],
{
    let mut r: Vec<Vec<char>> = Vec::new();
    let mut start: usize = 0;
    loop
        invariant
            start <= v.len(),
            split_on(v@, sep).len() == r@.len() + split_from(v@, sep, start as int).len(),
            forall|k: int| 0 <= k < r@.len() ==> (#[trigger] r@[k])@ == split_on(v@, sep)[k],
            forall|k: int|
                0 <= k < split_from(v@, sep, start as int).len() ==> split_on(v@, sep)[r@.len()
                    + k] == #[trigger] split_from(v@, sep, start as int)[k],
        decreases v.len() - start,
    {
        let j = find_char(v, sep, start);
        let piece = subvec(v, start, j);
        let ghost before = r@;
        let ghost rest = split_from(v@, sep, start as int);
        r.push(piece);
        if j >= v.len() {
            assert(rest =~= seq![v@.subrange(start as int, v.len() as int)]);
            assert(split_on(v@, sep)[before.len() as int + 0] == rest[0]);
            return r;
        }
        proof {
            let tail = split_from(v@, sep, j + 1);
            assert(rest =~= seq![v@.subrange(start as int, j as int)] + tail);
            assert(split_on(v@, sep)[before.len() as int + 0] == rest[0]);
            assert forall|k: int| 0 <= k < tail.len() implies split_on(v@, sep)[r@.len() + k]
                == #[trigger] tail[k] by {
                assert(rest[k + 1] == tail[k]);
                assert(split_on(v@, sep)[before.len() as int + (k + 1)] == rest[k + 1]);
            }
        }
        start = j + 1;
    }
}

/// Whether `s` begins with `prefix`.
pub open spec fn has_prefix(s: Seq<char>, prefix: Seq<char>) -> bool {
    prefix.len() <= s.len() && s.subrange(0, prefix.len() as int) == prefix
}

/// Whether `v` begins with the characters of `prefix`.
pub fn starts_with_chars(v: &Vec<char>, prefix: &Vec<char>) -> (r: bool)
    ensures
        r == has_prefix(v@, prefix@),
{
    if prefix.len() > v.len() {
        return false;
    }
    let head = subvec(v, 0, prefix.len());
    same_chars(&head, prefix)
}

/// Whether `c` occurs in `v`.
pub fn contains_char(v: &Vec<char>, c: char) -> (r: bool)
    ensures
        r == v@.contains(c),
{
    let i = find_char(v, c, 0);
    proof {
        lemma_find_from_bounds(v@, c, 0);
    }
    i < v.len()
}

/// The number that a run of decimal digits spells.
pub open spec fn digits_value(s: Seq<char>) -> nat
    decreases s.len(),
{
    if s.len() == 0 {
        0
    } else {
        digits_value(s.drop_last()) * 10 + ((s.last() as u32) - ('0' as u32)) as nat
    }
}

/// Every character is a decimal digit.
pub open spec fn all_digits(s: Seq<char>) -> bool {
    forall|i: int| 0 <= i < s.len() ==> '0' <= #[trigger] s[i] && s[i] <= '9'
}

/// What is left of `s` once one leading `+` is taken off.
pub open spec fn unsigned_body(s: Seq<char>) -> Seq<char> {
    if s.len() > 0 && s[0] == '+' {
        s.subrange(1, s.len() as int)
    } else {
        s
    }
}

/// The unsigned number that `s` spells: an optional `+`, then at least one
/// decimal digit and nothing else, with a value that fits.
pub open spec fn parsed_u64(s: Seq<char>) -> Option<u64> {
    let body = unsigned_body(s);
    if body.len() == 0 || !all_digits(body) || digits_value(body) > u64::MAX {
        None
    } else {
        Some(digits_value(body) as u64)
    }
}

/// A run of digits spells at least what any beginning of it spells.
pub proof fn lemma_digits_value_grows(s: Seq<char>, k: int)
    requires
        0 <= k <= s.len(),
    ensures
        digits_value(s.take(k)) <= digits_value(s),
    decreases s.len() - k,
{
    if k < s.len() {
        lemma_digits_value_grows(s, k + 1);
        assert(s.take(k + 1).drop_last() == s.take(k));
    } else {
        assert(s.take(k) == s);
    }
}

/// Reads an unsigned number.
pub fn parse_u64(v: &Vec<char>) -> (r: Option<u64>)
    ensures
        r == parsed_u64(v@),
{
    let start: usize = if v.len() > 0 && v[0] == '+' {
        1
    } else {
        0
    };
    let ghost body = unsigned_body(v@);
    assert(body == v@.subrange(start as int, v.len() as int));
    if start == v.len() {
        return None;
    }
    let mut value: u64 = 0;
    let mut i: usize = start;
    while i < v.len()
        invariant
            start <= i <= v.len(),
            body == v@.subrange(start as int, v.len() as int),
            body == unsigned_body(v@),
            all_digits(body.take(i - start)),
            value == digits_value(body.take(i - start)),
        decreases v.len() - i,
    {
        let c = v[i];
        assert(body[i - start] == c);
        if !('0' <= c && c <= '9') {
            assert(!all_digits(body));
            return None;
        }
        let digit: u64 = ((c as u32) - ('0' as u32)) as u64;
        proof {
            assert(body.take(i - start + 1).drop_last() == body.take(i - start));
            assert(body.take(i - start + 1).last() == c);
            lemma_digits_value_grows(body, i - start + 1);
        }
        assert(digits_value(body.take(i - start + 1)) == value * 10 + digit);
        if value > (u64::MAX - digit) / 10 {
            assert(value * 10 + digit > u64::MAX);
            return None;
        }
        value = value * 10 + digit;
        i += 1;
    }
    assert(body.take(i - start) == body);
    assert(body.len() > 0);
    Some(value)
}

/// Whether `char::is_alphabetic` holds of a character: whether it has the
/// Unicode property Alphabetic.
pub uninterp spec fn is_alphabetic_char(c: char) -> bool;

/// Asks `char::is_alphabetic`.
#[verifier::external_body]
pub(crate) fn is_alphabetic(c: char) -> (r: bool)
    ensures
        r == is_alphabetic_char(c),
{
    c.is_alphabetic()
}

/// Whether `pat` stands in `s` at position `i`.
pub open spec fn occurs_at(s: Seq<char>, pat: Seq<char>, i: int) -> bool {
    0 <= i && i + pat.len() <= s.len() && s.subrange(i, i + pat.len()) == pat
}

/// Whether `pat` stands somewhere in `s`.
pub open spec fn contains_text(s: Seq<char>, pat: Seq<char>) -> bool {
    exists|i: int| occurs_at(s, pat, i)
}

/// Whether the text `pat` stands somewhere in the text `s`.
pub fn text_contains(s: &str, pat: &str) -> (r: bool)
    ensures
        r == contains_text(s@, pat@),
{
    let text = chars_of(s);
    let wanted = chars_of(pat);
    if wanted.len() > text.len() {
        assert forall|i: int| !occurs_at(s@, pat@, i) by {}
        return false;
    }
    let last: usize = text.len() - wanted.len();
    let mut i: usize = 0;
    loop
        invariant
            i <= last,
            last == text@.len() - wanted@.len(),
            text@.len() <= usize::MAX,
            text@ == s@,
            wanted@ == pat@,
            forall|k: int| 0 <= k < i ==> !occurs_at(s@, pat@, k),
        decreases last - i,
    {
        let window = subvec(&text, i, i + wanted.len());
        if same_chars(&window, &wanted) {
            assert(occurs_at(s@, pat@, i as int));
            return true;
        }
        if i == last {
            assert forall|k: int| !occurs_at(s@, pat@, k) by {}
            return false;
        }
        i += 1;
    }
}

/// The texts of a list of strings.
pub open spec fn texts(v: Seq<String>) -> Seq<Seq<char>> {
    Seq::new(v.len(), |i: int| v[i]@)
}

/// The first `upto` of `items`, with a comma between every two of them.
pub open spec fn joined(items: Seq<Seq<char>>, upto: int) -> Seq<char>
    decreases upto,
{
    if upto <= 0 || upto > items.len() {
        Seq::empty()
    } else if upto == 1 {
        items[0]
    } else {
        joined(items, upto - 1) + ","@ + items[upto - 1]
    }
}

/// Appends the texts of `items`, with a comma between every two of them.
pub fn append_joined(out: &mut String, items: &Vec<String>)
    ensures
        final(out)@ == old(out)@ + joined(texts(items@), items@.len() as int),
{
    let ghost all = texts(items@);
    if items.len() == 0 {
        assert(out@ =~= old(out)@ + joined(all, 0));
        return;
    }
    out.append(items[0].as_str());
    assert(all[0] == items@[0]@);
    let mut i: usize = 1;
    while i < items.len()
        invariant
            1 <= i <= items@.len(),
            all == texts(items@),
            out@ == old(out)@ + joined(all, i as int),
        decreases items@.len() - i,
    {
        out.append(",");
        out.append(items[i].as_str());
        assert(all[i as int] == items@[i as int]@);
        assert(out@ =~= old(out)@ + joined(all, i + 1));
        i += 1;
    }
}

/// What `str::to_lowercase` makes of a text: its lower-case form by the
/// rules of Unicode.
pub uninterp spec fn unicode_lower(text: Seq<char>) -> Seq<char>;

/// Lower-cases a text with `str::to_lowercase`.
#[verifier::external_body]
pub(crate) fn to_lowercase_text(text: &str) -> (r: String)
    ensures
        r@ == unicode_lower(text@),
{
    text.to_lowercase()
}

/// What `str::to_uppercase` makes of a text: its upper-case form by the
/// rules of Unicode.
pub uninterp spec fn unicode_upper(text: Seq<char>) -> Seq<char>;

/// Upper-cases a text with `str::to_uppercase`.
#[verifier::external_body]
pub(crate) fn to_uppercase_text(text: &str) -> (r: String)
    ensures
        r@ == unicode_upper(text@),
{
    text.to_uppercase()
}

} // verus!
