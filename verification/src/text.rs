//! Text utilities: comparing, searching and splitting strings by their
//! characters, and the decimal notation of unsigned integers.

use vstd::prelude::*;
use vstd::std_specs::iter::IteratorSpec;

verus! {

/// `str`'s `==` from the standard library: two string slices are equal exactly
/// when they hold the same characters in the same order.
pub assume_specification[ <str as PartialEq>::eq ](a: &str, b: &str) -> (same: bool)
    ensures
        same == (a@ == b@),
;

/// The characters of an optional string.
pub open spec fn opt_text(value: Option<String>) -> Option<Seq<char>> {
    match value {
        Some(text) => Some(text@),
        None => None,
    }
}

/// The characters of an optional borrowed string.
pub open spec fn opt_text_ref(value: Option<&String>) -> Option<Seq<char>> {
    match value {
        Some(text) => Some(text@),
        None => None,
    }
}

/// Whether two strings hold the same characters.
pub fn same_text(a: &str, b: &str) -> (same: bool)
    ensures
        same == (a@ == b@),
{
    *a == *b
}

/// The characters of `text`, in order.
pub fn to_chars(text: &str) -> (chars: Vec<char>)
    ensures
        chars@ == text@,
{
    broadcast use vstd::string::group_string_axioms;

    let mut rest = text.chars();
    let mut chars: Vec<char> = Vec::new();
    loop
        invariant
            chars@ + rest.remaining() == text@,
            rest.obeys_prophetic_iter_laws(),
            rest.decrease() is Some,
        decreases rest.decrease()->0,
    {
        match rest.next() {
            Some(c) => {
                chars.push(c);
            },
            None => {
                return chars;
            },
        }
    }
}

/// `first` followed by `second`.
pub fn join(first: &str, second: &str) -> (joined: String)
    ensures
        joined@ == first@ + second@,
{
    let mut joined = String::from_str(first);
    joined.append(second);
    joined
}

// ---------------------------------------------------------------------------
// Searching
// ---------------------------------------------------------------------------

/// The position of the first `sep` in `s`, or `s.len()` when there is none.
pub open spec fn first_index_of(s: Seq<char>, sep: char) -> int
    decreases s.len(),
{
    if s.len() == 0 || s[0] == sep {
        0
    } else {
        1 + first_index_of(s.drop_first(), sep)
    }
}

/// `first_index_of` is within bounds, nothing before it is `sep`, and it
/// points at a `sep` unless it is the length.
pub proof fn lemma_first_index_of(s: Seq<char>, sep: char)
    ensures
        0 <= first_index_of(s, sep) <= s.len(),
        forall|k: int| 0 <= k < first_index_of(s, sep) ==> s[k] != sep,
        first_index_of(s, sep) < s.len() ==> s[first_index_of(s, sep)] == sep,
    decreases s.len(),
{
    if s.len() == 0 || s[0] == sep {
    } else {
        let tail = s.drop_first();
        lemma_first_index_of(tail, sep);
        let at = first_index_of(tail, sep);
        assert forall|k: int| 0 <= k < 1 + at implies s[k] != sep by {
            if k > 0 {
                assert(tail[k - 1] == s[k]);
            }
        }
        if 1 + at < s.len() {
            assert(tail[at] == s[1 + at]);
        }
    }
}

/// Any position with the properties of `lemma_first_index_of` is the first index.
pub proof fn lemma_first_index_of_unique(s: Seq<char>, sep: char, at: int)
    requires
        0 <= at <= s.len(),
        forall|k: int| 0 <= k < at ==> s[k] != sep,
        at < s.len() ==> s[at] == sep,
    ensures
        first_index_of(s, sep) == at,
{
    lemma_first_index_of(s, sep);
    let first = first_index_of(s, sep);
    if first < at {
        assert(s[first] == sep);
    } else if at < first {
        assert(s[at] == sep);
    }
}

/// The position of the first `sep` at or after `from`, or the length when
/// there is none.
fn find_char(chars: &Vec<char>, sep: char, from: usize) -> (at: usize)
    requires
        from <= chars.len(),
    ensures
        at == from + first_index_of(chars@.skip(from as int), sep),
        from <= at <= chars.len(),
{
    let mut at = from;
    while at < chars.len() && chars[at] != sep
        invariant
            from <= at <= chars.len(),
            forall|k: int| from <= k < at ==> chars@[k] != sep,
        decreases chars.len() - at,
    {
        at += 1;
    }
    proof {
        let tail = chars@.skip(from as int);
        assert forall|k: int| 0 <= k < at - from implies tail[k] != sep by {
            assert(tail[k] == chars@[from + k]);
        }
        lemma_first_index_of_unique(tail, sep, at - from);
    }
    at
}

/// Whether `pattern` occurs in `s` as a contiguous run of characters.
pub open spec fn spec_contains(s: Seq<char>, pattern: Seq<char>) -> bool {
    exists|start: int|
        0 <= start && start + pattern.len() <= s.len() && #[trigger] s.subrange(
            start,
            start + pattern.len(),
        ) == pattern
}

/// Whether `pattern` stands in `chars` at position `start`.
fn matches_at(chars: &Vec<char>, pattern: &Vec<char>, start: usize) -> (found: bool)
    requires
        start + pattern.len() <= chars.len(),
    ensures
        found == (chars@.subrange(start as int, start + pattern.len()) == pattern@),
{
    let ghost window = chars@.subrange(start as int, start + pattern.len());
    let mut k: usize = 0;
    while k < pattern.len()
        invariant
            k <= pattern.len(),
            start + pattern.len() <= chars.len(),
            window == chars@.subrange(start as int, start + pattern.len()),
            forall|j: int| 0 <= j < k ==> window[j] == pattern@[j],
        decreases pattern.len() - k,
    {
        if chars[start + k] != pattern[k] {
            assert(window[k as int] != pattern@[k as int]);
            return false;
        }
        k += 1;
    }
    assert(window =~= pattern@);
    true
}

/// Whether `pattern` occurs somewhere in `text`.
pub fn contains(text: &str, pattern: &str) -> (found: bool)
    ensures
        found == spec_contains(text@, pattern@),
{
    let chars = to_chars(text);
    let wanted = to_chars(pattern);
    if wanted.len() > chars.len() {
        return false;
    }
    let last = chars.len() - wanted.len();
    let mut start: usize = 0;
    loop
        invariant
            start <= last,
            last == chars.len() - wanted.len(),
            wanted.len() <= chars.len(),
            chars@ == text@,
            wanted@ == pattern@,
            forall|k: int|
                0 <= k < start ==> #[trigger] chars@.subrange(k, k + wanted.len()) != wanted@,
        decreases last - start,
    {
        if matches_at(&chars, &wanted, start) {
            assert(chars@.subrange(start as int, start + wanted.len()) == wanted@);
            return true;
        }
        if start == last {
            return false;
        }
        start += 1;
    }
}

// ---------------------------------------------------------------------------
// Splitting
// ---------------------------------------------------------------------------

/// The part of `s` before its first `sep`; all of `s` when it holds none.
pub open spec fn first_field(s: Seq<char>, sep: char) -> Seq<char> {
    s.take(first_index_of(s, sep))
}

/// What follows the first `sep` of `s`, when there is one.
pub open spec fn after_first_field(s: Seq<char>, sep: char) -> Option<Seq<char>> {
    if first_index_of(s, sep) < s.len() {
        Some(s.skip(first_index_of(s, sep) + 1))
    } else {
        None
    }
}

/// The second of the fields that `sep` divides `s` into, when `s` holds a `sep`.
pub open spec fn second_field(s: Seq<char>, sep: char) -> Option<Seq<char>> {
    match after_first_field(s, sep) {
        Some(rest) => Some(first_field(rest, sep)),
        None => None,
    }
}

/// The first two of the fields that `sep` divides `text` into. The first is
/// always there; the second only when `text` holds a `sep`.
pub fn first_two_fields(text: &str, sep: char) -> (fields: (String, Option<String>))
    ensures
        fields.0@ == first_field(text@, sep),
        opt_text(fields.1) == second_field(text@, sep),
{
    let chars = to_chars(text);
    let count = chars.len();
    let cut = find_char(&chars, sep, 0);
    assert(chars@.skip(0) =~= chars@);
    let first = text.substring_char(0, cut).to_owned();
    assert(text@.subrange(0, cut as int) =~= text@.take(cut as int));
    if cut < count {
        let end = find_char(&chars, sep, cut + 1);
        let second = text.substring_char(cut + 1, end).to_owned();
        proof {
            let rest = text@.skip(cut + 1);
            assert(text@.subrange(cut + 1, end as int) =~= rest.take(end - (cut + 1)));
        }
        (first, Some(second))
    } else {
        (first, None)
    }
}

// ---------------------------------------------------------------------------
// Ordering
// ---------------------------------------------------------------------------

/// Strict lexicographic order of two strings by the code points of their
/// characters: the order in which ISO dates follow each other.
pub open spec fn text_lt(a: Seq<char>, b: Seq<char>) -> bool
    decreases a.len(),
{
    if b.len() == 0 {
        false
    } else if a.len() == 0 {
        true
    } else if a[0] != b[0] {
        (a[0] as int) < (b[0] as int)
    } else {
        text_lt(a.drop_first(), b.drop_first())
    }
}

/// No string comes before itself.
pub proof fn lemma_text_lt_irreflexive(a: Seq<char>)
    ensures
        !text_lt(a, a),
    decreases a.len(),
{
    if a.len() > 0 {
        lemma_text_lt_irreflexive(a.drop_first());
    }
}

/// Of two different strings one comes before the other.
pub proof fn lemma_text_lt_total(a: Seq<char>, b: Seq<char>)
    ensures
        text_lt(a, b) || text_lt(b, a) || a == b,
    decreases a.len(),
{
    if a.len() == 0 && b.len() == 0 {
        assert(a =~= b);
    } else if a.len() == 0 {
        assert(text_lt(a, b));
    } else if b.len() == 0 {
        assert(text_lt(b, a));
    } else if a[0] != b[0] {
        assert(text_lt(a, b) == ((a[0] as int) < (b[0] as int)));
        assert(text_lt(b, a) == ((b[0] as int) < (a[0] as int)));
    } else {
        lemma_text_lt_total(a.drop_first(), b.drop_first());
        assert(text_lt(a, b) == text_lt(a.drop_first(), b.drop_first()));
        assert(text_lt(b, a) == text_lt(b.drop_first(), a.drop_first()));
        if a.drop_first() == b.drop_first() {
            assert(a =~= seq![a[0]] + a.drop_first());
            assert(b =~= seq![b[0]] + b.drop_first());
        }
    }
}

/// The order is transitive.
pub proof fn lemma_text_lt_transitive(a: Seq<char>, b: Seq<char>, c: Seq<char>)
    requires
        text_lt(a, b),
        text_lt(b, c),
    ensures
        text_lt(a, c),
    decreases a.len(),
{
    if a.len() > 0 && a[0] == b[0] && b[0] == c[0] {
        lemma_text_lt_transitive(a.drop_first(), b.drop_first(), c.drop_first());
    }
}

/// Whether `a` comes strictly before `b` in lexicographic order.
pub fn text_before(a: &Vec<char>, b: &Vec<char>) -> (before: bool)
    ensures
        before == text_lt(a@, b@),
{
    let mut k: usize = 0;
    assert(a@.skip(0) =~= a@ && b@.skip(0) =~= b@);
    while k < a.len() && k < b.len()
        invariant
            k <= a.len(),
            k <= b.len(),
            text_lt(a@, b@) == text_lt(a@.skip(k as int), b@.skip(k as int)),
        decreases a.len() - k,
    {
        let ghost ra = a@.skip(k as int);
        let ghost rb = b@.skip(k as int);
        assert(ra[0] == a@[k as int] && rb[0] == b@[k as int]);
        if a[k] != b[k] {
            return a[k] < b[k];
        }
        assert(ra.drop_first() =~= a@.skip(k + 1));
        assert(rb.drop_first() =~= b@.skip(k + 1));
        k += 1;
    }
    k < b.len()
}

// ---------------------------------------------------------------------------
// Decimal notation
// ---------------------------------------------------------------------------

/// Whether `c` is one of the ten ASCII digits.
pub open spec fn is_digit(c: char) -> bool {
    48 <= (c as int) && (c as int) <= 57
}

/// The value of the digit `c`.
pub open spec fn digit_value(c: char) -> nat {
    ((c as int) - 48) as nat
}

/// The digit that stands for `d`, for `d` below ten.
pub open spec fn digit_char(d: nat) -> char {
    if d == 0 {
        '0'
    } else if d == 1 {
        '1'
    } else if d == 2 {
        '2'
    } else if d == 3 {
        '3'
    } else if d == 4 {
        '4'
    } else if d == 5 {
        '5'
    } else if d == 6 {
        '6'
    } else if d == 7 {
        '7'
    } else if d == 8 {
        '8'
    } else {
        '9'
    }
}

/// Whether `s` holds digits only.
pub open spec fn all_digits(s: Seq<char>) -> bool {
    forall|i: int| 0 <= i < s.len() ==> is_digit(#[trigger] s[i])
}

/// The number that the digits `s` denote in base ten; zero for no digits.
pub open spec fn decimal_value(s: Seq<char>) -> nat
    decreases s.len(),
{
    if s.len() == 0 {
        0
    } else {
        decimal_value(s.drop_last()) * 10 + digit_value(s.last())
    }
}

/// `s` without its leading `+`, if it has one.
pub open spec fn unsigned_part(s: Seq<char>) -> Seq<char> {
    if s.len() > 0 && s[0] == '+' {
        s.drop_first()
    } else {
        s
    }
}

/// The unsigned integer that `s` denotes: an optional `+`, then one or more
/// digits whose value fits the machine word. Anything else denotes nothing.
pub open spec fn spec_parse_usize(s: Seq<char>) -> Option<usize> {
    let digits = unsigned_part(s);
    if digits.len() > 0 && all_digits(digits) && decimal_value(digits) <= usize::MAX {
        Some(decimal_value(digits) as usize)
    } else {
        None
    }
}

/// The shortest decimal notation of `n`.
pub open spec fn decimal_text(n: nat) -> Seq<char>
    decreases n,
{
    if n < 10 {
        seq![digit_char(n)]
    } else {
        decimal_text(n / 10).push(digit_char(n % 10))
    }
}

/// A number is at least as large as the number that any of its leading digits denote.
pub proof fn lemma_decimal_value_prefix(s: Seq<char>, k: int)
    requires
        0 <= k <= s.len(),
    ensures
        decimal_value(s.take(k)) <= decimal_value(s),
    decreases s.len(),
{
    if k == s.len() {
        assert(s.take(k) =~= s);
    } else {
        let front = s.drop_last();
        assert(front.take(k) =~= s.take(k));
        lemma_decimal_value_prefix(front, k);
    }
}

/// Reading one more digit multiplies by ten and adds the digit.
pub proof fn lemma_decimal_value_step(s: Seq<char>, k: int)
    requires
        0 <= k < s.len(),
    ensures
        decimal_value(s.take(k + 1)) == decimal_value(s.take(k)) * 10 + digit_value(s[k]),
{
    let longer = s.take(k + 1);
    assert(longer.drop_last() =~= s.take(k));
    assert(longer.last() == s[k]);
}

/// The decimal notation of a number is made of digits, is not empty, and
/// denotes that number.
pub proof fn lemma_decimal_text(n: nat)
    ensures
        decimal_text(n).len() > 0,
        all_digits(decimal_text(n)),
        decimal_value(decimal_text(n)) == n,
    decreases n,
{
    if n < 10 {
        let text = decimal_text(n);
        assert(text.drop_last() =~= Seq::<char>::empty());
        assert(decimal_value(text.drop_last()) == 0);
        assert(text.last() == digit_char(n));
    } else {
        lemma_decimal_text(n / 10);
        let front = decimal_text(n / 10);
        let text = front.push(digit_char(n % 10));
        assert(text.drop_last() =~= front);
        assert(text.last() == digit_char(n % 10));
        assert forall|i: int| 0 <= i < text.len() implies is_digit(#[trigger] text[i]) by {
            if i < front.len() {
                assert(text[i] == front[i]);
            }
        }
    }
}

/// Writing a number down and reading it back gives the number.
pub proof fn lemma_parse_decimal_text(n: usize)
    ensures
        spec_parse_usize(decimal_text(n as nat)) == Some(n),
{
    lemma_decimal_text(n as nat);
    let text = decimal_text(n as nat);
    assert(is_digit(text[0]));
    assert(unsigned_part(text) == text);
}

/// The value of `c` when it is a digit.
pub fn digit_of(c: char) -> (digit: Option<u8>)
    ensures
        digit is Some == is_digit(c),
        digit matches Some(d) ==> d == digit_value(c),
{
    let code: u32 = c as u32;
    if 48 <= code && code <= 57 {
        Some((code - 48) as u8)
    } else {
        None
    }
}

/// Reads an unsigned integer in decimal notation, as `str::parse` does for
/// `usize`: an optional `+`, then digits; `None` for anything else and for a
/// number that does not fit.
pub fn parse_usize(text: &str) -> (parsed: Option<usize>)
    ensures
        parsed == spec_parse_usize(text@),
{
    let chars = to_chars(text);
    let count = chars.len();
    let start: usize = if count > 0 && chars[0] == '+' {
        1
    } else {
        0
    };
    let ghost digits = unsigned_part(text@);
    assert(digits =~= chars@.skip(start as int));
    if start == count {
        return None;
    }
    let mut value: usize = 0;
    let mut at: usize = start;
    while at < count
        invariant
            start <= at <= count,
            count == chars.len(),
            digits == chars@.skip(start as int),
            digits == unsigned_part(text@),
            all_digits(digits.take(at - start)),
            value == decimal_value(digits.take(at - start)),
        decreases count - at,
    {
        let c = chars[at];
        assert(digits[at - start] == c);
        let digit: usize = match digit_of(c) {
            Some(d) => d as usize,
            None => {
                return None;
            },
        };
        proof {
            lemma_decimal_value_step(digits, at - start);
            lemma_decimal_value_prefix(digits, at - start + 1);
        }
        let shifted = match value.checked_mul(10) {
            Some(shifted) => shifted,
            None => {
                return None;
            },
        };
        let next = match shifted.checked_add(digit) {
            Some(next) => next,
            None => {
                return None;
            },
        };
        proof {
            let longer = digits.take(at - start + 1);
            assert forall|i: int| 0 <= i < longer.len() implies is_digit(#[trigger] longer[i]) by {
                if i < at - start {
                    assert(longer[i] == digits.take(at - start)[i]);
                } else {
                    assert(longer[i] == c);
                }
            }
        }
        value = next;
        at += 1;
    }
    assert(digits.take(count - start) =~= digits);
    Some(value)
}

/// The one-character string of the digit `d`.
fn digit_text(d: u8) -> (text: &'static str)
    requires
        d < 10,
    ensures
        text@ == seq![digit_char(d as nat)],
{
    proof {
        reveal_strlit("0");
        reveal_strlit("1");
        reveal_strlit("2");
        reveal_strlit("3");
        reveal_strlit("4");
        reveal_strlit("5");
        reveal_strlit("6");
        reveal_strlit("7");
        reveal_strlit("8");
        reveal_strlit("9");
    }
    let text = if d == 0 {
        "0"
    } else if d == 1 {
        "1"
    } else if d == 2 {
        "2"
    } else if d == 3 {
        "3"
    } else if d == 4 {
        "4"
    } else if d == 5 {
        "5"
    } else if d == 6 {
        "6"
    } else if d == 7 {
        "7"
    } else if d == 8 {
        "8"
    } else {
        "9"
    };
    assert(text@ =~= seq![digit_char(d as nat)]);
    text
}

/// Writes `n` in decimal notation, as `to_string` does for `usize`.
pub fn usize_to_string(n: usize) -> (text: String)
    ensures
        text@ == decimal_text(n as nat),
    decreases n,
{
    if n < 10 {
        String::from_str(digit_text(n as u8))
    } else {
        let mut text = usize_to_string(n / 10);
        text.append(digit_text((n % 10) as u8));
        assert(text@ =~= decimal_text((n / 10) as nat).push(digit_char((n % 10) as nat)));
        text
    }
}

} // verus!
