//! Price normalization.
//!
//! A price is shown as the currency prefix `Rp` followed by the amount in
//! decimal digits, with a dot before every group of three digits counted
//! from the right: `Rp60.270`, `Rp1.250.000`. Text found on a page is
//! brought into that form by reading one price token behind the prefix.

use vstd::prelude::*;
use crate::text::{chars_of, string_of, tail_of};

verus! {

/// Whether `c` is one of the decimal digits `0` to `9`.
pub open spec fn is_digit(c: char) -> bool {
    '0' <= c <= '9'
}

/// The number a decimal digit stands for.
pub open spec fn digit_value(c: char) -> nat
    recommends
        is_digit(c),
{
    (c as int - '0' as int) as nat
}

/// The decimal digit for a number below ten.
pub open spec fn digit_char(d: nat) -> char
    recommends
        d < 10,
{
    ((d + 48) as u8) as char
}

/// The decimal digits of `n`, most significant first, without leading zeros.
pub open spec fn decimal(n: nat) -> Seq<char>
    decreases n,
{
    if n < 10 {
        seq![digit_char(n)]
    } else {
        decimal(n / 10).push(digit_char(n % 10))
    }
}

/// Whether every character of `s` is a decimal digit.
pub open spec fn all_digits(s: Seq<char>) -> bool {
    forall|i: int| 0 <= i < s.len() ==> is_digit(#[trigger] s[i])
}

/// The number that a string of decimal digits denotes; zero for the empty
/// string.
pub open spec fn number(s: Seq<char>) -> nat
    decreases s.len(),
{
    if s.len() == 0 {
        0
    } else {
        number(s.drop_last()) * 10 + digit_value(s.last())
    }
}

/// The amount that the text `s` denotes: its number, if it holds decimal
/// digits alone, at least one, and the number fits in 64 bits.
pub open spec fn amount_of(s: Seq<char>) -> Option<u64> {
    if s.len() > 0 && all_digits(s) && number(s) <= u64::MAX {
        Some(number(s) as u64)
    } else {
        None
    }
}

/// `digits` with a dot before every digit whose distance to the end is a
/// positive multiple of three, starting at position `i`.
pub open spec fn grouped_from(digits: Seq<char>, i: int) -> Seq<char>
    decreases digits.len() - i,
{
    if i < 0 || i >= digits.len() {
        Seq::empty()
    } else if i > 0 && (digits.len() - i) % 3 == 0 {
        seq!['.', digits[i]] + grouped_from(digits, i + 1)
    } else {
        seq![digits[i]] + grouped_from(digits, i + 1)
    }
}

/// The currency prefix.
pub open spec fn currency_prefix() -> Seq<char> {
    seq!['R', 'p']
}

/// The display form of the amount `n`.
pub open spec fn price_text(n: nat) -> Seq<char> {
    currency_prefix() + grouped_from(decimal(n), 0)
}

/// The display form of the amount zero, used where no price can be read.
pub open spec fn zero_price() -> Seq<char> {
    price_text(0)
}

fn digit_of(d: u64) -> (c: char)
    requires
        d < 10,
    ensures
        c == digit_char(d as nat),
        is_digit(c),
{
    let b: u8 = (d + 48) as u8;
    b as char
}

fn push_decimal(n: u64, out: &mut Vec<char>)
    ensures
        final(out)@ == old(out)@ + decimal(n as nat),
    decreases n,
{
    if n >= 10 {
        push_decimal(n / 10, out);
    }
    out.push(digit_of(n % 10));
}

/// Formats an amount for display: the currency prefix, then the decimal
/// digits with dots as thousands separators.
pub fn format_price(price: u64) -> (text: String)
    ensures
        text@ == price_text(price as nat),
{
    let mut digits: Vec<char> = Vec::new();
    push_decimal(price, &mut digits);
    let mut out: Vec<char> = Vec::new();
    out.push('R');
    out.push('p');
    let n = digits.len();
    let mut i: usize = 0;
    while i < n
        invariant
            i <= n,
            n == digits@.len(),
            digits@ == decimal(price as nat),
            out@ + grouped_from(digits@, i as int) == price_text(price as nat),
        decreases n - i,
    {
        let ghost before = out@;
        if i > 0 && (n - i) % 3 == 0 {
            out.push('.');
        }
        out.push(digits[i]);
        assert(out@ + grouped_from(digits@, i + 1) == before + grouped_from(digits@, i as int));
        i += 1;
    }
    assert(out@ + Seq::<char>::empty() == out@);
    string_of(&out)
}

/// How many decimal digits stand in `s` from position `from` on, without a
/// break.
pub open spec fn digit_run(s: Seq<char>, from: int) -> nat
    decreases s.len() - from,
{
    if 0 <= from < s.len() && is_digit(s[from]) {
        1 + digit_run(s, from + 1)
    } else {
        0
    }
}

/// The digits of the price token at the start of `s`.
///
/// A token is a run of digits, then at most one dot as a grouping
/// separator, then at most three more digits. Whatever follows, be it a
/// fourth digit, a second dot or any other character, is not part of it.
pub open spec fn token_digits(s: Seq<char>) -> Seq<char> {
    let lead = digit_run(s, 0) as int;
    if lead < s.len() && s[lead] == '.' {
        let run = digit_run(s, lead + 1) as int;
        let tail = if run < 3 { run } else { 3 };
        s.subrange(0, lead) + s.subrange(lead + 1, lead + 1 + tail)
    } else {
        s.subrange(0, lead)
    }
}

/// The amount that the price token at the start of `s` denotes, if it has
/// a digit and the amount fits in 64 bits.
pub open spec fn token_value(s: Seq<char>) -> Option<u64> {
    let digits = token_digits(s);
    if digits.len() == 0 || number(digits) > u64::MAX {
        None
    } else {
        Some(number(digits) as u64)
    }
}

/// The display form of the price that `text` shows: the amount of the
/// token behind the currency prefix, or zero where `text` has no prefix or
/// no readable amount.
pub open spec fn normalized(text: Seq<char>) -> Seq<char> {
    if currency_prefix().is_prefix_of(text) {
        match token_value(text.skip(2)) {
            Some(n) => price_text(n as nat),
            None => zero_price(),
        }
    } else {
        zero_price()
    }
}

/// Dropping digits from the end of a digit string never gives a larger
/// number.
pub proof fn lemma_number_prefix(s: Seq<char>, k: int)
    requires
        0 <= k <= s.len(),
    ensures
        number(s.take(k)) <= number(s),
    decreases s.len(),
{
    if k == s.len() {
        assert(s.take(k) == s);
    } else {
        assert(s.drop_last().take(k) == s.take(k));
        lemma_number_prefix(s.drop_last(), k);
        assert(number(s.drop_last()) * 10 >= number(s.drop_last())) by (nonlinear_arith);
    }
}

/// The decimal form of a number is a non-empty digit string that denotes
/// that number.
pub proof fn lemma_decimal_denotes(n: nat)
    ensures
        decimal(n).len() >= 1,
        all_digits(decimal(n)),
        number(decimal(n)) == n,
    decreases n,
{
    if n < 10 {
        let d = decimal(n);
        assert(d.drop_last() == Seq::<char>::empty());
        assert(number(d.drop_last()) == 0);
    } else {
        lemma_decimal_denotes(n / 10);
        let d = decimal(n);
        assert(d.drop_last() == decimal(n / 10));
        assert(d.last() == digit_char(n % 10));
        assert forall|i: int| 0 <= i < d.len() implies is_digit(#[trigger] d[i]) by {
            if i < d.len() - 1 {
                assert(d[i] == decimal(n / 10)[i]);
            }
        }
    }
}

/// A number below ten to the power `k` has at most `k` decimal digits.
proof fn lemma_decimal_len(n: nat, k: nat, bound: nat)
    requires
        k >= 1,
        bound == pow10(k),
        n < bound,
    ensures
        decimal(n).len() <= k,
    decreases k,
{
    if n >= 10 {
        assert(k >= 2) by {
            if k == 1 {
                assert(pow10(1) == 10) by {
                    reveal_with_fuel(pow10, 2);
                }
            }
        }
        lemma_decimal_len(n / 10, (k - 1) as nat, pow10((k - 1) as nat));
    }
}

/// Ten to the power `k`.
pub open spec fn pow10(k: nat) -> nat
    decreases k,
{
    if k == 0 {
        1
    } else {
        10 * pow10((k - 1) as nat)
    }
}

/// A run of digits that ends at `to` has the length `to - from`.
proof fn lemma_digit_run(s: Seq<char>, from: int, to: int)
    requires
        0 <= from <= to <= s.len(),
        forall|i: int| from <= i < to ==> is_digit(#[trigger] s[i]),
        to == s.len() || !is_digit(s[to]),
    ensures
        digit_run(s, from) == to - from,
    decreases to - from,
{
    if from < to {
        lemma_digit_run(s, from + 1, to);
    }
}

/// With at most six digits the only separator stands before the last
/// three, and with at most three there is none.
proof fn lemma_grouped_small(d: Seq<char>, i: int)
    requires
        d.len() <= 6,
        0 <= i <= d.len(),
    ensures
        grouped_from(d, i) == (if d.len() > 3 && i <= d.len() - 3 {
            d.subrange(i, d.len() - 3) + seq!['.'] + d.skip(d.len() - 3)
        } else {
            d.skip(i)
        }),
    decreases d.len() - i,
{
    if i < d.len() {
        lemma_grouped_small(d, i + 1);
        let rest = grouped_from(d, i + 1);
        let len = d.len() as int;
        if i > 0 && (len - i) % 3 == 0 {
            assert(len - i == 3);
            assert(grouped_from(d, i) == seq!['.', d[i]] + rest);
            assert(rest == d.skip(i + 1));
            assert(d.subrange(i, len - 3) + seq!['.'] + d.skip(len - 3) == seq!['.', d[i]] + rest);
        } else {
            assert(grouped_from(d, i) == seq![d[i]] + rest);
            if len > 3 && i <= len - 3 {
                if i == len - 3 {
                    assert(i == 0);
                    assert(len == 3);
                } else {
                    assert(d.subrange(i, len - 3) + seq!['.'] + d.skip(len - 3) == seq![d[i]] + (
                    d.subrange(i + 1, len - 3) + seq!['.'] + d.skip(len - 3)));
                }
            } else {
                assert(d.skip(i) == seq![d[i]] + d.skip(i + 1));
            }
        }
    } else {
        assert(d.skip(i) == Seq::<char>::empty());
    }
}

/// Reading a formatted price gives the same formatted price back, for
/// every amount that is shown with at most one grouping separator, that
/// is, every amount below one million.
pub proof fn lemma_normalize_keeps_price_text(n: nat)
    requires
        n < 1_000_000,
    ensures
        normalized(price_text(n)) == price_text(n),
{
    let d = decimal(n);
    let g = grouped_from(d, 0);
    let len = d.len() as int;
    lemma_decimal_denotes(n);
    assert(pow10(6) == 1_000_000) by {
        reveal_with_fuel(pow10, 7);
    }
    lemma_decimal_len(n, 6, 1_000_000);
    lemma_grouped_small(d, 0);
    assert(price_text(n).skip(2) == g);
    assert(currency_prefix().is_prefix_of(price_text(n)));
    if len <= 3 {
        assert(g == d);
        lemma_digit_run(g, 0, len);
        assert(token_digits(g) == d);
    } else {
        let lead = len - 3;
        assert(g.len() == len + 1);
        assert(g[lead] == '.');
        assert forall|i: int| 0 <= i < lead implies is_digit(#[trigger] g[i]) by {
            assert(g[i] == d[i]);
        }
        assert forall|i: int| lead + 1 <= i < len + 1 implies is_digit(#[trigger] g[i]) by {
            assert(g[i] == d[i - 1]);
        }
        lemma_digit_run(g, 0, lead);
        lemma_digit_run(g, lead + 1, len + 1);
        assert(g.subrange(0, lead) + g.subrange(lead + 1, lead + 4) == d);
        assert(token_digits(g) == d);
    }
    assert(token_value(g) == Some(n as u64));
}

/// Whether `c` is a decimal digit.
pub fn is_digit_char(c: char) -> (b: bool)
    ensures
        b == is_digit(c),
{
    '0' <= c && c <= '9'
}

/// How many decimal digits stand in `s` from position `from` on, without a
/// break.
pub fn digit_run_len(s: &Vec<char>, from: usize) -> (n: usize)
    ensures
        n == digit_run(s@, from as int),
        from <= s@.len() ==> from + n <= s@.len(),
        forall|i: int| from <= i < from + n ==> is_digit(#[trigger] s@[i]),
{
    if from > s.len() {
        return 0;
    }
    let mut end: usize = from;
    while end < s.len() && is_digit_char(s[end])
        invariant
            from <= end <= s@.len(),
            digit_run(s@, from as int) == (end - from) + digit_run(s@, end as int),
            forall|i: int| from <= i < end ==> is_digit(#[trigger] s@[i]),
        decreases s@.len() - end,
    {
        end += 1;
    }
    end - from
}

/// The number that the text `digits` denotes, if it holds decimal digits
/// alone, at least one, and the number fits in 64 bits.
pub fn parse_digits(digits: &Vec<char>) -> (value: Option<u64>)
    ensures
        value == amount_of(digits@),
{
    if digits.len() == 0 {
        return None;
    }
    let mut acc: u64 = 0;
    let mut i: usize = 0;
    while i < digits.len()
        invariant
            i <= digits@.len(),
            forall|k: int| 0 <= k < i ==> is_digit(#[trigger] digits@[k]),
            acc == number(digits@.take(i as int)),
        decreases digits@.len() - i,
    {
        let c = digits[i];
        if !is_digit_char(c) {
            return None;
        }
        let d: u64 = (c as u32 - 48) as u64;
        proof {
            assert(digits@.take(i + 1).drop_last() == digits@.take(i as int));
            assert(number(digits@.take(i + 1)) == acc * 10 + d);
            lemma_number_prefix(digits@, i + 1);
        }
        if acc > (u64::MAX - d) / 10 {
            return None;
        }
        acc = acc * 10 + d;
        i += 1;
    }
    assert(digits@.take(i as int) == digits@);
    Some(acc)
}

/// Reads the price token at the start of `s`, the text that follows a
/// currency prefix, and returns its amount.
pub fn read_price_token(s: &Vec<char>) -> (value: Option<u64>)
    ensures
        value == token_value(s@),
{
    let lead = digit_run_len(s, 0);
    let mut digits: Vec<char> = Vec::new();
    let mut i: usize = 0;
    while i < lead
        invariant
            i <= lead <= s@.len(),
            digits@ == s@.subrange(0, i as int),
        decreases lead - i,
    {
        digits.push(s[i]);
        i += 1;
    }
    if lead < s.len() && s[lead] == '.' {
        let run = digit_run_len(s, lead + 1);
        let tail = if run < 3 { run } else { 3 };
        let mut j: usize = 0;
        while j < tail
            invariant
                j <= tail,
                lead + 1 + tail <= s@.len() <= usize::MAX,
                digits@ == s@.subrange(0, lead as int) + s@.subrange(lead + 1, lead + 1 + j),
            decreases tail - j,
        {
            digits.push(s[lead + 1 + j]);
            j += 1;
        }
    }
    assert(digits@ == token_digits(s@));
    parse_digits(&digits)
}

/// Brings a price found on a page into display form. The text must begin
/// with the currency prefix; the token behind it is read and formatted
/// anew. Text without a prefix or without a readable amount gives the zero
/// price.
pub fn normalize_price(text: &str) -> (price: String)
    ensures
        price@ == normalized(text@),
{
    let chars = chars_of(text);
    if chars.len() >= 2 && chars[0] == 'R' && chars[1] == 'p' {
        assert(currency_prefix().is_prefix_of(chars@)) by {
            assert(chars@.subrange(0, 2) == currency_prefix());
        }
        let rest = tail_of(&chars, 2);
        match read_price_token(&rest) {
            Some(n) => format_price(n),
            None => format_price(0),
        }
    } else {
        assert(!currency_prefix().is_prefix_of(chars@)) by {
            if currency_prefix().is_prefix_of(chars@) {
                assert(chars@.subrange(0, 2) == currency_prefix());
                assert(currency_prefix()[0] == 'R' && currency_prefix()[1] == 'p');
            }
        }
        format_price(0)
    }
}

} // verus!
