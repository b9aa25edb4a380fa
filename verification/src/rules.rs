//! The tests by which a text found on a card is taken for a name, a
//! rating, a sold count or a shop location, and the cleaning of a price.

use vstd::prelude::*;
use crate::price::{
    all_digits, amount_of, currency_prefix, digit_run, digit_run_len, is_digit, is_digit_char,
    number, parse_digits,
};
use crate::profile::{char_lists, SiteProfile, SiteProfileView};
use crate::text::{
    chars_of, contains, contains_text, has_prefix, lowercase, matches_at, occurs_at, slice_of,
    starts_with, string_of, trim, trimmed,
};

verus! {

/// Whether `s` holds nothing but digits, dots and commas.
pub open spec fn numbers_only(s: Seq<char>) -> bool {
    forall|i: int| 0 <= i < s.len() ==> is_digit(#[trigger] s[i]) || s[i] == '.' || s[i] == ','
}

/// Whether `s` holds nothing but digits, dots and commas.
pub fn is_numbers_only(s: &Vec<char>) -> (b: bool)
    ensures
        b == numbers_only(s@),
{
    let mut i: usize = 0;
    while i < s.len()
        invariant
            i <= s@.len(),
            forall|j: int| 0 <= j < i ==> is_digit(#[trigger] s@[j]) || s@[j] == '.' || s@[j] == ',',
        decreases s@.len() - i,
    {
        let c = s[i];
        if !(is_digit_char(c) || c == '.' || c == ',') {
            return false;
        }
        i += 1;
    }
    true
}

/// `s` with every occurrence of `pat` taken out, reading from the left;
/// what is left is not searched again. The empty text occurs nowhere.
pub open spec fn without(s: Seq<char>, pat: Seq<char>) -> Seq<char>
    recommends
        pat.len() > 0,
    decreases s.len(),
{
    if pat.len() == 0 || s.len() < pat.len() {
        s
    } else if occurs_at(s, pat, 0) {
        without(s.skip(pat.len() as int), pat)
    } else {
        seq![s[0]] + without(s.skip(1), pat)
    }
}

/// Takes every occurrence of `pat` out of `s`.
pub fn remove_all(s: &Vec<char>, pat: &Vec<char>) -> (rest: Vec<char>)
    ensures
        rest@ == without(s@, pat@),
{
    let n = s.len();
    let m = pat.len();
    if m == 0 {
        assert(s@.subrange(0, n as int) == s@);
        return slice_of(s, 0, n);
    }
    let mut rest: Vec<char> = Vec::new();
    let mut i: usize = 0;
    assert(s@.skip(0) == s@);
    while i < n
        invariant
            i <= n,
            n == s@.len(),
            m == pat@.len(),
            m > 0,
            rest@ + without(s@.skip(i as int), pat@) == without(s@, pat@),
        decreases n - i,
    {
        let ghost tail = s@.skip(i as int);
        let ghost before = rest@;
        if matches_at(s, pat, i) {
            assert(occurs_at(tail, pat@, 0)) by {
                assert(tail.subrange(0, m as int) == s@.subrange(i as int, i + m));
            }
            assert(tail.skip(m as int) == s@.skip(i + m));
            i += m;
        } else {
            assert(!occurs_at(tail, pat@, 0)) by {
                if tail.len() >= m {
                    assert(tail.subrange(0, m as int) == s@.subrange(i as int, i + m));
                }
            }
            rest.push(s[i]);
            proof {
                assert(tail.skip(1) == s@.skip(i + 1));
                if tail.len() < m {
                    lemma_without_short(tail, pat@);
                    lemma_without_short(tail.skip(1), pat@);
                    assert(seq![tail[0]] + tail.skip(1) == tail);
                }
                assert(rest@ + without(s@.skip(i + 1), pat@) == before + without(tail, pat@));
            }
            i += 1;
        }
    }
    assert(rest@ + Seq::<char>::empty() == rest@);
    rest
}

/// A text shorter than the pattern holds no occurrence of it.
proof fn lemma_without_short(s: Seq<char>, pat: Seq<char>)
    requires
        s.len() < pat.len(),
    ensures
        without(s, pat) == s,
{
}

/// The amount shown in the element that holds the price to pay: its text
/// without currency prefix, dots and commas, if that is a number that fits
/// in 64 bits.
pub open spec fn boxed_amount(text: Seq<char>) -> Option<u64> {
    amount_of(
        trim(without(without(without(trim(text), seq!['R', 'p']), seq!['.']), seq![','])),
    )
}

/// Whether every character of `s` is a decimal digit.
pub fn is_all_digits(s: &Vec<char>) -> (b: bool)
    ensures
        b == all_digits(s@),
{
    let mut i: usize = 0;
    while i < s.len()
        invariant
            i <= s@.len(),
            forall|j: int| 0 <= j < i ==> is_digit(#[trigger] s@[j]),
        decreases s@.len() - i,
    {
        if !is_digit_char(s[i]) {
            return false;
        }
        i += 1;
    }
    true
}

/// Reads the amount shown in the element that holds the price to pay.
pub fn read_boxed_amount(text: &Vec<char>) -> (amount: Option<u64>)
    ensures
        amount == boxed_amount(text@),
{
    let prefix: Vec<char> = vec!['R', 'p'];
    let dot: Vec<char> = vec!['.'];
    let comma: Vec<char> = vec![','];
    assert(prefix@ == seq!['R', 'p']);
    assert(dot@ == seq!['.']);
    assert(comma@ == seq![',']);
    let shown = trimmed(text);
    let bare = remove_all(&shown, &prefix);
    let undotted = remove_all(&bare, &dot);
    let digits = remove_all(&undotted, &comma);
    parse_digits(&trimmed(&digits))
}

/// Whether `s` begins with a sign.
pub open spec fn has_sign(s: Seq<char>) -> bool {
    s.len() > 0 && (s[0] == '+' || s[0] == '-')
}

/// `s` without its sign, if it has one.
pub open spec fn unsigned_part(s: Seq<char>) -> Seq<char> {
    if has_sign(s) {
        s.skip(1)
    } else {
        s
    }
}

/// Whether `u` is a decimal number without sign: digits, with at most
/// one point among them or at either end, at least one digit in all, and
/// nothing else.
pub open spec fn is_decimal(u: Seq<char>) -> bool {
    let whole = digit_run(u, 0) as int;
    let fraction = digit_run(u, whole + 1) as int;
    if whole == u.len() {
        whole > 0
    } else {
        u[whole] == '.' && whole + 1 + fraction == u.len() && whole + fraction > 0
    }
}

/// Whether the decimal number `u`, written without sign, is at most five.
pub open spec fn at_most_five(u: Seq<char>) -> bool {
    let whole = digit_run(u, 0) as int;
    let value = number(u.take(whole));
    value < 5 || (value == 5 && forall|i: int| whole < i < u.len() ==> #[trigger] u[i] == '0')
}

/// Whether `t` is a decimal number, with or without sign, that is at most
/// five: what a rating may hold. The comparison is exact, on the decimal
/// digits.
pub open spec fn decimal_rating(t: Seq<char>) -> bool {
    let u = unsigned_part(t);
    is_decimal(u) && (t[0] == '-' || at_most_five(u))
}

/// The decimal point as a text.
pub open spec fn point() -> Seq<char> {
    seq!['.']
}

/// Whether `t` reads as a rating on a card: it holds a decimal point and
/// is a decimal number that is at most five.
pub open spec fn rating_like(t: Seq<char>) -> bool {
    contains(t, point()) && decimal_rating(t)
}

/// The number that the digits `s[..end]` denote, or six if it is larger.
fn capped_number(s: &Vec<char>, end: usize) -> (value: u64)
    requires
        end <= s@.len(),
        forall|i: int| 0 <= i < end ==> is_digit(#[trigger] s@[i]),
    ensures
        value == (if number(s@.take(end as int)) < 6 {
            number(s@.take(end as int))
        } else {
            6
        }),
{
    let mut value: u64 = 0;
    let mut i: usize = 0;
    while i < end
        invariant
            i <= end <= s@.len(),
            forall|k: int| 0 <= k < end ==> is_digit(#[trigger] s@[k]),
            value <= 6,
            value == (if number(s@.take(i as int)) < 6 {
                number(s@.take(i as int))
            } else {
                6
            }),
        decreases end - i,
    {
        let c = s[i];
        assert(is_digit(c));
        let d: u64 = (c as u32 - 48) as u64;
        proof {
            assert(s@.take(i + 1).drop_last() == s@.take(i as int));
            assert(number(s@.take(i + 1)) == number(s@.take(i as int)) * 10 + d);
        }
        let next = value * 10 + d;
        value = if next < 6 { next } else { 6 };
        i += 1;
    }
    value
}

/// Whether `t` is a decimal number that is at most five.
#[verifier::loop_isolation(false)]
pub fn is_decimal_rating(t: &Vec<char>) -> (b: bool)
    ensures
        b == decimal_rating(t@),
{
    let signed = t.len() > 0 && (t[0] == '+' || t[0] == '-');
    let u = if signed { slice_of(t, 1, t.len()) } else { slice_of(t, 0, t.len()) };
    assert(u@ == unsigned_part(t@));
    let whole = digit_run_len(&u, 0);
    if whole == u.len() {
        if whole == 0 {
            return false;
        }
    } else {
        if u[whole] != '.' {
            return false;
        }
        let fraction = digit_run_len(&u, whole + 1);
        if whole + 1 + fraction != u.len() || whole + fraction == 0 {
            return false;
        }
    }
    if t[0] == '-' {
        return true;
    }
    let value = capped_number(&u, whole);
    if value < 5 {
        return true;
    }
    if value > 5 {
        return false;
    }
    let mut i: usize = whole;
    while i < u.len()
        invariant
            whole <= i <= u@.len(),
            forall|k: int| whole < k < i ==> #[trigger] u@[k] == '0',
        decreases u@.len() - i,
    {
        if i > whole && u[i] != '0' {
            assert(u@[i as int] != '0');
            return false;
        }
        i += 1;
    }
    true
}

/// Whether `t` reads as a rating on a card.
pub fn is_rating_like(t: &Vec<char>) -> (b: bool)
    ensures
        b == rating_like(t@),
{
    let dot: Vec<char> = vec!['.'];
    assert(dot@ == point());
    contains_text(t, &dot) && is_decimal_rating(t)
}

/// Whether one of `words` stands somewhere in `t`.
pub open spec fn contains_any(t: Seq<char>, words: Seq<Seq<char>>) -> bool {
    exists|k: int| 0 <= k < words.len() && contains(t, #[trigger] words[k])
}

/// Whether one of `words` stands somewhere in `t`.
pub fn contains_any_of(t: &Vec<char>, words: &Vec<Vec<char>>) -> (b: bool)
    ensures
        b == contains_any(t@, char_lists(words@)),
{
    let mut k: usize = 0;
    while k < words.len()
        invariant
            k <= words@.len(),
            forall|j: int| 0 <= j < k ==> !contains(t@, #[trigger] char_lists(words@)[j]),
        decreases words@.len() - k,
    {
        if contains_text(t, &words[k]) {
            assert(contains(t@, char_lists(words@)[k as int]));
            return true;
        }
        k += 1;
    }
    false
}

/// What a text on a card may be taken for.
#[derive(Debug, Clone, Copy, PartialEq, Eq, Structural)]
pub enum TextTest {
    /// A product name.
    Name,
    /// A rating.
    Rating,
    /// A sold count.
    Sold,
    /// A shop location.
    Place,
    /// A price as the page shows it.
    ShownPrice,
}

/// Whether `t` may be a product name: it is longer than the threshold and
/// looks neither like a price nor like a sold count, nor, where the site
/// asks for it, like a bare number.
pub open spec fn name_like(p: SiteProfileView, t: Seq<char>) -> bool {
    &&& t.len() > p.name_min_chars
    &&& !starts_with(t, currency_prefix())
    &&& !contains(t, p.sold_marker)
    &&& p.name_skips_numbers ==> !numbers_only(t)
}

/// Whether `t` is a sold count: its lower-case form holds the marker.
pub open spec fn sold_like(p: SiteProfileView, t: Seq<char>) -> bool {
    contains(lowercase(t), p.sold_marker)
}

/// Whether `t` names a place.
pub open spec fn place_like(p: SiteProfileView, t: Seq<char>) -> bool {
    contains_any(t, p.places)
}

/// Whether `t` may be the price as the page shows it: it begins with the
/// currency prefix and holds no blocked word.
pub open spec fn shown_price_like(p: SiteProfileView, t: Seq<char>) -> bool {
    starts_with(t, currency_prefix()) && !contains_any(t, p.price_blockers)
}

/// Whether the text `t` passes `test` on the site `p`.
pub open spec fn passes(p: SiteProfileView, test: TextTest, t: Seq<char>) -> bool {
    match test {
        TextTest::Name => name_like(p, t),
        TextTest::Rating => rating_like(t),
        TextTest::Sold => sold_like(p, t),
        TextTest::Place => place_like(p, t),
        TextTest::ShownPrice => shown_price_like(p, t),
    }
}

/// Whether `t` begins with the currency prefix.
pub fn has_currency_prefix(t: &Vec<char>) -> (b: bool)
    ensures
        b == starts_with(t@, currency_prefix()),
{
    let rp: Vec<char> = vec!['R', 'p'];
    assert(rp@ == currency_prefix());
    has_prefix(t, &rp)
}

/// Whether the text `t` passes `test` on the site `profile`.
pub fn check(profile: &SiteProfile, test: TextTest, t: &Vec<char>) -> (b: bool)
    ensures
        b == passes(profile@, test, t@),
{
    match test {
        TextTest::Name => {
            t.len() > profile.name_min_chars && !has_currency_prefix(t) && !contains_text(
                t,
                &profile.sold_marker,
            ) && (!profile.name_skips_numbers || !is_numbers_only(t))
        },
        TextTest::Rating => is_rating_like(t),
        TextTest::Sold => {
            let text = string_of(t);
            let lower = chars_of(text.as_str().to_lowercase().as_str());
            contains_text(&lower, &profile.sold_marker)
        },
        TextTest::Place => contains_any_of(t, &profile.places),
        TextTest::ShownPrice => has_currency_prefix(t) && !contains_any_of(
            t,
            &profile.price_blockers,
        ),
    }
}

/// The first of `texts` at or after position `from` that passes `test`.
pub open spec fn first_passing(
    p: SiteProfileView,
    test: TextTest,
    texts: Seq<Seq<char>>,
    from: int,
) -> Option<int>
    decreases texts.len() - from,
{
    if from < 0 || from >= texts.len() {
        None
    } else if passes(p, test, texts[from]) {
        Some(from)
    } else {
        first_passing(p, test, texts, from + 1)
    }
}

/// The last of the first `n` of `texts` that passes `test`.
pub open spec fn last_passing(p: SiteProfileView, test: TextTest, texts: Seq<Seq<char>>, n: int)
    -> Option<int>
    decreases n,
{
    if n <= 0 || n > texts.len() {
        None
    } else if passes(p, test, texts[n - 1]) {
        Some(n - 1)
    } else {
        last_passing(p, test, texts, n - 1)
    }
}

/// The longest of the first `n` of `texts` that passes `test`; of several
/// of that length, the last.
pub open spec fn longest_passing(
    p: SiteProfileView,
    test: TextTest,
    texts: Seq<Seq<char>>,
    n: int,
) -> Option<int>
    decreases n,
{
    if n <= 0 || n > texts.len() {
        None
    } else {
        let before = longest_passing(p, test, texts, n - 1);
        if passes(p, test, texts[n - 1]) && (before matches Some(b) ==> texts[b].len()
            <= texts[n - 1].len()) {
            Some(n - 1)
        } else {
            before
        }
    }
}

/// What `first_passing` finds is the first text that passes: it passes,
/// and none before it does.
pub proof fn lemma_first_passing(
    p: SiteProfileView,
    test: TextTest,
    texts: Seq<Seq<char>>,
    from: int,
)
    requires
        0 <= from,
    ensures
        match first_passing(p, test, texts, from) {
            Some(i) => from <= i < texts.len() && passes(p, test, texts[i]) && forall|j: int|
                from <= j < i ==> !passes(p, test, #[trigger] texts[j]),
            None => forall|j: int| from <= j < texts.len() ==> !passes(p, test, #[trigger] texts[j]),
        },
    decreases texts.len() - from,
{
    if from < texts.len() && !passes(p, test, texts[from]) {
        lemma_first_passing(p, test, texts, from + 1);
    }
}

/// What `last_passing` finds is the last text that passes: it passes,
/// and none behind it does.
pub proof fn lemma_last_passing(p: SiteProfileView, test: TextTest, texts: Seq<Seq<char>>, n: int)
    requires
        n <= texts.len(),
    ensures
        match last_passing(p, test, texts, n) {
            Some(i) => 0 <= i < n && passes(p, test, texts[i]) && forall|j: int|
                i < j < n ==> !passes(p, test, #[trigger] texts[j]),
            None => forall|j: int| 0 <= j < n ==> !passes(p, test, #[trigger] texts[j]),
        },
    decreases n,
{
    if n > 0 && !passes(p, test, texts[n - 1]) {
        lemma_last_passing(p, test, texts, n - 1);
    }
}

/// What `longest_passing` finds passes the test, no passing text is
/// longer, and no passing text behind it is as long.
pub proof fn lemma_longest_passing(
    p: SiteProfileView,
    test: TextTest,
    texts: Seq<Seq<char>>,
    n: int,
)
    requires
        n <= texts.len(),
    ensures
        match longest_passing(p, test, texts, n) {
            Some(i) => {
                &&& 0 <= i < n
                &&& passes(p, test, texts[i])
                &&& forall|j: int|
                    0 <= j < n && passes(p, test, #[trigger] texts[j]) ==> texts[j].len()
                        <= texts[i].len()
                &&& forall|j: int|
                    i < j < n && passes(p, test, #[trigger] texts[j]) ==> texts[j].len()
                        < texts[i].len()
            },
            None => forall|j: int| 0 <= j < n ==> !passes(p, test, #[trigger] texts[j]),
        },
    decreases n,
{
    if n > 0 {
        lemma_longest_passing(p, test, texts, n - 1);
    }
}

/// Finds the first of `texts` that passes `test`.
pub fn find_first(profile: &SiteProfile, test: TextTest, texts: &Vec<Vec<char>>) -> (found: Option<
    usize,
>)
    ensures
        match found {
            Some(i) => first_passing(profile@, test, char_lists(texts@), 0) == Some(i as int),
            None => first_passing(profile@, test, char_lists(texts@), 0) is None,
        },
{
    let mut i: usize = 0;
    while i < texts.len()
        invariant
            i <= texts@.len(),
            first_passing(profile@, test, char_lists(texts@), 0) == first_passing(
                profile@,
                test,
                char_lists(texts@),
                i as int,
            ),
        decreases texts@.len() - i,
    {
        if check(profile, test, &texts[i]) {
            return Some(i);
        }
        i += 1;
    }
    None
}

/// Finds the last of `texts` that passes `test`.
pub fn find_last(profile: &SiteProfile, test: TextTest, texts: &Vec<Vec<char>>) -> (found: Option<
    usize,
>)
    ensures
        match found {
            Some(i) => last_passing(profile@, test, char_lists(texts@), texts@.len() as int)
                == Some(i as int),
            None => last_passing(profile@, test, char_lists(texts@), texts@.len() as int) is None,
        },
{
    let mut n: usize = texts.len();
    while n > 0
        invariant
            n <= texts@.len(),
            last_passing(profile@, test, char_lists(texts@), texts@.len() as int) == last_passing(
                profile@,
                test,
                char_lists(texts@),
                n as int,
            ),
        decreases n,
    {
        if check(profile, test, &texts[n - 1]) {
            return Some(n - 1);
        }
        n -= 1;
    }
    None
}

/// Finds the longest of `texts` that passes `test`; of several of that
/// length, the last.
pub fn find_longest(profile: &SiteProfile, test: TextTest, texts: &Vec<Vec<char>>) -> (found:
    Option<usize>)
    ensures
        match found {
            Some(i) => longest_passing(profile@, test, char_lists(texts@), texts@.len() as int)
                == Some(i as int) && i < texts@.len(),
            None => longest_passing(profile@, test, char_lists(texts@), texts@.len() as int)
                is None,
        },
{
    let mut best: Option<usize> = None;
    let mut i: usize = 0;
    while i < texts.len()
        invariant
            i <= texts@.len(),
            match best {
                Some(b) => longest_passing(profile@, test, char_lists(texts@), i as int) == Some(
                    b as int,
                ) && b < i,
                None => longest_passing(profile@, test, char_lists(texts@), i as int) is None,
            },
        decreases texts@.len() - i,
    {
        if check(profile, test, &texts[i]) {
            let longer = match best {
                Some(b) => texts[b].len() <= texts[i].len(),
                None => true,
            };
            if longer {
                best = Some(i);
            }
        }
        i += 1;
    }
    best
}

} // verus!
