use vstd::prelude::*;
use vstd::string::*;
use crate::breaker_codec::StoreError;

verus! {

/// Magnitudes above this many whole units cannot be held in cents as `i64`.
const UNITS_CAP: u64 = 100_000_000_000_000_000;

pub open spec fn is_digit(c: char) -> bool {
    48 <= (c as u32) <= 57
}

pub open spec fn digit_value(c: char) -> int {
    (c as u32) - 48
}

pub open spec fn all_digits(s: Seq<char>) -> bool {
    forall|i: int| 0 <= i < s.len() ==> is_digit(#[trigger] s[i])
}

/// The number that a run of decimal digits spells.
pub open spec fn digits_value(s: Seq<char>) -> int
    decreases s.len(),
{
    if s.len() == 0 {
        0
    } else {
        digits_value(s.drop_last()) * 10 + digit_value(s.last())
    }
}

/// The cents that an unsigned decimal text spells: whole units, optionally
/// followed by a point and one or two digits of fraction.
pub open spec fn magnitude_text(s: Seq<char>) -> Option<int> {
    let n = s.len() as int;
    if n >= 1 && all_digits(s) {
        Some(digits_value(s) * 100)
    } else if n >= 3 && s[n - 2] == '.' && all_digits(s.take(n - 2)) && is_digit(s[n - 1]) {
        Some(digits_value(s.take(n - 2)) * 100 + digit_value(s[n - 1]) * 10)
    } else if n >= 4 && s[n - 3] == '.' && all_digits(s.take(n - 3)) && is_digit(s[n - 2])
        && is_digit(s[n - 1]) {
        Some(digits_value(s.take(n - 3)) * 100 + digit_value(s[n - 2]) * 10 + digit_value(s[n - 1]))
    } else {
        None
    }
}

/// The cents that a decimal text spells, with an optional leading minus.
pub open spec fn amount_text(s: Seq<char>) -> Option<int> {
    if s.len() > 0 && s[0] == '-' {
        match magnitude_text(s.drop_first()) {
            Some(m) => Some(-m),
            None => None,
        }
    } else {
        magnitude_text(s)
    }
}

/// What a stored amount reads as.
pub open spec fn parsed_amount(s: Seq<char>) -> Result<i64, StoreError> {
    match amount_text(s) {
        Some(v) => if i64::MIN <= v <= i64::MAX {
            Ok(v as i64)
        } else {
            Err(StoreError::InvalidAmount)
        },
        None => Err(StoreError::InvalidAmount),
    }
}

proof fn lemma_digits_value_nonneg(s: Seq<char>)
    requires
        all_digits(s),
    ensures
        digits_value(s) >= 0,
    decreases s.len(),
{
    if s.len() > 0 {
        assert(all_digits(s.drop_last())) by {
            assert forall|i: int| 0 <= i < s.drop_last().len() implies is_digit(
                #[trigger] s.drop_last()[i],
            ) by {
                assert(s.drop_last()[i] == s[i]);
            }
        }
        lemma_digits_value_nonneg(s.drop_last());
        assert(is_digit(s[s.len() - 1]));
    }
}

/// The characters of a text, one by one.
fn chars_of(s: &str) -> (r: Vec<char>)
    ensures
        r@ == s@,
{
    let n = s.unicode_len();
    let mut r: Vec<char> = Vec::new();
    let mut i: usize = 0;
    while i < n
        invariant
            n == s@.len(),
            i <= n,
            r@ == s@.take(i as int),
        decreases n - i,
    {
        r.push(s.get_char(i));
        i += 1;
        assert(r@ =~= s@.take(i as int));
    }
    assert(s@.take(n as int) =~= s@);
    r
}

enum Digits {
    NotDigits,
    TooLarge,
    Value(u64),
}

/// Reads `t[from..to]` as a run of digits.
fn scan_digits(t: &Vec<char>, from: usize, to: usize) -> (r: Digits)
    requires
        from <= to <= t@.len(),
    ensures
        r is NotDigits <==> !all_digits(t@.subrange(from as int, to as int)),
        r is TooLarge ==> digits_value(t@.subrange(from as int, to as int)) > UNITS_CAP,
        r matches Digits::Value(v) ==> v == digits_value(t@.subrange(from as int, to as int)) && v
            <= UNITS_CAP,
{
    let mut acc: u64 = 0;
    let mut too_large = false;
    let mut i: usize = from;
    while i < to
        invariant
            from <= i <= to <= t@.len(),
            all_digits(t@.subrange(from as int, i as int)),
            too_large ==> digits_value(t@.subrange(from as int, i as int)) > UNITS_CAP,
            !too_large ==> acc == digits_value(t@.subrange(from as int, i as int)) && acc
                <= UNITS_CAP,
        decreases to - i,
    {
        let c = t[i];
        let code = c as u32;
        if code < 48 || code > 57 {
            assert(t@.subrange(from as int, to as int)[i - from] == c);
            return Digits::NotDigits;
        }
        let d = (code - 48) as u64;
        let ghost prev = t@.subrange(from as int, i as int);
        let ghost next = t@.subrange(from as int, i + 1);
        assert(next.drop_last() =~= prev);
        assert(next.last() == c);
        assert(all_digits(next)) by {
            assert forall|j: int| 0 <= j < next.len() implies is_digit(#[trigger] next[j]) by {
                if j < prev.len() {
                    assert(next[j] == prev[j]);
                }
            }
        }
        proof {
            lemma_digits_value_nonneg(prev);
        }
        if !too_large {
            if acc > (UNITS_CAP - d) / 10 {
                too_large = true;
            } else {
                acc = acc * 10 + d;
            }
        }
        i += 1;
    }
    if too_large {
        Digits::TooLarge
    } else {
        Digits::Value(acc)
    }
}

enum Magnitude {
    Invalid,
    Huge,
    Cents(u64),
}

/// Reads `t[start..]` as an unsigned decimal text of cents.
fn scan_magnitude(t: &Vec<char>, start: usize) -> (r: Magnitude)
    requires
        start <= t@.len(),
    ensures
        r is Invalid <==> magnitude_text(t@.subrange(start as int, t@.len() as int)) is None,
        r is Huge ==> magnitude_text(t@.subrange(start as int, t@.len() as int))->Some_0
            > 0x8000_0000_0000_0000,
        r matches Magnitude::Cents(v) ==> magnitude_text(
            t@.subrange(start as int, t@.len() as int),
        ) == Some(v as int),
{
    let n = t.len();
    let ghost body = t@.subrange(start as int, n as int);
    let m = n - start;
    if m >= 1 {
        match scan_digits(t, start, n) {
            Digits::Value(v) => {
                return Magnitude::Cents(v * 100);
            },
            Digits::TooLarge => {
                return Magnitude::Huge;
            },
            Digits::NotDigits => {},
        }
    }
    if m >= 3 && t[n - 2] == '.' && is_digit_char(t[n - 1]) {
        assert(body.take(m - 2) =~= t@.subrange(start as int, n - 2));
        assert(body[m - 2] == t@[n - 2]);
        assert(body[m - 1] == t@[n - 1]);
        match scan_digits(t, start, n - 2) {
            Digits::Value(v) => {
                let d = (t[n - 1] as u32 - 48) as u64;
                return Magnitude::Cents(v * 100 + d * 10);
            },
            Digits::TooLarge => {
                proof {
                    lemma_digits_value_nonneg(body.take(m - 2));
                }
                return Magnitude::Huge;
            },
            Digits::NotDigits => {},
        }
    }
    if m >= 4 && t[n - 3] == '.' && is_digit_char(t[n - 2]) && is_digit_char(t[n - 1]) {
        assert(body.take(m - 3) =~= t@.subrange(start as int, n - 3));
        assert(body[m - 3] == t@[n - 3]);
        assert(body[m - 2] == t@[n - 2]);
        assert(body[m - 1] == t@[n - 1]);
        match scan_digits(t, start, n - 3) {
            Digits::Value(v) => {
                let d1 = (t[n - 2] as u32 - 48) as u64;
                let d2 = (t[n - 1] as u32 - 48) as u64;
                return Magnitude::Cents(v * 100 + d1 * 10 + d2);
            },
            Digits::TooLarge => {
                return Magnitude::Huge;
            },
            Digits::NotDigits => {},
        }
    }
    assert(m >= 3 ==> body[m - 2] == t@[n - 2] && body[m - 1] == t@[n - 1]);
    assert(m >= 3 ==> body.take(m - 2) =~= t@.subrange(start as int, n - 2));
    assert(m >= 4 ==> body[m - 3] == t@[n - 3] && body.take(m - 3) =~= t@.subrange(
        start as int,
        n - 3,
    ));
    Magnitude::Invalid
}

fn is_digit_char(c: char) -> (r: bool)
    ensures
        r == is_digit(c),
{
    let code = c as u32;
    48 <= code && code <= 57
}

/// Reads a stored amount: a decimal text of whole units with up to two digits
/// of fraction and an optional leading minus, as cents.
pub fn parse_amount(raw: &str) -> (r: Result<i64, StoreError>)
    ensures
        r == parsed_amount(raw@),
{
    let t = chars_of(raw);
    let n = t.len();
    let negative = n > 0 && t[0] == '-';
    let start: usize = if negative {
        1
    } else {
        0
    };
    assert(t@.subrange(start as int, n as int) =~= (if negative {
        raw@.drop_first()
    } else {
        raw@
    }));
    match scan_magnitude(&t, start) {
        Magnitude::Invalid => Err(StoreError::InvalidAmount),
        Magnitude::Huge => Err(StoreError::InvalidAmount),
        Magnitude::Cents(v) => {
            if negative {
                if v > 0x8000_0000_0000_0000 {
                    Err(StoreError::InvalidAmount)
                } else {
                    Ok((0 - (v as i128)) as i64)
                }
            } else {
                if v > 0x7fff_ffff_ffff_ffff {
                    Err(StoreError::InvalidAmount)
                } else {
                    Ok(v as i64)
                }
            }
        },
    }
}

/// The character of a decimal digit.
pub open spec fn digit_char(d: int) -> char {
    if d == 0 {
        '0'
    } else if d == 1 {
        '1'
    } else if d == 2 {
        '2'
    } else if d == 3 {
        '3'
    } else if d == 4 {
        '4'
    } else if d == 5 {
        '5'
    } else if d == 6 {
        '6'
    } else if d == 7 {
        '7'
    } else if d == 8 {
        '8'
    } else {
        '9'
    }
}

/// The decimal digits of `n`, without leading zeros.
pub open spec fn units_text(n: nat) -> Seq<char>
    decreases n,
{
    if n < 10 {
        seq![digit_char(n as int)]
    } else {
        units_text(n / 10).push(digit_char((n % 10) as int))
    }
}

/// The stored text of an amount of cents: an optional minus, the whole units,
/// a point and two digits of fraction.
pub open spec fn amount_chars(cents: int) -> Seq<char> {
    let m = if cents < 0 {
        -cents
    } else {
        cents
    };
    let body = units_text((m / 100) as nat) + seq![
        '.',
        digit_char((m % 100) / 10),
        digit_char(m % 10),
    ];
    if cents < 0 {
        seq!['-'] + body
    } else {
        body
    }
}

proof fn lemma_digit_char(d: int)
    requires
        0 <= d < 10,
    ensures
        is_digit(digit_char(d)),
        digit_value(digit_char(d)) == d,
{
}

proof fn lemma_units_text(n: nat)
    ensures
        units_text(n).len() >= 1,
        all_digits(units_text(n)),
        digits_value(units_text(n)) == n,
    decreases n,
{
    let t = units_text(n);
    if n < 10 {
        lemma_digit_char(n as int);
        assert(t.drop_last() =~= Seq::<char>::empty());
        assert(digits_value(Seq::<char>::empty()) == 0);
        assert(t.last() == digit_char(n as int));
    } else {
        lemma_units_text(n / 10);
        lemma_digit_char((n % 10) as int);
        assert(t.drop_last() =~= units_text(n / 10));
        assert(t.last() == digit_char((n % 10) as int));
        assert(digits_value(t) == digits_value(units_text(n / 10)) * 10 + (n % 10) as int);
        assert((n / 10) * 10 + n % 10 == n);
        assert forall|i: int| 0 <= i < t.len() implies is_digit(#[trigger] t[i]) by {
            if i < t.len() - 1 {
                assert(t[i] == units_text(n / 10)[i]);
            }
        }
    }
}

/// Every amount of cents reads back, from its stored text, as itself.
pub proof fn lemma_amount_round_trip(cents: i64)
    ensures
        parsed_amount(amount_chars(cents as int)) == Ok::<i64, StoreError>(cents),
{
    let c = cents as int;
    let m = if c < 0 {
        -c
    } else {
        c
    };
    let u = units_text((m / 100) as nat);
    let body = u + seq!['.', digit_char((m % 100) / 10), digit_char(m % 10)];
    lemma_units_text((m / 100) as nat);
    lemma_digit_char((m % 100) / 10);
    lemma_digit_char(m % 10);
    let n = body.len() as int;
    assert(body[n - 3] == '.');
    assert(!is_digit(body[n - 3]));
    assert(!all_digits(body));
    assert(body[n - 2] != '.');
    assert(body.take(n - 3) =~= u);
    assert(magnitude_text(body) == Some(m)) by {
        assert(body[n - 2] == digit_char((m % 100) / 10));
        assert(body[n - 1] == digit_char(m % 10));
        assert((m / 100) * 100 + ((m % 100) / 10) * 10 + m % 10 == m);
    }
    assert(body[0] == u[0]);
    assert(is_digit(u[0]));
    if c < 0 {
        assert((seq!['-'] + body).drop_first() =~= body);
    }
}

/// Appends the decimal digits of `n`.
fn push_units(n: u64, out: &mut Vec<char>)
    ensures
        final(out)@ == old(out)@ + units_text(n as nat),
    decreases n,
{
    if n >= 10 {
        push_units(n / 10, out);
    }
    out.push(digit_to_char(n % 10));
    assert(n < 10 ==> n % 10 == n);
    assert(final(out)@ =~= old(out)@ + units_text(n as nat));
}

fn digit_to_char(d: u64) -> (c: char)
    requires
        d < 10,
    ensures
        c == digit_char(d as int),
{
    if d == 0 {
        '0'
    } else if d == 1 {
        '1'
    } else if d == 2 {
        '2'
    } else if d == 3 {
        '3'
    } else if d == 4 {
        '4'
    } else if d == 5 {
        '5'
    } else if d == 6 {
        '6'
    } else if d == 7 {
        '7'
    } else if d == 8 {
        '8'
    } else {
        '9'
    }
}

/// The text that stores an amount of cents; it always reads back as the same
/// amount.
pub fn format_amount(cents: i64) -> (r: Vec<char>)
    ensures
        r@ == amount_chars(cents as int),
        parsed_amount(r@) == Ok::<i64, StoreError>(cents),
{
    let m: u64 = if cents < 0 {
        (0 - (cents as i128)) as u64
    } else {
        cents as u64
    };
    let mut r: Vec<char> = Vec::new();
    if cents < 0 {
        r.push('-');
    }
    push_units(m / 100, &mut r);
    r.push('.');
    r.push(digit_to_char((m % 100) / 10));
    r.push(digit_to_char(m % 10));
    proof {
        lemma_amount_round_trip(cents);
    }
    assert(r@ =~= amount_chars(cents as int));
    r
}

} // verus!
