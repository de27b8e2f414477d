//! Exact conversion between the chain's major unit and its base units
//! ("wei"): one major unit is 10^18 base units. A human-entered decimal
//! string is converted without silent precision loss: more than 18
//! fractional digits, a negative or non-numeric input, or a value that
//! does not fit the amount type is an error, never a truncation.

use vstd::prelude::*;
use vstd::string::StrSliceExecFns;
use vstd::string::StringExecFns;
use crate::error::TransferError;

verus! {

/// Decimal places of the major unit: one major unit is 10^18 base units.
pub const MAJOR_UNIT_DECIMALS: usize = 18;

/// Base units in one major unit: 10^18.
pub const WEI_PER_MAJOR: u128 = 1_000_000_000_000_000_000;

/// Whether `c` is a decimal digit.
pub open spec fn is_dec_digit(c: char) -> bool {
    48 <= c as int && c as int <= 57
}

/// Numeric value of a decimal digit character.
pub open spec fn digit_value(c: char) -> int {
    c as int - 48
}

/// Whether every character of `s` is a decimal digit.
pub open spec fn all_dec_digits(s: Seq<char>) -> bool {
    forall|i: int| 0 <= i < s.len() ==> is_dec_digit(#[trigger] s[i])
}

/// The number a digit string denotes, most significant digit first.
pub open spec fn digits_value(s: Seq<char>) -> int
    decreases s.len(),
{
    if s.len() == 0 {
        0
    } else {
        digits_value(s.drop_last()) * 10 + digit_value(s.last())
    }
}

/// 10 to the power `n`.
pub open spec fn pow10(n: nat) -> int
    decreases n,
{
    if n == 0 {
        1
    } else {
        10 * pow10((n - 1) as nat)
    }
}

/// Index of the first `.` in `s`, or `s.len()` when there is none.
pub open spec fn first_dot(s: Seq<char>) -> int
    decreases s.len(),
{
    if s.len() == 0 {
        0
    } else if s[0] == '.' {
        0
    } else {
        1 + first_dot(s.subrange(1, s.len() as int))
    }
}

/// The digits before the first dot.
pub open spec fn int_part(s: Seq<char>) -> Seq<char> {
    s.take(first_dot(s))
}

/// The digits after the first dot; empty when there is no dot.
pub open spec fn frac_part(s: Seq<char>) -> Seq<char> {
    if first_dot(s) < s.len() {
        s.subrange(first_dot(s) + 1, s.len() as int)
    } else {
        Seq::empty()
    }
}

/// A valid major-unit decimal string: a nonempty run of digits, optionally
/// followed by a dot and one to eighteen fractional digits.
pub open spec fn valid_amount_str(s: Seq<char>) -> bool {
    &&& int_part(s).len() >= 1
    &&& all_dec_digits(int_part(s))
    &&& (first_dot(s) == s.len() || {
        &&& frac_part(s).len() >= 1
        &&& frac_part(s).len() <= MAJOR_UNIT_DECIMALS
        &&& all_dec_digits(frac_part(s))
    })
}

/// The base-unit value a valid amount string denotes: the integer part
/// shifted by 18 decimal places, plus the fractional digits scaled to
/// their place value.
pub open spec fn amount_value(s: Seq<char>) -> int {
    digits_value(int_part(s)) * pow10(MAJOR_UNIT_DECIMALS as nat) + digits_value(frac_part(s))
        * pow10((MAJOR_UNIT_DECIMALS - frac_part(s).len()) as nat)
}

/// The minimal decimal digit string of `n`.
pub open spec fn dec_digits(n: nat) -> Seq<char>
    decreases n,
{
    if n < 10 {
        seq![digit_char(n as int)]
    } else {
        dec_digits(n / 10).push(digit_char((n % 10) as int))
    }
}

/// The decimal digit string of `n` padded with leading zeros to exactly
/// `w` digits (the low `w` digits of `n`).
pub open spec fn padded_digits(n: nat, w: nat) -> Seq<char>
    decreases w,
{
    if w == 0 {
        Seq::empty()
    } else {
        padded_digits(n / 10, (w - 1) as nat).push(digit_char((n % 10) as int))
    }
}

/// The digit character of a value between 0 and 9.
pub open spec fn digit_char(d: int) -> char {
    if d == 0 {
        '0'
    } else if d == 1 {
        '1'
    } else if d == 2 {
        '2'
    } else if d == 3 {
        '3'
    } else if d == 4 {
        '4'
    } else if d == 5 {
        '5'
    } else if d == 6 {
        '6'
    } else if d == 7 {
        '7'
    } else if d == 8 {
        '8'
    } else {
        '9'
    }
}

/// The canonical rendering of a base-unit quantity in major units: the
/// integer part, a dot, and all eighteen fractional digits.
pub open spec fn spec_format_base_units(v: u128) -> Seq<char> {
    dec_digits((v as nat) / (WEI_PER_MAJOR as nat)) + seq!['.'] + padded_digits(
        (v as nat) % (WEI_PER_MAJOR as nat),
        MAJOR_UNIT_DECIMALS as nat,
    )
}

pub proof fn lemma_pow10_pos(n: nat)
    ensures
        pow10(n) >= 1,
    decreases n,
{
    if n > 0 {
        lemma_pow10_pos((n - 1) as nat);
    }
}

pub proof fn lemma_pow10_monotone(a: nat, b: nat)
    requires
        a <= b,
    ensures
        pow10(a) <= pow10(b),
    decreases b,
{
    if a < b {
        lemma_pow10_monotone(a, (b - 1) as nat);
        lemma_pow10_pos((b - 1) as nat);
    }
}

pub proof fn lemma_pow10_add(a: nat, b: nat)
    ensures
        pow10(a + b) == pow10(a) * pow10(b),
    decreases a,
{
    if a == 0 {
    } else {
        lemma_pow10_add((a - 1) as nat, b);
        assert(pow10(a + b) == 10 * pow10((a - 1) as nat + b));
        assert(10 * (pow10((a - 1) as nat) * pow10(b)) == (10 * pow10((a - 1) as nat)) * pow10(b))
            by (nonlinear_arith);
    }
}

pub proof fn lemma_pow10_18()
    ensures
        pow10(MAJOR_UNIT_DECIMALS as nat) == WEI_PER_MAJOR,
{
    reveal_with_fuel(pow10, 19);
}

pub proof fn lemma_digits_value_nonneg(s: Seq<char>)
    requires
        all_dec_digits(s),
    ensures
        digits_value(s) >= 0,
    decreases s.len(),
{
    if s.len() > 0 {
        assert(all_dec_digits(s.drop_last()));
        lemma_digits_value_nonneg(s.drop_last());
    }
}

pub proof fn lemma_digits_value_bound(s: Seq<char>)
    requires
        all_dec_digits(s),
    ensures
        digits_value(s) < pow10(s.len()),
    decreases s.len(),
{
    if s.len() == 0 {
    } else {
        assert(all_dec_digits(s.drop_last()));
        lemma_digits_value_bound(s.drop_last());
        assert(digits_value(s.drop_last()) <= pow10((s.len() - 1) as nat) - 1);
        assert(digits_value(s.drop_last()) * 10 <= (pow10((s.len() - 1) as nat) - 1) * 10)
            by (nonlinear_arith)
            requires
                digits_value(s.drop_last()) <= pow10((s.len() - 1) as nat) - 1,
        ;
    }
}

/// Extending a digit string by one digit multiplies its value by ten and
/// adds the new digit.
pub proof fn lemma_digits_value_step(s: Seq<char>, i: int)
    requires
        0 <= i < s.len(),
    ensures
        digits_value(s.take(i + 1)) == digits_value(s.take(i)) * 10 + digit_value(s[i]),
{
    assert(s.take(i + 1).drop_last() =~= s.take(i));
    assert(s.take(i + 1).last() == s[i]);
}

/// A digit string's value is at least the value of any of its prefixes.
pub proof fn lemma_digits_value_prefix(s: Seq<char>, i: int)
    requires
        all_dec_digits(s),
        0 <= i <= s.len(),
    ensures
        digits_value(s) >= digits_value(s.take(i)),
    decreases s.len() - i,
{
    if i == s.len() {
        assert(s.take(i) =~= s);
    } else {
        lemma_digits_value_step(s, i);
        assert(all_dec_digits(s.take(i)));
        lemma_digits_value_nonneg(s.take(i));
        lemma_digits_value_prefix(s, i + 1);
    }
}

pub proof fn lemma_first_dot_range(s: Seq<char>)
    ensures
        0 <= first_dot(s) <= s.len(),
    decreases s.len(),
{
    if s.len() > 0 && s[0] != '.' {
        lemma_first_dot_range(s.subrange(1, s.len() as int));
    }
}

/// `first_dot` is the index of the first dot when one exists.
pub proof fn lemma_first_dot_at(s: Seq<char>, i: int)
    requires
        0 <= i < s.len(),
        s[i] == '.',
        forall|j: int| 0 <= j < i ==> s[j] != '.',
    ensures
        first_dot(s) == i,
    decreases s.len(),
{
    if i > 0 {
        let t = s.subrange(1, s.len() as int);
        assert(forall|j: int| 0 <= j < i - 1 ==> t[j] != '.');
        lemma_first_dot_at(t, i - 1);
    }
}

/// `first_dot` is the length when no character is a dot.
pub proof fn lemma_first_dot_none(s: Seq<char>)
    requires
        forall|j: int| 0 <= j < s.len() ==> s[j] != '.',
    ensures
        first_dot(s) == s.len(),
    decreases s.len(),
{
    if s.len() > 0 {
        let t = s.subrange(1, s.len() as int);
        lemma_first_dot_none(t);
    }
}

/// 10 to the power `n`, as a machine integer.
pub fn pow10_u128(n: usize) -> (r: u128)
    requires
        n <= MAJOR_UNIT_DECIMALS,
    ensures
        r == pow10(n as nat),
{
    proof {
        lemma_pow10_18();
    }
    let mut r: u128 = 1;
    let mut i: usize = 0;
    while i < n
        invariant
            i <= n <= MAJOR_UNIT_DECIMALS,
            r == pow10(i as nat),
            pow10(MAJOR_UNIT_DECIMALS as nat) == WEI_PER_MAJOR,
        decreases n - i,
    {
        proof {
            lemma_pow10_monotone(i as nat + 1, MAJOR_UNIT_DECIMALS as nat);
        }
        r = r * 10;
        i = i + 1;
    }
    r
}

/// The number denoted by the digit characters `s[from..to]`, or `None`
/// when some character there is not a digit or the number does not fit.
fn digits_to_u128(s: &str, from: usize, to: usize) -> (r: Option<u128>)
    requires
        from <= to <= s@.len(),
    ensures
        ({
            let part = s@.subrange(from as int, to as int);
            &&& (r is Some <==> all_dec_digits(part) && digits_value(part) <= u128::MAX)
            &&& (r matches Some(v) ==> v == digits_value(part))
        }),
{
    let ghost part = s@.subrange(from as int, to as int);
    let mut acc: u128 = 0;
    let mut i: usize = from;
    while i < to
        invariant
            from <= i <= to <= s@.len(),
            part == s@.subrange(from as int, to as int),
            all_dec_digits(part.take(i - from)),
            acc == digits_value(part.take(i - from)),
        decreases to - i,
    {
        let c = s.get_char(i);
        let u: u32 = c as u32;
        if !(48 <= u && u <= 57) {
            proof {
                assert(part[i - from] == s@[i as int]);
                assert(!is_dec_digit(part[i - from]));
            }
            return None;
        }
        let d: u128 = (u - 48) as u128;
        proof {
            assert(part.take(i - from + 1).drop_last() =~= part.take(i - from));
            assert(part.take(i - from + 1).last() == s@[i as int]);
            assert(digits_value(part.take(i - from + 1)) == digits_value(part.take(i - from)) * 10
                + digit_value(s@[i as int]));
        }
        let next: Option<u128> = match acc.checked_mul(10) {
            Some(m) => m.checked_add(d),
            None => None,
        };
        match next {
            Some(v) => {
                acc = v;
            },
            None => {
                proof {
                    if all_dec_digits(part) && digits_value(part) <= u128::MAX {
                        lemma_digits_value_prefix(part, i - from + 1);
                    }
                }
                return None;
            },
        }
        i = i + 1;
    }
    proof {
        assert(part.take(to - from) =~= part);
    }
    Some(acc)
}

/// Converts a major-unit decimal string to base units, exactly. Succeeds
/// on precisely the valid amount strings whose value fits the amount
/// type; a malformed, negative or over-precise input is an amount-format
/// error, never a silent truncation.
pub fn parse_base_units(s: &str) -> (r: Result<u128, TransferError>)
    ensures
        r is Ok <==> valid_amount_str(s@) && amount_value(s@) <= u128::MAX,
        r matches Ok(v) ==> v == amount_value(s@),
        r matches Err(e) ==> e is AmountFormat,
{
    proof {
        lemma_pow10_18();
        lemma_first_dot_range(s@);
    }
    let n = s.unicode_len();
    let mut dot: usize = n;
    let mut seen: bool = false;
    let mut i: usize = 0;
    while i < n
        invariant
            i <= n == s@.len(),
            !seen ==> dot == n && forall|j: int| 0 <= j < i ==> s@[j] != '.',
            seen ==> dot < i && s@[dot as int] == '.' && forall|j: int|
                0 <= j < dot ==> s@[j] != '.',
        decreases n - i,
    {
        if !seen && s.get_char(i) == '.' {
            dot = i;
            seen = true;
        }
        i = i + 1;
    }
    proof {
        if seen {
            lemma_first_dot_at(s@, dot as int);
        } else {
            lemma_first_dot_none(s@);
        }
        assert(first_dot(s@) == dot as int);
        assert(int_part(s@) =~= s@.subrange(0, dot as int));
    }
    if dot == 0 {
        return Err(TransferError::AmountFormat);
    }
    let iv = match digits_to_u128(s, 0, dot) {
        Some(v) => v,
        None => {
            proof {
                if valid_amount_str(s@) {
                    // the integer part is all digits, so its value must
                    // exceed the amount type; so does the whole value
                    lemma_digits_value_nonneg(int_part(s@));
                    lemma_digits_value_nonneg(frac_part(s@));
                    lemma_pow10_pos((MAJOR_UNIT_DECIMALS - frac_part(s@).len()) as nat);
                    assert(digits_value(int_part(s@)) * pow10(MAJOR_UNIT_DECIMALS as nat)
                        >= digits_value(int_part(s@)) * 1) by (nonlinear_arith)
                        requires
                            digits_value(int_part(s@)) >= 0,
                            pow10(MAJOR_UNIT_DECIMALS as nat) >= 1,
                    ;
                    assert(digits_value(frac_part(s@)) * pow10(
                        (MAJOR_UNIT_DECIMALS - frac_part(s@).len()) as nat,
                    ) >= 0) by (nonlinear_arith)
                        requires
                            digits_value(frac_part(s@)) >= 0,
                            pow10((MAJOR_UNIT_DECIMALS - frac_part(s@).len()) as nat) >= 1,
                    ;
                }
            }
            return Err(TransferError::AmountFormat);
        },
    };
    proof {
        lemma_pow10_pos(MAJOR_UNIT_DECIMALS as nat);
    }
    if dot == n {
        proof {
            assert(frac_part(s@) =~= Seq::<char>::empty());
        }
        match iv.checked_mul(WEI_PER_MAJOR) {
            Some(total) => {
                proof {
                    assert(amount_value(s@) == iv * pow10(MAJOR_UNIT_DECIMALS as nat));
                }
                Ok(total)
            },
            None => {
                proof {
                    assert(amount_value(s@) == iv * pow10(MAJOR_UNIT_DECIMALS as nat));
                }
                Err(TransferError::AmountFormat)
            },
        }
    } else {
        let flen: usize = n - dot - 1;
        proof {
            assert(frac_part(s@) =~= s@.subrange(dot as int + 1, n as int));
            assert(frac_part(s@).len() == flen);
        }
        if flen == 0 || flen > MAJOR_UNIT_DECIMALS {
            return Err(TransferError::AmountFormat);
        }
        let fv = match digits_to_u128(s, dot + 1, n) {
            Some(v) => v,
            None => {
                proof {
                    if all_dec_digits(frac_part(s@)) {
                        lemma_digits_value_bound(frac_part(s@));
                        lemma_pow10_monotone(flen as nat, MAJOR_UNIT_DECIMALS as nat);
                    }
                }
                return Err(TransferError::AmountFormat);
            },
        };
        let scale = pow10_u128(MAJOR_UNIT_DECIMALS - flen);
        proof {
            lemma_pow10_pos((MAJOR_UNIT_DECIMALS - flen) as nat);
            lemma_digits_value_bound(frac_part(s@));
            lemma_pow10_add(flen as nat, (MAJOR_UNIT_DECIMALS - flen) as nat);
            assert(fv * scale < pow10(flen as nat) * pow10((MAJOR_UNIT_DECIMALS - flen) as nat))
                by (nonlinear_arith)
                requires
                    0 <= fv < pow10(flen as nat),
                    scale == pow10((MAJOR_UNIT_DECIMALS - flen) as nat),
                    scale >= 1,
            ;
            assert(fv * scale < WEI_PER_MAJOR);
        }
        let fcontrib: u128 = fv * scale;
        match iv.checked_mul(WEI_PER_MAJOR) {
            Some(ipart) => {
                match ipart.checked_add(fcontrib) {
                    Some(total) => {
                        proof {
                            assert(amount_value(s@) == iv * pow10(MAJOR_UNIT_DECIMALS as nat) + fv
                                * pow10((MAJOR_UNIT_DECIMALS - flen) as nat));
                        }
                        Ok(total)
                    },
                    None => Err(TransferError::AmountFormat),
                }
            },
            None => {
                proof {
                    lemma_digits_value_nonneg(frac_part(s@));
                    assert(fv * scale >= 0);
                }
                Err(TransferError::AmountFormat)
            },
        }
    }
}

/// Appends the digit character of `d`.
fn push_digit_char(out: &mut String, d: u128)
    requires
        d < 10,
    ensures
        final(out)@ == old(out)@ + seq![digit_char(d as int)],
{
    if d == 0 {
        proof {
            reveal_strlit("0");
            assert("0"@ =~= seq![digit_char(0)]);
        }
        out.append("0");
    } else if d == 1 {
        proof {
            reveal_strlit("1");
            assert("1"@ =~= seq![digit_char(1)]);
        }
        out.append("1");
    } else if d == 2 {
        proof {
            reveal_strlit("2");
            assert("2"@ =~= seq![digit_char(2)]);
        }
        out.append("2");
    } else if d == 3 {
        proof {
            reveal_strlit("3");
            assert("3"@ =~= seq![digit_char(3)]);
        }
        out.append("3");
    } else if d == 4 {
        proof {
            reveal_strlit("4");
            assert("4"@ =~= seq![digit_char(4)]);
        }
        out.append("4");
    } else if d == 5 {
        proof {
            reveal_strlit("5");
            assert("5"@ =~= seq![digit_char(5)]);
        }
        out.append("5");
    } else if d == 6 {
        proof {
            reveal_strlit("6");
            assert("6"@ =~= seq![digit_char(6)]);
        }
        out.append("6");
    } else if d == 7 {
        proof {
            reveal_strlit("7");
            assert("7"@ =~= seq![digit_char(7)]);
        }
        out.append("7");
    } else if d == 8 {
        proof {
            reveal_strlit("8");
            assert("8"@ =~= seq![digit_char(8)]);
        }
        out.append("8");
    } else {
        proof {
            reveal_strlit("9");
            assert("9"@ =~= seq![digit_char(9)]);
        }
        out.append("9");
    }
}

/// Appends the minimal decimal rendering of `n`.
fn push_decimal(out: &mut String, n: u128)
    ensures
        final(out)@ == old(out)@ + dec_digits(n as nat),
    decreases n,
{
    if n >= 10 {
        push_decimal(out, n / 10);
    }
    push_digit_char(out, n % 10);
    proof {
        if n >= 10 {
            assert(dec_digits(n as nat) == dec_digits((n as nat) / 10).push(
                digit_char(((n as nat) % 10) as int),
            ));
            assert(old(out)@ + dec_digits(n as nat) =~= (old(out)@ + dec_digits((n as nat) / 10))
                + seq![digit_char(((n as nat) % 10) as int)]);
        } else {
            assert(old(out)@ + dec_digits(n as nat) =~= old(out)@ + seq![
                digit_char(((n as nat) % 10) as int),
            ]);
        }
    }
}

/// Appends the low `width` decimal digits of `n`, zero-padded.
fn push_padded(out: &mut String, n: u128, width: usize)
    ensures
        final(out)@ == old(out)@ + padded_digits(n as nat, width as nat),
    decreases width,
{
    if width > 0 {
        push_padded(out, n / 10, width - 1);
        push_digit_char(out, n % 10);
        proof {
            assert(padded_digits(n as nat, width as nat) == padded_digits(
                (n as nat) / 10,
                (width - 1) as nat,
            ).push(digit_char(((n as nat) % 10) as int)));
            assert(old(out)@ + padded_digits(n as nat, width as nat) =~= (old(out)@
                + padded_digits((n as nat) / 10, (width - 1) as nat)) + seq![
                digit_char(((n as nat) % 10) as int),
            ]);
        }
    } else {
        proof {
            assert(old(out)@ + padded_digits(n as nat, 0) =~= old(out)@);
        }
    }
}

/// Renders a base-unit quantity as a major-unit decimal string: the
/// integer part, a dot, and all eighteen fractional digits.
pub fn format_base_units(v: u128) -> (r: String)
    ensures
        r@ == spec_format_base_units(v),
{
    let mut out = String::new();
    push_decimal(&mut out, v / WEI_PER_MAJOR);
    proof {
        reveal_strlit(".");
        assert("."@ =~= seq!['.']);
    }
    out.append(".");
    push_padded(&mut out, v % WEI_PER_MAJOR, MAJOR_UNIT_DECIMALS);
    proof {
        assert(out@ =~= spec_format_base_units(v));
    }
    out
}

/// Round-trip law: rendering a base-unit quantity as a major-unit string
/// and converting that string back is exact, for every quantity.
pub proof fn lemma_units_round_trip(v: u128)
    ensures
        valid_amount_str(spec_format_base_units(v)),
        amount_value(spec_format_base_units(v)) == v,
{
    lemma_pow10_18();
    let q: nat = (v as nat) / (WEI_PER_MAJOR as nat);
    let m: nat = (v as nat) % (WEI_PER_MAJOR as nat);
    let a = dec_digits(q);
    let b = padded_digits(m, MAJOR_UNIT_DECIMALS as nat);
    let s = spec_format_base_units(v);
    lemma_dec_digits_props(q);
    lemma_padded_digits_props(m, MAJOR_UNIT_DECIMALS as nat);
    assert(s == a + seq!['.'] + b);
    assert(s[a.len() as int] == '.');
    assert forall|j: int| 0 <= j < a.len() implies s[j] != '.' by {
        assert(s[j] == a[j]);
        assert(is_dec_digit(a[j]));
    }
    lemma_first_dot_at(s, a.len() as int);
    assert(int_part(s) =~= a);
    assert(frac_part(s) =~= b);
    assert(amount_value(s) == q * pow10(MAJOR_UNIT_DECIMALS as nat) + m * pow10(0));
    assert(v == q * (WEI_PER_MAJOR as nat) + m);
}

/// The round-trip law read from the string side: a valid amount string
/// whose quantity fits the amount type converts to base units and back
/// to a string that denotes exactly the same quantity.
pub proof fn lemma_amount_string_round_trip(s: Seq<char>)
    requires
        valid_amount_str(s),
        amount_value(s) <= u128::MAX,
    ensures
        0 <= amount_value(s),
        valid_amount_str(spec_format_base_units(amount_value(s) as u128)),
        amount_value(spec_format_base_units(amount_value(s) as u128)) == amount_value(s),
{
    lemma_digits_value_nonneg(int_part(s));
    lemma_digits_value_nonneg(frac_part(s));
    lemma_pow10_pos(MAJOR_UNIT_DECIMALS as nat);
    lemma_pow10_pos((MAJOR_UNIT_DECIMALS - frac_part(s).len()) as nat);
    assert(digits_value(int_part(s)) * pow10(MAJOR_UNIT_DECIMALS as nat) >= 0) by (nonlinear_arith)
        requires
            digits_value(int_part(s)) >= 0,
            pow10(MAJOR_UNIT_DECIMALS as nat) >= 1,
    ;
    assert(digits_value(frac_part(s)) * pow10((MAJOR_UNIT_DECIMALS - frac_part(s).len()) as nat)
        >= 0) by (nonlinear_arith)
        requires
            digits_value(frac_part(s)) >= 0,
            pow10((MAJOR_UNIT_DECIMALS - frac_part(s).len()) as nat) >= 1,
    ;
    lemma_units_round_trip(amount_value(s) as u128);
}

/// The minimal decimal digit string: nonempty, all digits, and it denotes
/// the number it was built from.
pub proof fn lemma_dec_digits_props(n: nat)
    ensures
        dec_digits(n).len() >= 1,
        all_dec_digits(dec_digits(n)),
        digits_value(dec_digits(n)) == n,
    decreases n,
{
    if n < 10 {
        assert(digits_value(dec_digits(n)) == digits_value(
            seq![digit_char(n as int)].drop_last(),
        ) * 10 + digit_value(digit_char(n as int)));
        assert(seq![digit_char(n as int)].drop_last() =~= Seq::<char>::empty());
    } else {
        lemma_dec_digits_props(n / 10);
        let t = dec_digits(n / 10);
        assert(t.push(digit_char((n % 10) as int)).drop_last() =~= t);
        assert(t.push(digit_char((n % 10) as int)).last() == digit_char((n % 10) as int));
        assert(digits_value(dec_digits(n)) == digits_value(t) * 10 + (n % 10));
    }
}

/// The padded digit string has exactly the asked width, is all digits,
/// and denotes the number when the number fits the width.
pub proof fn lemma_padded_digits_props(n: nat, w: nat)
    requires
        n < pow10(w),
    ensures
        padded_digits(n, w).len() == w,
        all_dec_digits(padded_digits(n, w)),
        digits_value(padded_digits(n, w)) == n,
    decreases w,
{
    if w == 0 {
    } else {
        assert(n / 10 < pow10((w - 1) as nat)) by (nonlinear_arith)
            requires
                n < pow10(w),
                pow10(w) == 10 * pow10((w - 1) as nat),
        ;
        lemma_padded_digits_props(n / 10, (w - 1) as nat);
        let t = padded_digits(n / 10, (w - 1) as nat);
        assert(t.push(digit_char((n % 10) as int)).drop_last() =~= t);
        assert(t.push(digit_char((n % 10) as int)).last() == digit_char((n % 10) as int));
        assert(digits_value(padded_digits(n, w)) == digits_value(t) * 10 + (n % 10));
    }
}

} // verus!
