//! The request charge: the cost of one request, which the server reports as
//! a numeral such as `2.5`, `+2.5` or `25e-1`.
//!
//! The numeral is kept as the server wrote it. It has a mantissa, which is
//! an unsigned decimal numeral, and may have an exponent. Its value is
//! `numerator × 10^power`, where the power is the exponent less the number
//! of digits behind the decimal point. No numeral is negative.

use vstd::prelude::*;
use vstd::string::StrSliceExecFns;

verus! {

/// One of the ten decimal digits.
pub open spec fn is_digit(c: char) -> bool {
    '0' <= c && c <= '9'
}

/// The number that a decimal digit stands for.
pub open spec fn digit_value(c: char) -> nat
    recommends
        is_digit(c),
{
    (c as u32 - 48) as nat
}

/// An unsigned decimal numeral: digits and at most one decimal point, with at
/// least one digit.
pub open spec fn is_decimal_numeral(text: Seq<char>) -> bool {
    &&& forall|i: int| 0 <= i < text.len() ==> is_digit(#[trigger] text[i]) || text[i] == '.'
    &&& forall|i: int, j: int|
        0 <= i < j < text.len() ==> !(#[trigger] text[i] == '.' && #[trigger] text[j] == '.')
    &&& exists|i: int| 0 <= i < text.len() && is_digit(#[trigger] text[i])
}

/// The digits of a numeral read as one natural number, the point left out.
pub open spec fn numerator(text: Seq<char>) -> nat
    decreases text.len(),
{
    if text.len() == 0 {
        0
    } else if is_digit(text.last()) {
        numerator(text.drop_last()) * 10 + digit_value(text.last())
    } else {
        numerator(text.drop_last())
    }
}

/// The number of digits that follow the decimal point; zero without a point.
pub open spec fn scale(text: Seq<char>) -> nat
    decreases text.len(),
{
    if text.len() == 0 {
        0
    } else if text.last() == '.' {
        0
    } else if text.drop_last().contains('.') {
        scale(text.drop_last()) + 1
    } else {
        0
    }
}

/// The numerator never shrinks as a numeral is read further.
pub proof fn lemma_numerator_grows(text: Seq<char>, k: int)
    requires
        0 <= k <= text.len(),
    ensures
        numerator(text.take(k)) <= numerator(text),
    decreases text.len() - k,
{
    if k == text.len() {
        assert(text.take(k) =~= text);
    } else {
        lemma_numerator_grows(text, k + 1);
        let longer = text.take(k + 1);
        assert(longer.drop_last() =~= text.take(k));
        assert(numerator(longer.drop_last()) <= numerator(longer)) by (nonlinear_arith)
            requires
                numerator(longer) == numerator(longer.drop_last()) * 10 + digit_value(
                    longer.last(),
                ) || numerator(longer) == numerator(longer.drop_last()),
        ;
    }
}

/// The letter that stands before an exponent.
pub open spec fn is_exponent_mark(c: char) -> bool {
    c == 'e' || c == 'E'
}

/// A numeral without the plus sign that may lead it.
pub open spec fn unsigned_text(text: Seq<char>) -> Seq<char> {
    if text.len() > 0 && text[0] == '+' {
        text.drop_first()
    } else {
        text
    }
}

/// The number of characters that stand before the first exponent mark.
pub open spec fn mantissa_len(text: Seq<char>) -> nat
    decreases text.len(),
{
    if text.len() == 0 || is_exponent_mark(text[0]) {
        0
    } else {
        1 + mantissa_len(text.drop_first())
    }
}

/// The mantissa of a numeral: what stands between the plus sign, if there is
/// one, and the exponent mark, if there is one.
pub open spec fn mantissa(text: Seq<char>) -> Seq<char> {
    let rest = unsigned_text(text);
    rest.take(mantissa_len(rest) as int)
}

/// The exponent of a numeral: what follows the exponent mark, if there is
/// one.
pub open spec fn exponent_part(text: Seq<char>) -> Option<Seq<char>> {
    let rest = unsigned_text(text);
    if mantissa_len(rest) < rest.len() {
        Some(rest.skip(mantissa_len(rest) as int + 1))
    } else {
        None
    }
}

/// An exponent without the sign that may lead it.
pub open spec fn exponent_digits(part: Seq<char>) -> Seq<char> {
    if part.len() > 0 && (part[0] == '+' || part[0] == '-') {
        part.drop_first()
    } else {
        part
    }
}

/// An exponent: digits, at least one, which a sign may lead.
pub open spec fn is_exponent(part: Seq<char>) -> bool {
    &&& exponent_digits(part).len() > 0
    &&& forall|i: int|
        0 <= i < exponent_digits(part).len() ==> is_digit(#[trigger] exponent_digits(part)[i])
}

/// The number that an exponent stands for.
pub open spec fn exponent_value(part: Seq<char>) -> int {
    if part.len() > 0 && part[0] == '-' {
        -(numerator(exponent_digits(part)) as int)
    } else {
        numerator(exponent_digits(part)) as int
    }
}

/// A numeral that can be a charge: an unsigned decimal numeral, which a plus
/// sign may lead and an exponent may follow, as in `2.5`, `+2.5`, `1e3` or
/// `25E-1`. There is no minus sign before the mantissa, and no name of a
/// value that is no number.
pub open spec fn is_charge_numeral(text: Seq<char>) -> bool {
    &&& is_decimal_numeral(mantissa(text))
    &&& match exponent_part(text) {
        Some(part) => is_exponent(part),
        None => true,
    }
}

/// The digits of the mantissa of a charge, read as one natural number.
pub open spec fn charge_numerator(text: Seq<char>) -> nat {
    numerator(mantissa(text))
}

/// The power of ten by which the numerator of a charge is multiplied: the
/// exponent, or zero without one, less the number of digits behind the
/// decimal point.
pub open spec fn charge_power(text: Seq<char>) -> int {
    let exponent = match exponent_part(text) {
        Some(part) => exponent_value(part),
        None => 0,
    };
    exponent - scale(mantissa(text))
}

/// A character that a charge can hold.
pub open spec fn is_numeral_char(c: char) -> bool {
    is_digit(c) || c == '.' || c == '+' || c == '-' || is_exponent_mark(c)
}

/// The mantissa ends where the first exponent mark stands, or where the
/// numeral ends.
pub proof fn lemma_mantissa_len(text: Seq<char>, k: int)
    requires
        0 <= k <= text.len(),
        forall|j: int| 0 <= j < k ==> !is_exponent_mark(#[trigger] text[j]),
        k == text.len() || is_exponent_mark(text[k]),
    ensures
        mantissa_len(text) == k,
    decreases k,
{
    if k > 0 {
        let rest = text.drop_first();
        assert(!is_exponent_mark(text[0]));
        assert forall|j: int| 0 <= j < k - 1 implies !is_exponent_mark(#[trigger] rest[j]) by {
            assert(rest[j] == text[j + 1]);
        }
        if k < text.len() {
            assert(rest[k - 1] == text[k]);
        }
        lemma_mantissa_len(rest, k - 1);
    }
}

/// No exponent mark stands in the mantissa, and one stands behind it unless
/// the numeral ends there.
pub proof fn lemma_mantissa_ends_at_mark(text: Seq<char>)
    ensures
        mantissa_len(text) <= text.len(),
        forall|j: int| 0 <= j < mantissa_len(text) ==> !is_exponent_mark(#[trigger] text[j]),
        mantissa_len(text) < text.len() ==> is_exponent_mark(text[mantissa_len(text) as int]),
    decreases text.len(),
{
    if text.len() > 0 && !is_exponent_mark(text[0]) {
        let rest = text.drop_first();
        lemma_mantissa_ends_at_mark(rest);
        assert forall|j: int| 0 <= j < mantissa_len(text) implies !is_exponent_mark(
            #[trigger] text[j],
        ) by {
            if j > 0 {
                assert(text[j] == rest[j - 1]);
            }
        }
        if mantissa_len(text) < text.len() {
            assert(text[mantissa_len(text) as int] == rest[mantissa_len(rest) as int]);
        }
    }
}

/// A charge holds digits, a point, signs and an exponent mark, and nothing
/// else.
pub proof fn lemma_numeral_chars(text: Seq<char>)
    requires
        is_charge_numeral(text),
    ensures
        forall|i: int| 0 <= i < text.len() ==> is_numeral_char(#[trigger] text[i]),
{
    let rest = unsigned_text(text);
    let k = mantissa_len(rest) as int;
    lemma_mantissa_ends_at_mark(rest);
    assert forall|j: int| 0 <= j < rest.len() implies is_numeral_char(#[trigger] rest[j]) by {
        if j < k {
            assert(mantissa(text)[j] == rest[j]);
        } else if j > k {
            let part = exponent_part(text).unwrap();
            let digits = exponent_digits(part);
            assert(part[j - k - 1] == rest[j]);
            if part[0] == '+' || part[0] == '-' {
                if j - k - 1 > 0 {
                    assert(digits[j - k - 2] == part[j - k - 1]);
                }
            } else {
                assert(digits[j - k - 1] == part[j - k - 1]);
            }
        }
    }
    assert forall|i: int| 0 <= i < text.len() implies is_numeral_char(#[trigger] text[i]) by {
        if text[0] == '+' {
            if i > 0 {
                assert(text[i] == rest[i - 1]);
            }
        } else {
            assert(text[i] == rest[i]);
        }
    }
}

/// A request charge, as the server wrote it.
#[derive(Debug, PartialEq, Eq)]
pub struct RequestCharge {
    text: String,
}

impl View for RequestCharge {
    type V = Seq<char>;

    closed spec fn view(&self) -> Seq<char> {
        self.text@
    }
}

impl Clone for RequestCharge {
    fn clone(&self) -> (r: Self)
        ensures
            r@ == self@,
    {
        proof {
            use_type_invariant(self);
        }
        RequestCharge { text: self.text.clone() }
    }
}

/// Where the parts of a numeral stand: the mantissa from the first to the
/// second position, and the exponent, if the second is not the third, from
/// behind the second to the third, which is the end.
fn split(text: &str) -> (r: (usize, usize, usize))
    requires
        text.is_ascii(),
    ensures
        r.0 <= r.1 <= r.2 == text@.len(),
        mantissa(text@) == text@.subrange(r.0 as int, r.1 as int),
        exponent_part(text@) == if r.1 < r.2 {
            Some(text@.subrange(r.1 + 1, r.2 as int))
        } else {
            None
        },
{
    let n: usize = text.unicode_len();
    let start: usize = if n > 0 && text.get_ascii(0) == 43 {
        1
    } else {
        0
    };
    let ghost rest = text@.subrange(start as int, n as int);
    assert(unsigned_text(text@) =~= rest);
    let mut i: usize = start;
    while i < n && !(text.get_ascii(i) == 101 || text.get_ascii(i) == 69)
        invariant
            start <= i <= n,
            n == text@.len(),
            text.is_ascii(),
            rest == text@.subrange(start as int, n as int),
            forall|j: int| 0 <= j < i - start ==> !is_exponent_mark(#[trigger] rest[j]),
        decreases n - i,
    {
        assert(rest[i - start] == text@[i as int]);
        i = i + 1;
    }
    proof {
        if i < n {
            assert(rest[i - start] == text@[i as int]);
        }
        lemma_mantissa_len(rest, i - start);
        assert(rest.take(i - start) =~= text@.subrange(start as int, i as int));
        if i < n {
            assert(rest.skip(i - start + 1) =~= text@.subrange(i + 1, n as int));
        }
    }
    (start, i, n)
}

/// Whether a part of a text is an unsigned decimal numeral.
fn numeral_in(text: &str, from: usize, to: usize) -> (r: bool)
    requires
        text.is_ascii(),
        from <= to <= text@.len(),
    ensures
        r == is_decimal_numeral(text@.subrange(from as int, to as int)),
{
    let ghost part = text@.subrange(from as int, to as int);
    let mut points: usize = 0;
    let mut digits: usize = 0;
    let mut i: usize = from;
    while i < to
        invariant
            from <= i <= to <= text@.len(),
            text.is_ascii(),
            part == text@.subrange(from as int, to as int),
            digits <= i - from,
            forall|j: int| 0 <= j < i - from ==> is_digit(#[trigger] part[j]) || part[j] == '.',
            points <= 1,
            points == 0 <==> forall|j: int| 0 <= j < i - from ==> #[trigger] part[j] != '.',
            digits == 0 <==> forall|j: int| 0 <= j < i - from ==> !is_digit(#[trigger] part[j]),
            forall|j: int, k: int|
                0 <= j < k < i - from ==> !(#[trigger] part[j] == '.' && #[trigger] part[k]
                    == '.'),
        decreases to - i,
    {
        let b: u8 = text.get_ascii(i);
        assert(part[i - from] == text@[i as int]);
        if b == 46 {
            if points == 1 {
                proof {
                    let first = choose|j: int| 0 <= j < i - from && part[j] == '.';
                    assert(part[first] == '.' && part[i - from] == '.');
                }
                return false;
            }
            points = 1;
        } else if 48 <= b && b <= 57 {
            digits = digits + 1;
        } else {
            proof {
                assert(!(is_digit(part[i - from]) || part[i - from] == '.'));
            }
            return false;
        }
        i = i + 1;
    }
    if digits == 0 {
        return false;
    }
    proof {
        let d = choose|j: int| 0 <= j < to - from && is_digit(#[trigger] part[j]);
        assert(is_digit(part[d]));
    }
    true
}

/// Whether a part of a text is an exponent.
fn exponent_in(text: &str, from: usize, to: usize) -> (r: bool)
    requires
        text.is_ascii(),
        from <= to <= text@.len(),
    ensures
        r == is_exponent(text@.subrange(from as int, to as int)),
{
    let ghost part = text@.subrange(from as int, to as int);
    let start: usize = if from < to && (text.get_ascii(from) == 43 || text.get_ascii(from) == 45) {
        from + 1
    } else {
        from
    };
    let ghost digits = text@.subrange(start as int, to as int);
    proof {
        if from < to {
            assert(part[0] == text@[from as int]);
        }
        assert(exponent_digits(part) =~= digits);
    }
    if start == to {
        return false;
    }
    let mut i: usize = start;
    while i < to
        invariant
            from <= start <= i <= to <= text@.len(),
            text.is_ascii(),
            digits == text@.subrange(start as int, to as int),
            exponent_digits(text@.subrange(from as int, to as int)) == digits,
            forall|j: int| 0 <= j < i - start ==> is_digit(#[trigger] digits[j]),
        decreases to - i,
    {
        let b: u8 = text.get_ascii(i);
        assert(digits[i - start] == text@[i as int]);
        if !(48 <= b && b <= 57) {
            assert(!is_digit(digits[i - start]));
            return false;
        }
        i = i + 1;
    }
    true
}

/// The numerator and the scale of a part of a text that is an unsigned
/// decimal numeral, where the numerator fits in 64 bits.
fn fraction_in(text: &str, from: usize, to: usize) -> (r: Option<(u64, usize)>)
    requires
        text.is_ascii(),
        from <= to <= text@.len(),
        is_decimal_numeral(text@.subrange(from as int, to as int)),
    ensures
        r is Some <==> numerator(text@.subrange(from as int, to as int)) <= u64::MAX,
        r matches Some((n, k)) ==> n == numerator(text@.subrange(from as int, to as int)) && k
            == scale(text@.subrange(from as int, to as int)),
{
    let ghost part = text@.subrange(from as int, to as int);
    let mut acc: u64 = 0;
    let mut after: usize = 0;
    let mut seen_point: bool = false;
    let mut i: usize = from;
    assert(part.take(0) =~= Seq::<char>::empty());
    while i < to
        invariant
            from <= i <= to <= text@.len(),
            text.is_ascii(),
            part == text@.subrange(from as int, to as int),
            is_decimal_numeral(part),
            acc == numerator(part.take(i - from)),
            after == scale(part.take(i - from)),
            after <= i - from,
            seen_point == part.take(i - from).contains('.'),
        decreases to - i,
    {
        let b: u8 = text.get_ascii(i);
        let ghost shorter = part.take(i - from);
        let ghost longer = part.take(i - from + 1);
        proof {
            assert(part[i - from] == text@[i as int]);
            assert(longer.drop_last() =~= shorter);
            assert(longer.last() == part[i - from]);
            assert(is_digit(part[i - from]) || part[i - from] == '.');
            if part[i - from] == '.' {
                assert(longer[i - from] == '.');
            } else if seen_point {
                let p = choose|p: int| 0 <= p < i - from && shorter[p] == '.';
                assert(longer[p] == '.');
            } else {
                assert forall|p: int| 0 <= p < longer.len() implies longer[p] != '.' by {
                    if p < i - from {
                        assert(shorter[p] == longer[p]);
                    }
                }
            }
        }
        if b == 46 {
            seen_point = true;
            after = 0;
        } else {
            let d: u64 = (b - 48) as u64;
            let next: Option<u64> = match acc.checked_mul(10) {
                Some(m) => m.checked_add(d),
                None => None,
            };
            match next {
                Some(v) => {
                    acc = v;
                },
                None => {
                    proof {
                        assert(digit_value(longer.last()) == d);
                        assert(numerator(longer) == acc * 10 + d);
                        lemma_numerator_grows(part, i - from + 1);
                    }
                    return None;
                },
            }
            if seen_point {
                after = after + 1;
            }
        }
        i = i + 1;
    }
    assert(part.take(to - from) =~= part);
    Some((acc, after))
}

/// The number that a part of a text made of digits stands for, where it is
/// at most 2^65.
fn magnitude_in(text: &str, from: usize, to: usize) -> (r: Option<u128>)
    requires
        text.is_ascii(),
        from <= to <= text@.len(),
        forall|j: int|
            0 <= j < to - from ==> is_digit(#[trigger] text@.subrange(from as int, to as int)[j]),
    ensures
        match r {
            Some(m) => m == numerator(text@.subrange(from as int, to as int)) && m
                <= 0x2_0000_0000_0000_0000,
            None => numerator(text@.subrange(from as int, to as int)) > 0x2_0000_0000_0000_0000,
        },
{
    let ghost part = text@.subrange(from as int, to as int);
    let mut acc: u128 = 0;
    let mut i: usize = from;
    assert(part.take(0) =~= Seq::<char>::empty());
    while i < to
        invariant
            from <= i <= to <= text@.len(),
            text.is_ascii(),
            part == text@.subrange(from as int, to as int),
            forall|j: int| 0 <= j < to - from ==> is_digit(#[trigger] part[j]),
            acc == numerator(part.take(i - from)),
            acc <= 0x2_0000_0000_0000_0000,
        decreases to - i,
    {
        let b: u8 = text.get_ascii(i);
        let ghost longer = part.take(i - from + 1);
        proof {
            assert(part[i - from] == text@[i as int]);
            assert(is_digit(part[i - from]));
            assert(longer.drop_last() =~= part.take(i - from));
            assert(longer.last() == part[i - from]);
        }
        let d: u128 = (b - 48) as u128;
        let next: u128 = acc * 10 + d;
        assert(next == numerator(longer));
        if next > 0x2_0000_0000_0000_0000 {
            proof {
                lemma_numerator_grows(part, i - from + 1);
            }
            return None;
        }
        acc = next;
        i = i + 1;
    }
    assert(part.take(to - from) =~= part);
    Some(acc)
}

impl RequestCharge {
    #[verifier::type_invariant]
    spec fn numeral(&self) -> bool {
        is_charge_numeral(self.text@)
    }

    /// Reads a charge. The text is a charge exactly when it is a numeral
    /// that can be one, and the charge keeps it unchanged.
    pub fn parse(text: &str) -> (r: Option<RequestCharge>)
        ensures
            r is Some <==> is_charge_numeral(text@),
            r matches Some(charge) ==> charge@ == text@,
    {
        if !text.is_ascii() {
            proof {
                if is_charge_numeral(text@) {
                    lemma_numeral_chars(text@);
                }
            }
            return None;
        }
        let (start, mark, end) = split(text);
        if !numeral_in(text, start, mark) {
            return None;
        }
        if mark < end && !exponent_in(text, mark + 1, end) {
            return None;
        }
        Some(RequestCharge { text: text.to_owned() })
    }

    /// The charge as a numerator and a power of ten, where both fit in 64
    /// bits: the charge is the numerator multiplied by ten to that power.
    pub fn scaled(&self) -> (r: Option<(u64, i64)>)
        ensures
            r is Some <==> charge_numerator(self@) <= u64::MAX && i64::MIN <= charge_power(self@)
                <= i64::MAX,
            r matches Some((n, p)) ==> n == charge_numerator(self@) && p == charge_power(self@),
    {
        proof {
            use_type_invariant(self);
            lemma_numeral_chars(self.text@);
        }
        let text: &str = self.text.as_str();
        let (start, mark, end) = split(text);
        let fraction = fraction_in(text, start, mark);
        let mut exponent: i128 = 0;
        if mark < end {
            let ghost part = text@.subrange(mark + 1, end as int);
            assert(is_exponent(part));
            assert(part[0] == text@[mark + 1]);
            let sign: u8 = text.get_ascii(mark + 1);
            let from: usize = if sign == 43 || sign == 45 {
                mark + 2
            } else {
                mark + 1
            };
            let ghost digits = text@.subrange(from as int, end as int);
            assert(exponent_digits(part) =~= digits);
            match magnitude_in(text, from, end) {
                Some(m) => {
                    exponent = if sign == 45 {
                        -(m as i128)
                    } else {
                        m as i128
                    };
                },
                None => {
                    return None;
                },
            }
        }
        let (n, k) = match fraction {
            Some(found) => found,
            None => {
                return None;
            },
        };
        let power: i128 = exponent - k as i128;
        if power < -0x8000_0000_0000_0000 || power > 0x7fff_ffff_ffff_ffff {
            return None;
        }
        Some((n, power as i64))
    }

    /// The numeral as the server wrote it.
    pub fn as_str(&self) -> (r: &str)
        ensures
            r@ == self@,
            is_charge_numeral(r@),
    {
        proof {
            use_type_invariant(self);
        }
        self.text.as_str()
    }
}

} // verus!
