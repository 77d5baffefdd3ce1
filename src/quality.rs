use vstd::prelude::*;

verus! {

/// Number of decimal places a quality keeps.
pub const PLACES: u64 = 6;

/// One whole unit of quality, in millionths.
pub const SCALE: u64 = 1_000_000;

/// A preference weight: a non-negative decimal number held exactly, in
/// millionths. `1.0` is `SCALE`.
#[derive(Clone, Copy, Debug, PartialEq, Eq, Structural, Hash)]
pub struct Quality {
    pub millionths: u64,
}

/// Whether `c` is an ASCII decimal digit.
pub open spec fn is_digit(c: char) -> bool {
    '0' <= c && c <= '9'
}

/// Whether `c` may stand in the number of a `;q=` clause.
pub open spec fn is_number_char(c: char) -> bool {
    is_digit(c) || c == '.'
}

pub open spec fn digit_value(c: char) -> nat {
    (c as u32 - '0' as u32) as nat
}

/// The number that a run of decimal digits writes.
pub open spec fn digits_value(t: Seq<char>) -> nat
    decreases t.len(),
{
    if t.len() == 0 {
        0
    } else {
        digits_value(t.drop_last()) * 10 + digit_value(t.last())
    }
}

pub open spec fn pow10(n: nat) -> nat
    decreases n,
{
    if n == 0 {
        1
    } else {
        10 * pow10((n - 1) as nat)
    }
}

/// Position of the decimal point in `t`, or its length where it has none.
pub open spec fn point_at(t: Seq<char>) -> int {
    if exists|i: int| 0 <= i < t.len() && t[i] == '.' {
        choose|i: int| 0 <= i < t.len() && t[i] == '.'
    } else {
        t.len() as int
    }
}

/// Digits with at most one decimal point, and at least one digit.
pub open spec fn is_decimal(t: Seq<char>) -> bool {
    &&& forall|i: int| 0 <= i < t.len() ==> is_number_char(#[trigger] t[i])
    &&& forall|i: int, j: int|
        0 <= i < t.len() && 0 <= j < t.len() && t[i] == '.' && t[j] == '.' ==> i == j
    &&& exists|i: int| 0 <= i < t.len() && is_digit(#[trigger] t[i])
}

/// The value of a decimal text in millionths; places beyond the sixth are
/// dropped.
pub open spec fn decimal_millionths(t: Seq<char>) -> nat {
    let p = point_at(t);
    let whole = t.subrange(0, p);
    let frac = if p < t.len() {
        t.subrange(p + 1, t.len() as int)
    } else {
        Seq::empty()
    };
    let kept = if frac.len() <= PLACES {
        frac
    } else {
        frac.subrange(0, PLACES as int)
    };
    (digits_value(whole) * SCALE + digits_value(kept) * pow10((PLACES - kept.len()) as nat)) as nat
}

/// The quality that a text writes, if it is a decimal number; a value too
/// large to hold is held as the largest quality.
pub open spec fn read_decimal(t: Seq<char>) -> Option<Quality> {
    if is_decimal(t) {
        if decimal_millionths(t) <= u64::MAX {
            Some(Quality { millionths: decimal_millionths(t) as u64 })
        } else {
            Some(Quality { millionths: u64::MAX })
        }
    } else {
        None
    }
}

/// Full preference, `1.0`.
pub open spec fn one() -> Quality {
    Quality { millionths: SCALE }
}

proof fn lemma_digits_push(t: Seq<char>, c: char)
    ensures
        digits_value(t.push(c)) == digits_value(t) * 10 + digit_value(c),
{
    assert(t.push(c).drop_last() =~= t);
}

impl Quality {
    /// Full preference, `1.0`.
    pub fn one() -> (r: Quality)
        ensures
            r == one(),
    {
        Quality { millionths: SCALE }
    }

    pub fn from_millionths(millionths: u64) -> (r: Quality)
        ensures
            r.millionths == millionths,
    {
        Quality { millionths }
    }

    /// Whether this weight switches a language off.
    pub fn is_zero(&self) -> (r: bool)
        ensures
            r == (self.millionths == 0),
    {
        self.millionths == 0
    }

    /// Reads a decimal number such as `0.8`, `1`, `.5` or `5.`.
    pub fn parse(text: &str) -> (r: Option<Quality>)
        ensures
            r == read_decimal(text@),
    {
        let n = text.unicode_len();
        assert(text@.subrange(0, n as int) =~= text@);
        read_quality(text, 0, n)
    }
}

/// Reads the decimal number that `text` holds between `start` and `end`.
pub fn read_quality(text: &str, start: usize, end: usize) -> (r: Option<Quality>)
    requires
        start <= end <= text@.len(),
    ensures
        r == read_decimal(text@.subrange(start as int, end as int)),
{
    let ghost t = text@.subrange(start as int, end as int);
    let mut whole: u64 = 0;
    let mut big = false;
    let mut frac: u64 = 0;
    let mut frac_len: u64 = 0;
    let mut point: Option<usize> = None;
    let mut any_digit = false;
    let mut i: usize = start;
    while i < end
        invariant
            start <= i <= end <= text@.len(),
            t == text@.subrange(start as int, end as int),
            forall|k: int| 0 <= k < i - start ==> is_number_char(#[trigger] t[k]),
            any_digit == exists|k: int| 0 <= k < i - start && is_digit(#[trigger] t[k]),
            whole <= u64::MAX / SCALE,
            frac_len <= PLACES,
            frac < pow10(frac_len as nat),
            match point {
                None => {
                    &&& forall|k: int| 0 <= k < i - start ==> t[k] != '.'
                    &&& if big {
                        digits_value(t.subrange(0, i - start)) > u64::MAX / SCALE
                    } else {
                        whole == digits_value(t.subrange(0, i - start))
                    }
                    &&& frac_len == 0
                },
                Some(p) => {
                    &&& start <= p < i
                    &&& t[p - start] == '.'
                    &&& forall|k: int| 0 <= k < i - start && k != p - start ==> t[k] != '.'
                    &&& if big {
                        digits_value(t.subrange(0, p - start)) > u64::MAX / SCALE
                    } else {
                        whole == digits_value(t.subrange(0, p - start))
                    }
                    &&& frac_len == if i - p - 1 <= PLACES {
                        i - p - 1
                    } else {
                        PLACES as int
                    }
                    &&& frac == digits_value(t.subrange(p - start + 1, p - start + 1 + frac_len))
                },
            },
        decreases end - i,
    {
        let c = text.get_char(i);
        let ghost k = i - start;
        assert(t[k] == c);
        if c == '.' {
            if point.is_some() {
                return None;
            }
            point = Some(i);
        } else if '0' <= c && c <= '9' {
            let d = (c as u32 - '0' as u32) as u64;
            any_digit = true;
            if point.is_none() {
                proof {
                    lemma_digits_push(t.subrange(0, k), c);
                    assert(t.subrange(0, k).push(c) =~= t.subrange(0, k + 1));
                }
                if !big {
                    let next = whole * 10 + d;
                    if next > u64::MAX / SCALE {
                        big = true;
                    } else {
                        whole = next;
                    }
                }
            } else if frac_len < PLACES {
                let ghost p = point.unwrap() - start;
                proof {
                    lemma_digits_push(t.subrange(p + 1, p + 1 + frac_len), c);
                    assert(t.subrange(p + 1, p + 1 + frac_len).push(c) =~= t.subrange(
                        p + 1,
                        p + 1 + frac_len + 1,
                    ));
                    lemma_pow10_scale();
                    lemma_pow10_mono(frac_len as nat, PLACES as nat);
                    assert(pow10((frac_len + 1) as nat) == 10 * pow10(frac_len as nat));
                }
                frac = frac * 10 + d;
                frac_len = frac_len + 1;
            }
        } else {
            return None;
        }
        i = i + 1;
    }
    if !any_digit {
        return None;
    }
    proof {
        lemma_pow10_scale();
        match point {
            None => {
                assert(t.subrange(0, t.len() as int) =~= t);
                assert(point_at(t) == t.len());
                assert(digits_value(Seq::<char>::empty()) == 0);
            },
            Some(p) => {
                let q = p - start;
                assert(point_at(t) == q);
                let frac_text = t.subrange(q + 1, t.len() as int);
                if frac_text.len() > PLACES {
                    assert(frac_text.subrange(0, PLACES as int) =~= t.subrange(
                        q + 1,
                        q + 1 + frac_len,
                    ));
                } else {
                    assert(frac_text =~= t.subrange(q + 1, q + 1 + frac_len));
                }
            },
        }
        assert(is_decimal(t));
    }
    if big {
        proof {
            let w = digits_value(t.subrange(0, point_at(t)));
            assert(w * SCALE > u64::MAX) by (nonlinear_arith)
                requires
                    w > u64::MAX / SCALE,
            ;
        }
        return Some(Quality { millionths: u64::MAX });
    }
    let mut scaled: u64 = frac;
    let mut places: u64 = frac_len;
    assert(pow10((places - frac_len) as nat) == 1);
    assert(scaled == frac * pow10((places - frac_len) as nat));
    while places < PLACES
        invariant
            frac_len <= places <= PLACES,
            frac < pow10(frac_len as nat),
            scaled == frac * pow10((places - frac_len) as nat),
            scaled < pow10(places as nat),
            pow10(PLACES as nat) == SCALE,
        decreases PLACES - places,
    {
        proof {
            assert(pow10((places + 1 - frac_len) as nat) == 10 * pow10((places - frac_len) as nat));
            assert(pow10((places + 1) as nat) == 10 * pow10(places as nat));
            lemma_pow10_mono((places + 1) as nat, PLACES as nat);
            let a = pow10((places - frac_len) as nat);
            assert(frac * (10 * a) == (frac * a) * 10) by (nonlinear_arith);
        }
        scaled = scaled * 10;
        places = places + 1;
    }
    let total: u128 = whole as u128 * SCALE as u128 + scaled as u128;
    if total > u64::MAX as u128 {
        return Some(Quality { millionths: u64::MAX });
    }
    Some(Quality { millionths: total as u64 })
}

proof fn lemma_pow10_scale()
    ensures
        pow10(PLACES as nat) == SCALE,
{
    reveal_with_fuel(pow10, 7);
}

proof fn lemma_pow10_mono(a: nat, b: nat)
    requires
        a <= b,
    ensures
        pow10(a) <= pow10(b),
    decreases b,
{
    if a < b {
        lemma_pow10_mono(a, (b - 1) as nat);
    }
}

} // verus!
