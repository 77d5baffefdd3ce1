//! Reading an `Accept-Language` header into preference pairs.
//!
//! A token is one to three word characters (the primary subtag), then
//! optionally a hyphen and one to three word characters (a region, which is
//! dropped), then optionally `;q=` and a run of digits and points (the
//! quality). The text is scanned from left to right; each token is taken as
//! long as it can be, and scanning goes on after it. A token whose primary
//! subtag names no language is dropped.
use crate::lang::{code_of, code_pair, lemma_code_pair_injective, LangCode};
use crate::quality::{one, read_decimal, read_quality, Quality};
use regex_syntax::hir::{Class, ClassUnicode, ClassUnicodeRange, Hir, HirKind};
use vstd::prelude::*;

verus! {

/// Whether `c` is in the Unicode word class `\w`.
pub uninterp spec fn word_char(c: char) -> bool;

/// Relies on `regex_syntax::is_word_character`, the `\w` class of the regex
/// engine: of the ASCII characters, letters, digits and `_` belong to it and
/// no other does.
#[verifier::external_body]
fn is_word(c: char) -> (r: bool)
    ensures
        r == word_char(c),
        (c as u32) < 128 ==> (r <==> (('a' <= c && c <= 'z') || ('A' <= c && c <= 'Z') || ('0'
            <= c && c <= '9') || c == '_')),
{
    regex_syntax::is_word_character(c)
}

/// Whether `c` is in the Unicode decimal digit class `\d`.
pub uninterp spec fn digit_char(c: char) -> bool;

/// Relies on `regex_syntax::parse`, which reads `\d` as the class of Unicode
/// decimal digits (Unicode is on by default), and on `ClassUnicode::intersect`
/// to find whether `c` is in it. Of the ASCII characters only `0` to `9` are.
#[verifier::external_body]
fn is_digit(c: char) -> (r: bool)
    ensures
        r == digit_char(c),
        (c as u32) < 128 ==> (r <==> ('0' <= c && c <= '9')),
{
    let mut single = ClassUnicode::new([ClassUnicodeRange::new(c, c)]);
    match regex_syntax::parse(r"\d").map(Hir::into_kind) {
        Ok(HirKind::Class(Class::Unicode(digits))) => {
            single.intersect(&digits);
            !single.ranges().is_empty()
        },
        _ => false,
    }
}

/// Whether `c` may stand in the number of a `;q=` clause: a decimal digit of
/// any script, or a point. Only ASCII digits then read as a number.
pub open spec fn number_class_char(c: char) -> bool {
    digit_char(c) || c == '.'
}

/// Length of the run of word characters at `i`, up to three.
pub open spec fn word_run(s: Seq<char>, i: int) -> int {
    if 0 <= i < s.len() && word_char(s[i]) {
        if i + 1 < s.len() && word_char(s[i + 1]) {
            if i + 2 < s.len() && word_char(s[i + 2]) {
                3
            } else {
                2
            }
        } else {
            1
        }
    } else {
        0
    }
}

/// Length of the run of decimal digits and points at `i`.
pub open spec fn number_run(s: Seq<char>, i: int) -> nat
    decreases s.len() - i,
{
    if 0 <= i < s.len() && number_class_char(s[i]) {
        1 + number_run(s, i + 1)
    } else {
        0
    }
}

/// End of the primary subtag of the token at `i`.
pub open spec fn lang_end(s: Seq<char>, i: int) -> int {
    i + word_run(s, i)
}

/// End of the region subtag of the token at `i`, or of its primary subtag
/// where it has no region.
pub open spec fn region_end(s: Seq<char>, i: int) -> int {
    let e = lang_end(s, i);
    if e < s.len() && s[e] == '-' && word_run(s, e + 1) > 0 {
        e + 1 + word_run(s, e + 1)
    } else {
        e
    }
}

/// Whether the token at `i` has a `;q=` clause.
pub open spec fn has_quality(s: Seq<char>, i: int) -> bool {
    let e = region_end(s, i);
    &&& e + 3 < s.len()
    &&& s[e] == ';'
    &&& s[e + 1] == 'q'
    &&& s[e + 2] == '='
    &&& number_run(s, e + 3) > 0
}

/// Start of the number of the token at `i`.
pub open spec fn quality_start(s: Seq<char>, i: int) -> int {
    region_end(s, i) + 3
}

/// End of the token at `i`.
pub open spec fn token_end(s: Seq<char>, i: int) -> int {
    if has_quality(s, i) {
        quality_start(s, i) + number_run(s, quality_start(s, i))
    } else {
        region_end(s, i)
    }
}

/// Quality of the token at `i`: its number where it has one that reads as a
/// decimal, else `1.0`.
pub open spec fn token_quality(s: Seq<char>, i: int) -> Quality {
    if has_quality(s, i) {
        match read_decimal(s.subrange(quality_start(s, i), token_end(s, i))) {
            Some(q) => q,
            None => one(),
        }
    } else {
        one()
    }
}

/// The preference pairs of the text `s` from position `i` on, in order.
pub open spec fn prefs_from(s: Seq<char>, i: int) -> Seq<(LangCode, Quality)>
    decreases s.len() - i,
    via prefs_from_decreases
{
    if i < 0 || i >= s.len() {
        Seq::empty()
    } else if !word_char(s[i]) {
        prefs_from(s, i + 1)
    } else {
        let rest = prefs_from(s, token_end(s, i));
        match code_of(s.subrange(i, lang_end(s, i))) {
            Some(l) => seq![(l, token_quality(s, i))] + rest,
            None => rest,
        }
    }
}

proof fn lemma_number_run_bound(s: Seq<char>, i: int)
    ensures
        number_run(s, i) > 0 ==> i + number_run(s, i) <= s.len(),
    decreases s.len() - i,
{
    if 0 <= i < s.len() && number_class_char(s[i]) {
        lemma_number_run_bound(s, i + 1);
    }
}

proof fn lemma_token_advances(s: Seq<char>, i: int)
    requires
        0 <= i < s.len(),
        word_char(s[i]),
    ensures
        i < token_end(s, i) <= s.len(),
{
    lemma_number_run_bound(s, quality_start(s, i));
}

#[via_fn]
proof fn prefs_from_decreases(s: Seq<char>, i: int) {
    if 0 <= i < s.len() && word_char(s[i]) {
        lemma_token_advances(s, i);
    }
}

/// The preference pairs of a header text.
pub open spec fn prefs(s: Seq<char>) -> Seq<(LangCode, Quality)> {
    prefs_from(s, 0)
}

/// Whether the token at `a` has a primary subtag of exactly the two word
/// characters at `a` and `a + 1`, which name `p.0`, and has quality `p.1`.
pub open spec fn token_gives(s: Seq<char>, a: int, p: (LangCode, Quality)) -> bool {
    &&& 0 <= a
    &&& a + 2 <= s.len()
    &&& word_char(s[a])
    &&& word_char(s[a + 1])
    &&& lang_end(s, a) == a + 2
    &&& code_pair(p.0) == (s[a], s[a + 1])
    &&& token_quality(s, a) == p.1
}

proof fn lemma_prefs_from_tokens(s: Seq<char>, i: int, k: int)
    requires
        0 <= i,
        0 <= k < prefs_from(s, i).len(),
    ensures
        exists|a: int| i <= a && token_gives(s, a, #[trigger] prefs_from(s, i)[k]),
    decreases s.len() - i,
{
    if i < s.len() {
        if !word_char(s[i]) {
            lemma_prefs_from_tokens(s, i + 1, k);
        } else {
            lemma_token_advances(s, i);
            let e = token_end(s, i);
            match code_of(s.subrange(i, lang_end(s, i))) {
                Some(l) => {
                    if k == 0 {
                        assert(token_gives(s, i, prefs_from(s, i)[k]));
                    } else {
                        lemma_prefs_from_tokens(s, e, k - 1);
                        assert(prefs_from(s, i)[k] == prefs_from(s, e)[k - 1]);
                    }
                },
                None => {
                    lemma_prefs_from_tokens(s, e, k);
                },
            }
        }
    }
}

/// Every pair read from a header comes from a token of the header: one whose
/// primary subtag is two word characters of the text that name the pair's
/// language, and whose quality is the pair's.
pub proof fn lemma_pairs_come_from_tokens(s: Seq<char>, k: int)
    requires
        0 <= k < prefs(s).len(),
    ensures
        exists|a: int| token_gives(s, a, #[trigger] prefs(s)[k]),
{
    lemma_prefs_from_tokens(s, 0, k);
}

/// Every pair read from a header comes from a token of it, and where that
/// token has no `;q=` clause the pair's quality is exactly `1.0`.
pub proof fn lemma_default_quality(s: Seq<char>, k: int)
    requires
        0 <= k < prefs(s).len(),
    ensures
        exists|a: int|
            token_gives(s, a, #[trigger] prefs(s)[k]) && (!has_quality(s, a) ==> prefs(s)[k].1
                == one()),
{
    lemma_prefs_from_tokens(s, 0, k);
}

/// A header without any `;` gives every language it names the quality `1.0`.
pub proof fn lemma_no_clause_full_quality(s: Seq<char>, k: int)
    requires
        forall|j: int| 0 <= j < s.len() ==> s[j] != ';',
        0 <= k < prefs(s).len(),
    ensures
        prefs(s)[k].1 == one(),
{
    lemma_prefs_from_tokens(s, 0, k);
    let a = choose|a: int| 0 <= a && token_gives(s, a, #[trigger] prefs(s)[k]);
    assert(!has_quality(s, a));
}

fn word_run_at(text: &str, n: usize, i: usize) -> (r: usize)
    requires
        n == text@.len(),
        i <= n,
    ensures
        i + r <= n,
        r == word_run(text@, i as int),
{
    let mut k: usize = 0;
    while k < 3 && i + k < n && is_word(text.get_char(i + k))
        invariant
            n == text@.len(),
            i <= n,
            k <= 3,
            i + k <= n,
            forall|j: int| i <= j < i + k ==> word_char(#[trigger] text@[j]),
        decreases 3 - k,
    {
        k = k + 1;
    }
    k
}

fn is_number(c: char) -> (r: bool)
    ensures
        r == number_class_char(c),
{
    c == '.' || is_digit(c)
}

fn number_run_at(text: &str, n: usize, i: usize) -> (r: usize)
    requires
        n == text@.len(),
        i <= n,
    ensures
        i + r <= n,
        r == number_run(text@, i as int),
{
    let mut j: usize = i;
    while j < n && is_number(text.get_char(j))
        invariant
            n == text@.len(),
            i <= j <= n,
            number_run(text@, i as int) == (j - i) + number_run(text@, j as int),
        decreases n - j,
    {
        j = j + 1;
    }
    j - i
}

fn token_quality_at(text: &str, n: usize, qs: usize, end: usize) -> (r: Quality)
    requires
        n == text@.len(),
        qs <= end <= n,
    ensures
        r == (match read_decimal(text@.subrange(qs as int, end as int)) {
            Some(q) => q,
            None => one(),
        }),
{
    match read_quality(text, qs, end) {
        Some(q) => q,
        None => Quality::one(),
    }
}

/// The preference pairs of a header text, in the order of their tokens.
pub fn languages(text: &str) -> (r: Vec<(LangCode, Quality)>)
    ensures
        r@ == prefs(text@),
{
    let n = text.unicode_len();
    let ghost s = text@;
    let mut out: Vec<(LangCode, Quality)> = Vec::new();
    let mut i: usize = 0;
    while i < n
        invariant
            n == s.len(),
            s == text@,
            i <= n,
            out@ + prefs_from(s, i as int) == prefs(s),
        decreases n - i,
    {
        let c = text.get_char(i);
        if !is_word(c) {
            i = i + 1;
        } else {
            let le = i + word_run_at(text, n, i);
            let mut re = le;
            if n - le > 1 && text.get_char(le) == '-' {
                let w = word_run_at(text, n, le + 1);
                if w > 0 {
                    re = le + 1 + w;
                }
            }
            assert(re == region_end(s, i as int));
            let mut end = re;
            let mut q = Quality::one();
            if n - re > 3 && text.get_char(re) == ';' && text.get_char(re + 1) == 'q'
                && text.get_char(re + 2) == '=' {
                let r = number_run_at(text, n, re + 3);
                if r > 0 {
                    end = re + 3 + r;
                    q = token_quality_at(text, n, re + 3, end);
                }
            }
            assert(end == token_end(s, i as int));
            assert(q == token_quality(s, i as int));
            let lang = if le - i == 2 {
                LangCode::from_pair(text.get_char(i), text.get_char(i + 1))
            } else {
                None
            };
            proof {
                let t = s.subrange(i as int, le as int);
                if let Some(l) = lang {
                    assert(code_pair(l) == (t[0], t[1]));
                    let m = choose|m: LangCode| code_pair(m) == (t[0], t[1]);
                    lemma_code_pair_injective(l, m);
                }
            }
            assert(lang == code_of(s.subrange(i as int, le as int)));
            match lang {
                Some(l) => {
                    out.push((l, q));
                    assert(out@ + prefs_from(s, end as int) =~= prefs(s));
                },
                None => {},
            }
            i = end;
        }
    }
    assert(prefs_from(s, i as int) == Seq::<(LangCode, Quality)>::empty());
    assert(out@ =~= prefs(s));
    out
}

} // verus!
