//! The local save of the best score: its text and how it is read back.

use vstd::prelude::*;
use crate::plane_war::flow::HighScore;
use crate::plane_war::hud::{decimal, decimal_text, digit_char};

verus! {

/// Whether `c` is an ASCII decimal digit.
pub open spec fn is_digit(c: char) -> bool {
    '0' <= c && c <= '9'
}

/// The number written by the digits `s` (most significant first).
pub open spec fn digits_value(s: Seq<char>) -> int
    decreases s.len(),
{
    if s.len() == 0 {
        0
    } else {
        digits_value(s.drop_last()) * 10 + (s.last() as int - '0' as int)
    }
}

/// `s` is a non-empty run of decimal digits.
pub open spec fn all_digits(s: Seq<char>) -> bool {
    s.len() > 0 && forall|i: int| 0 <= i < s.len() ==> is_digit(#[trigger] s[i])
}

/// The text stored in the save: the best score in decimal.
pub fn save_text(high: HighScore) -> (r: String)
    ensures
        r@ == decimal(high.0 as nat),
{
    decimal_text(high.0)
}

proof fn lemma_digits_value_prefix(s: Seq<char>, n: int)
    requires
        0 <= n <= s.len(),
        forall|i: int| 0 <= i < s.len() ==> is_digit(#[trigger] s[i]),
    ensures
        0 <= digits_value(s.take(n)) <= digits_value(s),
    decreases s.len(),
{
    if n == s.len() {
        assert(s.take(n) =~= s);
        lemma_digits_value_nonneg(s);
    } else {
        let t = s.drop_last();
        assert forall|i: int| 0 <= i < t.len() implies is_digit(#[trigger] t[i]) by {
            assert(t[i] == s[i]);
        }
        lemma_digits_value_prefix(t, n);
        assert(t.take(n) =~= s.take(n));
        lemma_digits_value_nonneg(t);
        assert(is_digit(s[s.len() - 1]));
    }
}

proof fn lemma_digits_value_nonneg(s: Seq<char>)
    requires
        forall|i: int| 0 <= i < s.len() ==> is_digit(#[trigger] s[i]),
    ensures
        0 <= digits_value(s),
    decreases s.len(),
{
    if s.len() > 0 {
        let t = s.drop_last();
        assert forall|i: int| 0 <= i < t.len() implies is_digit(#[trigger] t[i]) by {
            assert(t[i] == s[i]);
        }
        lemma_digits_value_nonneg(t);
        assert(is_digit(s[s.len() - 1]));
    }
}

/// Reads the saved best score: `Some` exactly when the text is a non-empty
/// run of decimal digits whose value fits a `u32`.
pub fn parse_saved_high(text: &Vec<char>) -> (r: Option<HighScore>)
    ensures
        r is Some <==> all_digits(text@) && digits_value(text@) <= u32::MAX,
        r matches Some(h) ==> h.0 == digits_value(text@),
{
    if text.len() == 0 {
        return None;
    }
    let mut i: usize = 0;
    while i < text.len()
        invariant
            i <= text@.len(),
            forall|j: int| 0 <= j < i ==> is_digit(#[trigger] text@[j]),
        decreases text@.len() - i,
    {
        let c = text[i];
        if !('0' <= c && c <= '9') {
            return None;
        }
        i = i + 1;
    }
    let mut value: u64 = 0;
    let mut k: usize = 0;
    while k < text.len()
        invariant
            k <= text@.len(),
            forall|j: int| 0 <= j < text@.len() ==> is_digit(#[trigger] text@[j]),
            value == digits_value(text@.take(k as int)),
            value <= u32::MAX,
        decreases text@.len() - k,
    {
        proof {
            lemma_digits_value_prefix(text@, k + 1);
            assert(text@.take(k + 1).drop_last() =~= text@.take(k as int));
            assert(is_digit(text@[k as int]));
        }
        let d = (text[k] as u32 - '0' as u32) as u64;
        let next = value * 10 + d;
        if next > u32::MAX as u64 {
            return None;
        }
        value = next;
        k = k + 1;
    }
    proof {
        assert(text@.take(text@.len() as int) =~= text@);
    }
    Some(HighScore(value as u32))
}

proof fn lemma_decimal_value(n: nat)
    ensures
        all_digits(decimal(n)),
        digits_value(decimal(n)) == n,
    decreases n,
{
    if n >= 10 {
        lemma_decimal_value(n / 10);
        let s = decimal(n);
        let t = decimal(n / 10);
        assert(s.drop_last() =~= t);
        assert forall|i: int| 0 <= i < s.len() implies is_digit(#[trigger] s[i]) by {
            if i < t.len() {
                assert(s[i] == t[i]);
            }
        }
        assert(s.last() == digit_char((n % 10) as nat));
        assert(digit_char((n % 10) as nat) as int == 48 + n % 10);
        assert(digits_value(s) == digits_value(t) * 10 + (n % 10));
        assert(n == (n / 10) * 10 + n % 10);
    } else {
        let s = decimal(n);
        assert(digit_char(n) as int == 48 + n);
        assert(s.drop_last() =~= Seq::<char>::empty());
        assert(digits_value(s.drop_last()) == 0);
        assert(digits_value(s) == n);
    }
}

/// What the save holds reads back as the same best score.
pub proof fn lemma_save_round_trip(high: u32)
    ensures
        all_digits(decimal(high as nat)),
        digits_value(decimal(high as nat)) == high,
{
    lemma_decimal_value(high as nat);
}

} // verus!
