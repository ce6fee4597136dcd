//! The score line shown in the HUD and on the game-over screen.

use vstd::prelude::*;
use vstd::string::StringExecFns;
use crate::plane_war::flow::{HighScore, Score};

verus! {

/// The decimal digit `d` (`0 <= d < 10`) as a character.
pub open spec fn digit_char(d: nat) -> char {
    (48 + d) as char
}

/// Decimal notation of `n`, without leading zeros.
pub open spec fn decimal(n: nat) -> Seq<char>
    decreases n,
{
    if n < 10 {
        seq![digit_char(n)]
    } else {
        decimal(n / 10).push(digit_char(n % 10))
    }
}

/// The text `Score: <score>  Best: <high>`.
pub open spec fn score_line_text(score: u32, high: u32) -> Seq<char> {
    "Score: "@ + decimal(score as nat) + "  Best: "@ + decimal(high as nat)
}

/// Decimal text of `n` through `ToString` (the `Display` impl); std
/// documents that a `u32` displays in decimal without leading zeros.
#[verifier::external_body]
fn decimal_string(n: u32) -> (r: String)
    ensures
        r@ == decimal(n as nat),
{
    n.to_string()
}

/// `n` in decimal.
pub fn decimal_text(n: u32) -> (r: String)
    ensures
        r@ == decimal(n as nat),
{
    decimal_string(n)
}

/// The HUD text for the current score and the best score.
pub fn score_line(score: Score, high: HighScore) -> (r: String)
    ensures
        r@ == score_line_text(score.0, high.0),
{
    let mut line = "Score: ".to_owned();
    line.append(decimal_string(score.0).as_str());
    line.append("  Best: ");
    line.append(decimal_string(high.0).as_str());
    line
}

/// Decimal notation spelled out: a single digit below ten, otherwise the
/// notation of the tens followed by the last digit; every character is a
/// digit `0`..`9`.
pub proof fn lemma_decimal_shape(n: nat)
    ensures
        n < 10 ==> decimal(n) == seq![digit_char(n)],
        n >= 10 ==> decimal(n) == decimal(n / 10).push(digit_char(n % 10)),
        decimal(n).len() >= 1,
        forall|i: int| 0 <= i < decimal(n).len() ==> '0' <= #[trigger] decimal(n)[i] <= '9',
    decreases n,
{
    if n >= 10 {
        lemma_decimal_shape(n / 10);
        let t = decimal(n / 10);
        assert forall|i: int| 0 <= i < decimal(n).len() implies '0' <= #[trigger] decimal(n)[i]
            <= '9' by {
            if i < t.len() {
                assert(decimal(n)[i] == t[i]);
            }
        }
    }
}

} // verus!
