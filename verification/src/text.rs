//! The score display slots. The display collaborator owns the rendering of
//! the two labels; the core's job is to put the right decimal text into the
//! right slot whenever a score changes.

use vstd::prelude::*;
use crate::components::Side;

verus! {

/// The decimal digits of `n`, most significant first, as ASCII bytes.
pub open spec fn decimal_digits(n: nat) -> Seq<u8>
    decreases n,
{
    if n < 10 {
        seq![(48 + n) as u8]
    } else {
        decimal_digits(n / 10).push((48 + n % 10) as u8)
    }
}

/// Appends the decimal digits of `n` to `out`.
fn push_decimal_digits(n: u32, out: &mut Vec<u8>)
    ensures
        final(out)@ == old(out)@ + decimal_digits(n as nat),
    decreases n,
{
    if n >= 10 {
        push_decimal_digits(n / 10, out);
    }
    out.push(48 + (n % 10) as u8);
}

/// The decimal text of a non-negative score, as ASCII bytes.
pub fn score_digits(score: i32) -> (r: Vec<u8>)
    requires
        0 <= score,
    ensures
        r@ == decimal_digits(score as nat),
{
    let mut out: Vec<u8> = Vec::new();
    push_decimal_digits(score as u32, &mut out);
    out
}

/// The two score labels, by the text each currently shows. `p1_score` is the
/// left player's label, `p2_score` the right player's.
pub struct ScoreText {
    pub p1_score: Vec<u8>,
    pub p2_score: Vec<u8>,
}

impl ScoreText {
    /// Both labels showing zero, as at scene start.
    pub fn new() -> (t: ScoreText)
        ensures
            t.p1_score@ == decimal_digits(0),
            t.p2_score@ == decimal_digits(0),
    {
        ScoreText { p1_score: score_digits(0), p2_score: score_digits(0) }
    }

    /// Writes `score` into the label of the given side, leaving the other
    /// label untouched.
    pub fn set_score(&mut self, side: Side, score: i32)
        requires
            0 <= score,
        ensures
            final(self).p1_score@ == if side is Left {
                decimal_digits(score as nat)
            } else {
                old(self).p1_score@
            },
            final(self).p2_score@ == if side is Right {
                decimal_digits(score as nat)
            } else {
                old(self).p2_score@
            },
    {
        let digits = score_digits(score);
        match side {
            Side::Left => {
                self.p1_score = digits;
            },
            Side::Right => {
                self.p2_score = digits;
            },
        }
    }
}

} // verus!
