//! Deriving the control command from the two analog magnitudes.
//!
//! One magnitude accelerates, the other decelerates, and deceleration
//! takes strict priority whenever it is present and non-zero. Full
//! scale (255) maps to a target speed of 3000, linearly and rounded to
//! the nearest integer; the decelerating magnitude maps to the negated
//! scaled value.

use vstd::arithmetic::div_mod::lemma_fundamental_div_mod;
use vstd::arithmetic::div_mod::lemma_fundamental_div_mod_converse_div;
use vstd::arithmetic::div_mod::lemma_mod_bound;
use vstd::prelude::*;

verus! {

/// The nearest integer to `x * 3000 / 255`, for `0 <= x <= 255`.
/// (`6000 * x + 255` is never a multiple of `510`, so no tie arises.)
pub open spec fn scaled(x: int) -> int {
    (6000 * x + 255) / 510
}

/// The command two magnitudes derive: the second, when present and
/// non-zero, takes priority and drives in reverse; otherwise the first
/// (absent read as zero) drives forward.
pub open spec fn command_of(first: Option<u8>, second: Option<u8>) -> int {
    if second is Some && second->0 != 0 {
        -scaled(second->0 as int)
    } else {
        scaled(first.unwrap_or(0) as int)
    }
}

/// `scaled(x)` is the integer nearest to the exact ratio `x * 3000 / 255`:
/// scaled by 510, it differs from `6000 * x` by less than 255 (a tie,
/// where both would differ by exactly 255, cannot arise for these inputs).
pub proof fn lemma_scaled_is_nearest(x: int)
    requires
        0 <= x <= 255,
    ensures
        -255 <= 6000 * x - 510 * scaled(x) < 255,
{
    lemma_fundamental_div_mod(6000 * x + 255, 510);
    lemma_mod_bound(6000 * x + 255, 510);
}

/// The command is decided by the priority rule alone: a present,
/// non-zero second magnitude decides it regardless of the first, and
/// otherwise the first magnitude (absent read as zero) decides it
/// regardless of the second.
pub proof fn lemma_command_priority(first: Option<u8>, second: Option<u8>)
    ensures
        second is Some && second->0 != 0 ==> forall|other: Option<u8>|
            #[trigger] command_of(other, second) == -scaled(second->0 as int),
        !(second is Some && second->0 != 0) ==> command_of(first, second) == scaled(
            first.unwrap_or(0) as int,
        ),
{
}

/// The scaled magnitude, computed exactly in integers.
fn scale_magnitude(x: u8) -> (r: u32)
    ensures
        r == scaled(x as int),
        r <= 3000,
{
    let r = (x as u32 * 3000 + 127) / 255;
    proof {
        let a = 3000 * (x as int) + 127;
        let q = a / 255;
        let rem = a % 255;
        lemma_fundamental_div_mod(a, 255);
        lemma_mod_bound(a, 255);
        assert(6000 * (x as int) + 255 == q * 510 + (2 * rem + 1));
        lemma_fundamental_div_mod_converse_div(6000 * (x as int) + 255, 510, q, 2 * rem + 1);
    }
    r
}

/// Derive the control command from the two analog magnitudes: the
/// result is `command_of(first, second)`, always within `-3000 ..= 3000`.
pub fn derive_command(first: Option<u8>, second: Option<u8>) -> (c: i32)
    ensures
        c == command_of(first, second),
        -3000 <= c <= 3000,
{
    match second {
        Some(y) if y != 0 => -(scale_magnitude(y) as i32),
        _ => match first {
            Some(x) => scale_magnitude(x) as i32,
            None => 0,
        },
    }
}

} // verus!
