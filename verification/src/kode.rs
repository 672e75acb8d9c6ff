//! Join codes: six characters out of lower-case letters and digits, each
//! code standing for one number below 36 to the sixth power.

use vstd::prelude::*;
use crate::text::push_char;

verus! {

/// The characters that a join code has.
pub const KODE_LENGTH: usize = 6;

/// How many join codes there are: 36 to the sixth power.
pub const KODE_SPACE: u32 = 2_176_782_336;

/// The character that stands for a digit below 36: `a` to `z` for the
/// first twenty-six, `0` to `9` for the rest.
pub open spec fn symbol(digit: int) -> char {
    if digit < 26 {
        (97 + digit) as char
    } else {
        (22 + digit) as char
    }
}

/// The join code that stands for `n`: its six digits to the base 36, the
/// most significant first.
pub open spec fn kode_of(n: int) -> Seq<char> {
    let q1 = n / 36;
    let q2 = q1 / 36;
    let q3 = q2 / 36;
    let q4 = q3 / 36;
    let q5 = q4 / 36;
    seq![
        symbol(q5 % 36),
        symbol(q4 % 36),
        symbol(q3 % 36),
        symbol(q2 % 36),
        symbol(q1 % 36),
        symbol(n % 36),
    ]
}

/// The text is a join code.
pub open spec fn is_kode(text: Seq<char>) -> bool {
    exists|n: int| 0 <= n < KODE_SPACE && text == #[trigger] kode_of(n)
}

/// The character for a digit.
fn symbol_for(digit: u32) -> (c: char)
    requires
        digit < 36,
    ensures
        c == symbol(digit as int),
{
    if digit < 26 {
        (97u8 + digit as u8) as char
    } else {
        (22u8 + digit as u8) as char
    }
}

/// `rand::Rng::gen_range` on `rand::thread_rng`, over the numbers from zero
/// up to `bound`, which is left out.
///
/// Trusted: the number drawn is below `bound`. The range must not be empty.
#[verifier::external_body]
pub(crate) fn random_below(bound: u32) -> (r: u32)
    requires
        bound > 0,
    ensures
        r < bound,
{
    rand::Rng::gen_range(&mut rand::thread_rng(), 0..bound)
}

/// The join code that stands for `n`, as text.
pub fn kode_text(n: u32) -> (r: String)
    requires
        n < KODE_SPACE,
    ensures
        r@ == kode_of(n as int),
        r@.len() == KODE_LENGTH,
        is_kode(r@),
{
    let q1: u32 = n / 36;
    let q2: u32 = q1 / 36;
    let q3: u32 = q2 / 36;
    let q4: u32 = q3 / 36;
    let q5: u32 = q4 / 36;
    let mut text = String::new();
    push_char(&mut text, symbol_for(q5 % 36));
    push_char(&mut text, symbol_for(q4 % 36));
    push_char(&mut text, symbol_for(q3 % 36));
    push_char(&mut text, symbol_for(q2 % 36));
    push_char(&mut text, symbol_for(q1 % 36));
    push_char(&mut text, symbol_for(n % 36));
    text
}

/// Draws a join code at random.
pub fn generate_kode() -> (r: String)
    ensures
        is_kode(r@),
        r@.len() == KODE_LENGTH,
{
    kode_text(random_below(KODE_SPACE))
}

/// Different digits have different characters.
pub proof fn lemma_symbol_injective(d: int, e: int)
    requires
        0 <= d < 36,
        0 <= e < 36,
        symbol(d) == symbol(e),
    ensures
        d == e,
{
}

/// Different numbers have different join codes.
pub proof fn lemma_kode_of_injective(a: int, b: int)
    requires
        0 <= a < KODE_SPACE,
        0 <= b < KODE_SPACE,
        kode_of(a) == kode_of(b),
    ensures
        a == b,
{
    let (a1, b1) = (a / 36, b / 36);
    let (a2, b2) = (a1 / 36, b1 / 36);
    let (a3, b3) = (a2 / 36, b2 / 36);
    let (a4, b4) = (a3 / 36, b3 / 36);
    let (a5, b5) = (a4 / 36, b4 / 36);
    lemma_symbol_injective(a5 % 36, b5 % 36);
    lemma_symbol_injective(a4 % 36, b4 % 36);
    lemma_symbol_injective(a3 % 36, b3 % 36);
    lemma_symbol_injective(a2 % 36, b2 % 36);
    lemma_symbol_injective(a1 % 36, b1 % 36);
    lemma_symbol_injective(a % 36, b % 36);
}

} // verus!
