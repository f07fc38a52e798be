//! The session identifier of a login attempt: a fresh 128-bit random number,
//! written as a lowercase hexadecimal numeral.

use vstd::prelude::*;
use crate::hex::{digits, encode_number, hex_digit, lower_hex_number};

verus! {

/// `rand::random::<u128>()`: a number drawn from the thread's generator.
/// Nothing is claimed of the number drawn.
#[verifier::external_body]
fn random_u128() -> u128 {
    rand::random()
}

/// Whether `text` is the identifier of some 128-bit number.
pub open spec fn is_web_finger(text: Seq<char>) -> bool {
    exists|nonce: u128| text == #[trigger] lower_hex_number(nonce as nat)
}

/// The identifier that stands for `nonce`.
pub fn web_finger(nonce: u128) -> (text: String)
    ensures
        text@ == lower_hex_number(nonce as nat),
        is_web_finger(text@),
{
    encode_number(nonce)
}

/// Draws a fresh identifier. Which one comes back is open; that it is the
/// numeral of a 128-bit number is not.
pub fn generate_random_web_finger() -> (text: String)
    ensures
        is_web_finger(text@),
{
    web_finger(random_u128())
}

/// There are identifiers: the numeral of zero is one.
pub proof fn lemma_web_finger_exists() -> (text: Seq<char>)
    ensures
        is_web_finger(text),
{
    lower_hex_number(0u128 as nat)
}

/// Sixteen to the power `k`.
pub open spec fn sixteen_to(k: nat) -> nat
    decreases k,
{
    if k == 0 {
        1
    } else {
        16 * sixteen_to((k - 1) as nat)
    }
}

/// A number below sixteen to the `k` has a numeral of at most `k` digits
/// (one digit at least), all of them lowercase hexadecimal digits.
pub proof fn lemma_numeral_shape(n: nat, k: nat)
    requires
        k >= 1,
        n < sixteen_to(k),
    ensures
        1 <= lower_hex_number(n).len() <= k,
        forall|i: int|
            0 <= i < lower_hex_number(n).len() ==> digits().contains(
                #[trigger] lower_hex_number(n)[i],
            ),
    decreases n,
{
    reveal_with_fuel(sixteen_to, 2);
    if n < 16 {
        assert(digits()[n as int] == hex_digit(n as int));
    } else {
        assert(k >= 2);
        lemma_numeral_shape(n / 16, (k - 1) as nat);
        assert(digits()[(n % 16) as int] == hex_digit((n % 16) as int));
    }
}

/// An identifier has between one and thirty-two characters, all of them
/// lowercase hexadecimal digits.
pub proof fn lemma_web_finger_shape(text: Seq<char>)
    requires
        is_web_finger(text),
    ensures
        1 <= text.len() <= 32,
        forall|i: int| 0 <= i < text.len() ==> digits().contains(#[trigger] text[i]),
{
    let nonce = choose|nonce: u128| text == #[trigger] lower_hex_number(nonce as nat);
    assert(sixteen_to(32) == 0x1_0000_0000_0000_0000_0000_0000_0000_0000) by {
        reveal_with_fuel(sixteen_to, 33);
    }
    lemma_numeral_shape(nonce as nat, 32);
}

} // verus!
