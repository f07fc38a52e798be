//! Lowercase hexadecimal rendering of byte strings and of numbers.

use vstd::prelude::*;

verus! {

/// `String::push` appends one character.
pub assume_specification[ String::push ](text: &mut String, c: char)
    ensures
        final(text)@ == old(text)@.push(c),
;

/// The sixteen lowercase hexadecimal digits, in order of value.
pub open spec fn digits() -> Seq<char> {
    seq!['0', '1', '2', '3', '4', '5', '6', '7', '8', '9', 'a', 'b', 'c', 'd', 'e', 'f']
}

/// The digit that stands for `v`, for `0 <= v < 16`.
pub open spec fn hex_digit(v: int) -> char
    recommends
        0 <= v < 16,
{
    digits()[v]
}

/// Two digits per byte, high nibble first.
pub open spec fn lower_hex(bytes: Seq<u8>) -> Seq<char> {
    Seq::new(
        2 * bytes.len(),
        |i: int|
            if i % 2 == 0 {
                hex_digit(bytes[i / 2] as int / 16)
            } else {
                hex_digit(bytes[i / 2] as int % 16)
            },
    )
}

/// The digit for a nibble.
fn digit(v: u8) -> (c: char)
    requires
        v < 16,
    ensures
        c == hex_digit(v as int),
{
    if v < 10 {
        (v + 48) as char
    } else {
        (v + 87) as char
    }
}

/// Renders `bytes` as lowercase hexadecimal text.
pub fn encode(bytes: &[u8]) -> (text: String)
    ensures
        text@ == lower_hex(bytes@),
        text@.len() == 2 * bytes@.len(),
{
    let mut text = String::new();
    let mut i: usize = 0;
    while i < bytes.len()
        invariant
            i <= bytes.len(),
            text@.len() == 2 * i,
            forall|j: int| 0 <= j < 2 * i ==> text@[j] == lower_hex(bytes@)[j],
        decreases bytes.len() - i,
    {
        let b: u8 = bytes[i];
        text.push(digit(b / 16));
        text.push(digit(b % 16));
        i += 1;
    }
    text
}

/// The numeral of `n` in base sixteen: no leading zero, one digit for zero.
pub open spec fn lower_hex_number(n: nat) -> Seq<char>
    decreases n,
{
    if n < 16 {
        seq![hex_digit(n as int)]
    } else {
        lower_hex_number(n / 16).push(hex_digit((n % 16) as int))
    }
}

/// Renders `n` as a lowercase hexadecimal numeral.
pub fn encode_number(n: u128) -> (text: String)
    ensures
        text@ == lower_hex_number(n as nat),
    decreases n,
{
    if n < 16 {
        let mut text = String::new();
        text.push(digit(n as u8));
        text
    } else {
        let mut text = encode_number(n / 16);
        text.push(digit((n % 16) as u8));
        text
    }
}

/// The value of a digit, and sixteen for any other character.
pub open spec fn digit_value(c: char) -> nat {
    if digits().contains(c) {
        digits().index_of(c) as nat
    } else {
        16
    }
}

/// The number that a numeral stands for, most significant digit first.
pub open spec fn numeral_value(text: Seq<char>) -> nat
    decreases text.len(),
{
    if text.len() == 0 {
        0
    } else {
        16 * numeral_value(text.drop_last()) + digit_value(text.last())
    }
}

/// Each digit stands for its own value.
pub proof fn lemma_digit_value(v: int)
    requires
        0 <= v < 16,
    ensures
        digit_value(hex_digit(v)) == v,
{
    let d = digits();
    assert(d[v] == hex_digit(v));
    assert(d.contains(hex_digit(v)));
    let k = d.index_of(hex_digit(v));
    assert(0 <= k < 16 && d[k] == d[v]);
    assert(forall|a: int, b: int| 0 <= a < 16 && 0 <= b < 16 && d[a] == d[b] ==> a == b);
}

/// A numeral reads back as the number it was written from; so distinct
/// numbers have distinct numerals.
pub proof fn lemma_number_round_trip(n: nat)
    ensures
        numeral_value(lower_hex_number(n)) == n,
        lower_hex_number(n).len() >= 1,
    decreases n,
{
    if n < 16 {
        let t = lower_hex_number(n);
        assert(t.drop_last() =~= Seq::<char>::empty());
        assert(numeral_value(t.drop_last()) == 0);
        lemma_digit_value(n as int);
    } else {
        lemma_number_round_trip(n / 16);
        let t = lower_hex_number(n);
        assert(t.drop_last() =~= lower_hex_number(n / 16));
        lemma_digit_value((n % 16) as int);
    }
}

/// Equal renderings come from equal byte strings.
pub proof fn lemma_lower_hex_injective(a: Seq<u8>, b: Seq<u8>)
    requires
        lower_hex(a) == lower_hex(b),
    ensures
        a == b,
{
    assert(lower_hex(a).len() == 2 * a.len());
    assert(lower_hex(b).len() == 2 * b.len());
    assert forall|i: int| 0 <= i < a.len() implies a[i] == b[i] by {
        let hi_a = a[i] as int / 16;
        let lo_a = a[i] as int % 16;
        let hi_b = b[i] as int / 16;
        let lo_b = b[i] as int % 16;
        assert(lower_hex(a)[2 * i] == hex_digit(hi_a));
        assert(lower_hex(b)[2 * i] == hex_digit(hi_b));
        assert(lower_hex(a)[2 * i + 1] == hex_digit(lo_a));
        assert(lower_hex(b)[2 * i + 1] == hex_digit(lo_b));
        lemma_digit_value(hi_a);
        lemma_digit_value(hi_b);
        lemma_digit_value(lo_a);
        lemma_digit_value(lo_b);
    }
    assert(a =~= b);
}

} // verus!
