//! The `application/x-www-form-urlencoded` encoding of a byte string, as a
//! form value goes over the wire.

use crate::text::count_of;
use crate::text::lemma_count_zero;
use vstd::prelude::*;

verus! {

/// Whether a byte stands for itself in a form value: an ASCII letter or
/// digit, or one of `*`, `-`, `.` and `_`.
pub open spec fn form_unchanged(b: u8) -> bool {
    ||| b == 0x2a
    ||| b == 0x2d
    ||| b == 0x2e
    ||| b == 0x5f
    ||| 0x30 <= b <= 0x39
    ||| 0x41 <= b <= 0x5a
    ||| 0x61 <= b <= 0x7a
}

/// The upper-case hexadecimal digit of a value below sixteen, as a byte.
pub open spec fn upper_hex(value: int) -> u8
    recommends
        0 <= value < 16,
{
    if value < 10 {
        (0x30 + value) as u8
    } else {
        (0x37 + value) as u8
    }
}

/// What one byte becomes in a form value: itself where it stands for
/// itself, `+` for a space, and else `%` with its two upper-case
/// hexadecimal digits.
pub open spec fn form_encoded_byte(b: u8) -> Seq<u8> {
    if form_unchanged(b) {
        seq![b]
    } else if b == 0x20 {
        seq![0x2bu8]
    } else {
        seq![0x25u8, upper_hex(b as int / 16), upper_hex(b as int % 16)]
    }
}

/// The form encoding of a byte string: the encodings of its bytes, in
/// their order.
pub open spec fn form_encoded(bytes: Seq<u8>) -> Seq<u8>
    decreases bytes.len(),
{
    if bytes.len() == 0 {
        Seq::empty()
    } else {
        form_encoded(bytes.drop_last()) + form_encoded_byte(bytes.last())
    }
}

/// Whether a byte can occur in a form value: one that stands for itself,
/// `+` or `%`.
pub open spec fn form_safe(b: u8) -> bool {
    form_unchanged(b) || b == 0x2b || b == 0x25
}

/// A form value is made of bytes that stand for themselves, `+` and `%`:
/// it holds neither `&` nor `=`, nor NUL, nor anything beyond ASCII.
pub proof fn lemma_form_encoded_safe(bytes: Seq<u8>)
    ensures
        forall|i: int| 0 <= i < form_encoded(bytes).len() ==> form_safe(#[trigger] form_encoded(bytes)[i]),
        count_of(form_encoded(bytes), 0x26u8) == 0,
        count_of(form_encoded(bytes), 0x3du8) == 0,
        count_of(form_encoded(bytes), 0u8) == 0,
    decreases bytes.len(),
{
    if bytes.len() > 0 {
        lemma_form_encoded_safe(bytes.drop_last());
        let b = bytes.last();
        let one = form_encoded_byte(b);
        assert(forall|i: int| 0 <= i < one.len() ==> form_safe(#[trigger] one[i]));
    }
    lemma_count_zero(form_encoded(bytes), 0x26u8);
    lemma_count_zero(form_encoded(bytes), 0x3du8);
    lemma_count_zero(form_encoded(bytes), 0u8);
}

/// The form encoding goes piece by piece over a concatenation.
pub proof fn lemma_form_encoded_concat(a: Seq<u8>, b: Seq<u8>)
    ensures
        form_encoded(a + b) == form_encoded(a) + form_encoded(b),
    decreases b.len(),
{
    if b.len() == 0 {
        assert(a + b =~= a);
        assert(form_encoded(a) + form_encoded(b) =~= form_encoded(a));
    } else {
        lemma_form_encoded_concat(a, b.drop_last());
        assert((a + b).drop_last() =~= a + b.drop_last());
        assert((a + b).last() == b.last());
        assert(form_encoded(a + b) =~= form_encoded(a) + form_encoded(b));
    }
}

/// The upper-case hexadecimal digit of a value below sixteen.
fn upper_hex_digit(value: u8) -> (digit: u8)
    requires
        value < 16,
    ensures
        digit == upper_hex(value as int),
{
    if value < 10 {
        0x30 + value
    } else {
        0x37 + value
    }
}

/// Whether a byte stands for itself in a form value.
pub fn is_form_unchanged(b: u8) -> (unchanged: bool)
    ensures
        unchanged == form_unchanged(b),
{
    b == 0x2a || b == 0x2d || b == 0x2e || b == 0x5f || (0x30 <= b && b <= 0x39) || (0x41 <= b
        && b <= 0x5a) || (0x61 <= b && b <= 0x7a)
}

/// Appends the form encoding of `bytes` to `out`.
pub fn push_form_encoded(out: &mut Vec<u8>, bytes: &[u8])
    ensures
        final(out)@ == old(out)@ + form_encoded(bytes@),
{
    let ghost before = out@;
    let mut i: usize = 0;
    assert(bytes@.take(0) =~= Seq::<u8>::empty());
    assert(out@ =~= before + form_encoded(bytes@.take(0)));
    while i < bytes.len()
        invariant
            i <= bytes.len(),
            out@ == before + form_encoded(bytes@.take(i as int)),
        decreases bytes.len() - i,
    {
        let b: u8 = bytes[i];
        let ghost done = out@;
        if is_form_unchanged(b) {
            out.push(b);
        } else if b == 0x20 {
            out.push(0x2bu8);
        } else {
            out.push(0x25u8);
            out.push(upper_hex_digit(b / 16));
            out.push(upper_hex_digit(b % 16));
        }
        proof {
            let next = bytes@.take(i + 1);
            assert(next.drop_last() =~= bytes@.take(i as int));
            assert(next.last() == b);
            assert(out@ =~= done + form_encoded_byte(b));
            assert(out@ =~= before + form_encoded(next));
        }
        i = i + 1;
    }
    assert(bytes@.take(bytes.len() as int) =~= bytes@);
}

/// The form encoding of a byte string.
pub fn form_encode(bytes: &[u8]) -> (encoded: Vec<u8>)
    ensures
        encoded@ == form_encoded(bytes@),
{
    let mut encoded: Vec<u8> = Vec::new();
    push_form_encoded(&mut encoded, bytes);
    assert(encoded@ =~= form_encoded(bytes@));
    encoded
}

} // verus!
