//! Lowercase hex encoding: an exact specification, the trusted bridge to the
//! `hex` crate, and the injectivity lemma the byte-exactness law rests on.

use vstd::prelude::*;

verus! {

/// The ASCII code of the lowercase hex digit for a nibble.
pub open spec fn hex_digit(n: u8) -> u8
    recommends
        n < 16,
{
    if n < 10 {
        (48 + n) as u8
    } else {
        (87 + n) as u8
    }
}

/// Lowercase hex encoding of a byte sequence: two digits per byte, high
/// nibble first.
pub open spec fn hex_of(bytes: Seq<u8>) -> Seq<u8>
    decreases bytes.len(),
{
    if bytes.len() == 0 {
        Seq::empty()
    } else {
        seq![hex_digit(bytes[0] / 16), hex_digit(bytes[0] % 16)] + hex_of(bytes.drop_first())
    }
}

pub proof fn lemma_hex_of_len(bytes: Seq<u8>)
    ensures
        hex_of(bytes).len() == 2 * bytes.len(),
    decreases bytes.len(),
{
    if bytes.len() > 0 {
        lemma_hex_of_len(bytes.drop_first());
    }
}

/// Two distinct nibbles never share a hex digit.
proof fn lemma_hex_digit_injective(x: u8, y: u8)
    requires
        x < 16,
        y < 16,
        hex_digit(x) == hex_digit(y),
    ensures
        x == y,
{
}

/// Hex encoding is injective: equal encodings come from equal byte
/// sequences.  This is what makes signature checking byte-exact.
pub proof fn lemma_hex_of_injective(a: Seq<u8>, b: Seq<u8>)
    requires
        hex_of(a) == hex_of(b),
    ensures
        a == b,
    decreases a.len(),
{
    lemma_hex_of_len(a);
    lemma_hex_of_len(b);
    if a.len() == 0 {
        assert(a =~= b);
    } else {
        assert(hex_of(a)[0] == hex_digit(a[0] / 16));
        assert(hex_of(a)[1] == hex_digit(a[0] % 16));
        assert(hex_of(b)[0] == hex_digit(b[0] / 16));
        assert(hex_of(b)[1] == hex_digit(b[0] % 16));
        lemma_hex_digit_injective(a[0] / 16, b[0] / 16);
        lemma_hex_digit_injective(a[0] % 16, b[0] % 16);
        assert(a[0] == b[0]) by {
            assert(a[0] == 16 * (a[0] / 16) + a[0] % 16);
            assert(b[0] == 16 * (b[0] / 16) + b[0] % 16);
        }
        assert(hex_of(a.drop_first()) =~= hex_of(b.drop_first())) by {
            assert(forall|i: int|
                0 <= i < hex_of(a.drop_first()).len() ==> hex_of(a.drop_first())[i] == hex_of(
                    a,
                )[i + 2]);
            assert(forall|i: int|
                0 <= i < hex_of(b.drop_first()).len() ==> hex_of(b.drop_first())[i] == hex_of(
                    b,
                )[i + 2]);
        }
        lemma_hex_of_injective(a.drop_first(), b.drop_first());
        assert forall|i: int| 0 <= i < a.len() implies a[i] == b[i] by {
            if i >= 1 {
                assert(a.drop_first()[i - 1] == a[i]);
                assert(b.drop_first()[i - 1] == b[i]);
            }
        }
        assert(a =~= b);
    }
}

/// Relies on `hex::encode`: it returns the lowercase hex encoding of its
/// input, two digits per byte, high nibble first.
#[verifier::external_body]
pub(crate) fn hex_encode_bytes(bytes: &Vec<u8>) -> (r: Vec<u8>)
    ensures
        r@ == hex_of(bytes@),
{
    hex::encode(bytes).into_bytes()
}

} // verus!
