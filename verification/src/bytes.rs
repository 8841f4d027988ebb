//! Byte-sequence helpers: plain equality, ASCII case folding, and a
//! constant-time comparison used for signature checks.

use vstd::prelude::*;

verus! {

/// ASCII lower-casing of a single byte.
pub open spec fn lower_byte(b: u8) -> u8 {
    if 65 <= b && b <= 90 {
        (b + 32) as u8
    } else {
        b
    }
}

/// ASCII lower-casing of a byte sequence.
pub open spec fn lower_bytes(s: Seq<u8>) -> Seq<u8> {
    Seq::new(s.len(), |i: int| lower_byte(s[i]))
}

/// Plain byte-vector equality.
pub fn bytes_eq(a: &Vec<u8>, b: &Vec<u8>) -> (r: bool)
    ensures
        r == (a@ == b@),
{
    if a.len() != b.len() {
        assert(a@ != b@) by {
            assert(a@.len() != b@.len());
        }
        return false;
    }
    let n = a.len();
    let mut i: usize = 0;
    while i < n
        invariant
            n == a.len() == b.len(),
            i <= n,
            forall|j: int| 0 <= j < i ==> a@[j] == b@[j],
        decreases n - i,
    {
        if a[i] != b[i] {
            assert(a@ != b@) by {
                assert(a@[i as int] != b@[i as int]);
            }
            return false;
        }
        i = i + 1;
    }
    assert(a@ =~= b@);
    true
}

/// Case-insensitive ASCII equality, used for header-name matching.
pub fn eq_ignore_ascii_case(a: &Vec<u8>, b: &Vec<u8>) -> (r: bool)
    ensures
        r == (lower_bytes(a@) == lower_bytes(b@)),
{
    if a.len() != b.len() {
        assert(lower_bytes(a@) != lower_bytes(b@)) by {
            assert(lower_bytes(a@).len() != lower_bytes(b@).len());
        }
        return false;
    }
    let n = a.len();
    let mut i: usize = 0;
    while i < n
        invariant
            n == a.len() == b.len(),
            i <= n,
            forall|j: int| 0 <= j < i ==> lower_byte(a@[j]) == lower_byte(b@[j]),
        decreases n - i,
    {
        let x = a[i];
        let y = b[i];
        let xl: u8 = if 65 <= x && x <= 90 { x + 32 } else { x };
        let yl: u8 = if 65 <= y && y <= 90 { y + 32 } else { y };
        if xl != yl {
            assert(lower_bytes(a@) != lower_bytes(b@)) by {
                assert(lower_bytes(a@)[i as int] != lower_bytes(b@)[i as int]);
            }
            return false;
        }
        i = i + 1;
    }
    assert(lower_bytes(a@) =~= lower_bytes(b@));
    true
}

/// Equality without an early exit on the first differing byte: the running
/// time depends only on the lengths, never on where the contents differ, so
/// a caller comparing digests leaks nothing about them through timing.
pub fn constant_time_eq(a: &Vec<u8>, b: &Vec<u8>) -> (r: bool)
    ensures
        r == (a@ == b@),
{
    if a.len() != b.len() {
        assert(a@ != b@) by {
            assert(a@.len() != b@.len());
        }
        return false;
    }
    let n = a.len();
    let mut diff: u8 = 0;
    let mut i: usize = 0;
    while i < n
        invariant
            n == a.len() == b.len(),
            i <= n,
            (diff == 0) <==> (forall|j: int| 0 <= j < i ==> a@[j] == b@[j]),
        decreases n - i,
    {
        let x = a[i];
        let y = b[i];
        let d = diff;
        proof {
            assert(((d | (x ^ y)) == 0) == (d == 0 && x == y)) by (bit_vector);
        }
        diff = d | (x ^ y);
        i = i + 1;
    }
    if diff == 0 {
        assert(a@ =~= b@);
        true
    } else {
        assert(a@ != b@) by {
            assert(!(forall|j: int| 0 <= j < n ==> a@[j] == b@[j]));
            let k = choose|j: int| 0 <= j < n && a@[j] != b@[j];
            assert(a@[k] != b@[k]);
        }
        false
    }
}

} // verus!
