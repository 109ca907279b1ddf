//! Byte-string helpers: lexicographic order and little-endian lengths.

use vstd::prelude::*;

verus! {

/// Index `i` is the first place where `a` and `b` differ, and there `a`
/// holds the smaller byte.
pub open spec fn first_diff_less(a: Seq<u8>, b: Seq<u8>, i: int) -> bool {
    &&& 0 <= i < a.len()
    &&& i < b.len()
    &&& a[i] < b[i]
    &&& forall|j: int| 0 <= j < i ==> a[j] == b[j]
}

/// `a` comes no later than `b` in lexicographic order (the order of
/// byte arrays, and of big-endian numbers of one width).
pub open spec fn lex_le(a: Seq<u8>, b: Seq<u8>) -> bool {
    a == b || exists|i: int| #[trigger] first_diff_less(a, b, i)
}

/// Two different byte strings of one length differ at a first index.
proof fn lemma_first_diff_from(a: Seq<u8>, b: Seq<u8>, i: int) -> (k: int)
    requires
        a.len() == b.len(),
        a != b,
        0 <= i <= a.len(),
        forall|j: int| 0 <= j < i ==> a[j] == b[j],
    ensures
        i <= k < a.len(),
        a[k] != b[k],
        forall|j: int| 0 <= j < k ==> a[j] == b[j],
    decreases a.len() - i,
{
    if i == a.len() {
        assert(a =~= b);
        i
    } else if a[i] != b[i] {
        i
    } else {
        lemma_first_diff_from(a, b, i + 1)
    }
}

/// Lexicographic order is total on byte strings of one length.
pub proof fn lemma_lex_le_total(a: Seq<u8>, b: Seq<u8>)
    requires
        a.len() == b.len(),
    ensures
        lex_le(a, b) || lex_le(b, a),
{
    if a != b {
        let k = lemma_first_diff_from(a, b, 0);
        if a[k] < b[k] {
            assert(first_diff_less(a, b, k));
        } else {
            assert(first_diff_less(b, a, k));
        }
    }
}

/// Lexicographic order is antisymmetric.
pub proof fn lemma_lex_le_antisymmetric(a: Seq<u8>, b: Seq<u8>)
    requires
        lex_le(a, b),
        lex_le(b, a),
    ensures
        a == b,
{
    if a != b {
        let i = choose|i: int| #[trigger] first_diff_less(a, b, i);
        let k = choose|k: int| #[trigger] first_diff_less(b, a, k);
        if i < k {
            assert(b[i] == a[i]);
        } else if k < i {
            assert(a[k] == b[k]);
        }
    }
}

/// Lexicographic order is decided at the first differing byte, by the
/// unsigned order of bytes: the string with the smaller byte there comes
/// first, and not the other way round.
pub proof fn lemma_lex_le_first_difference(a: Seq<u8>, b: Seq<u8>, i: int)
    requires
        a.len() == b.len(),
        0 <= i < a.len(),
        forall|j: int| 0 <= j < i ==> a[j] == b[j],
        a[i] < b[i],
    ensures
        lex_le(a, b),
        !lex_le(b, a),
        a != b,
{
    assert(first_diff_less(a, b, i));
    assert(a[i] != b[i]);
    assert forall|k: int| !first_diff_less(b, a, k) by {
        if first_diff_less(b, a, k) {
            if k < i {
                assert(a[k] == b[k]);
            } else if k > i {
                assert(b[i] == a[i]);
            }
        }
    }
}

/// Every byte string comes no later than itself.
pub proof fn lemma_lex_le_reflexive(a: Seq<u8>)
    ensures
        lex_le(a, a),
{
}

/// Compares two 32-byte arrays in lexicographic order.
pub fn bytes32_le(a: &[u8; 32], b: &[u8; 32]) -> (r: bool)
    ensures
        r == lex_le(a@, b@),
{
    let mut i: usize = 0;
    while i < 32
        invariant
            0 <= i <= 32,
            a@.len() == 32,
            b@.len() == 32,
            forall|j: int| 0 <= j < i ==> a@[j] == b@[j],
        decreases 32 - i,
    {
        if a[i] != b[i] {
            if a[i] < b[i] {
                assert(first_diff_less(a@, b@, i as int));
                return true;
            } else {
                assert(a@ != b@) by {
                    assert(a@[i as int] != b@[i as int]);
                }
                assert forall|k: int| !first_diff_less(a@, b@, k) by {
                    if first_diff_less(a@, b@, k) {
                        if k < i {
                        } else if k > i {
                            assert(a@[i as int] == b@[i as int]);
                        }
                    }
                }
                return false;
            }
        }
        i = i + 1;
    }
    assert(a@ =~= b@);
    true
}

/// The four little-endian bytes of `n`.
pub open spec fn u32_le_bytes(n: u32) -> Seq<u8> {
    seq![
        (n % 0x100) as u8,
        ((n / 0x100) % 0x100) as u8,
        ((n / 0x10000) % 0x100) as u8,
        (n / 0x1000000) as u8,
    ]
}

/// Different numbers have different little-endian bytes.
pub proof fn lemma_u32_le_bytes_injective(a: u32, b: u32)
    requires
        u32_le_bytes(a) == u32_le_bytes(b),
    ensures
        a == b,
{
    let (x, y) = (u32_le_bytes(a), u32_le_bytes(b));
    assert(x[0] == y[0] && x[1] == y[1] && x[2] == y[2] && x[3] == y[3]);
    assert(((a % 0x100) as u8 == (b % 0x100) as u8 && ((a / 0x100) % 0x100) as u8 == ((b / 0x100)
        % 0x100) as u8 && ((a / 0x10000) % 0x100) as u8 == ((b / 0x10000) % 0x100) as u8 && (a
        / 0x1000000) as u8 == (b / 0x1000000) as u8) ==> a == b) by (bit_vector);
}

/// Appends the four little-endian bytes of `n`.
pub fn push_u32_le(buf: &mut Vec<u8>, n: u32)
    ensures
        final(buf)@ == old(buf)@ + u32_le_bytes(n),
{
    buf.push((n % 0x100) as u8);
    buf.push(((n / 0x100) % 0x100) as u8);
    buf.push(((n / 0x10000) % 0x100) as u8);
    buf.push((n / 0x1000000) as u8);
    assert(buf@ =~= old(buf)@ + u32_le_bytes(n));
}

/// Appends `data` to `buf`.
pub fn push_bytes(buf: &mut Vec<u8>, data: &[u8])
    ensures
        final(buf)@ == old(buf)@ + data@,
{
    let mut i: usize = 0;
    while i < data.len()
        invariant
            0 <= i <= data@.len(),
            buf@ == old(buf)@ + data@.subrange(0, i as int),
        decreases data@.len() - i,
    {
        buf.push(data[i]);
        assert(data@.subrange(0, i + 1) =~= data@.subrange(0, i as int).push(data@[i as int]));
        i = i + 1;
    }
    assert(data@.subrange(0, data@.len() as int) =~= data@);
}

} // verus!
