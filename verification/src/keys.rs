//! x-only public keys of secp256k1 and their taproot tweak.

use secp256k1::{Scalar, XOnlyPublicKey};
use vstd::prelude::*;

use crate::bytes::{bytes32_le, lex_le};

verus! {

/// The largest valid secp256k1 scalar (the curve order minus one), as
/// big-endian bytes.
pub const SCALAR_MAX: [u8; 32] = [
    0xFF, 0xFF, 0xFF, 0xFF, 0xFF, 0xFF, 0xFF, 0xFF, 0xFF, 0xFF, 0xFF, 0xFF, 0xFF, 0xFF, 0xFF, 0xFE,
    0xBA, 0xAE, 0xDC, 0xE6, 0xAF, 0x48, 0xA0, 0x3B, 0xBF, 0xD2, 0x5E, 0x8C, 0xD0, 0x36, 0x41, 0x40,
];

/// The bytes of [`SCALAR_MAX`].
pub open spec fn scalar_max() -> Seq<u8> {
    SCALAR_MAX@
}

/// The prime of the field that secp256k1 is defined over:
/// 2^256 - 2^32 - 977.
pub open spec fn field_prime() -> int {
    0xFFFF_FFFF_FFFF_FFFF_FFFF_FFFF_FFFF_FFFF_FFFF_FFFF_FFFF_FFFF_FFFF_FFFE_FFFF_FC2Fint
}

/// The number that the bytes spell in big-endian order.
pub open spec fn be_to_nat(data: Seq<u8>) -> nat
    decreases data.len(),
{
    if data.len() == 0 {
        0
    } else {
        be_to_nat(data.drop_last()) * 256 + data.last() as nat
    }
}

/// `y` is a square root of `v` in the field of secp256k1.
pub open spec fn is_field_sqrt(y: int, v: int) -> bool {
    &&& 0 <= y < field_prime()
    &&& (y * y) % field_prime() == v % field_prime()
}

/// Whether the 32 bytes are the x coordinate of a point of secp256k1
/// (y^2 = x^3 + 7 over the field), which is when secp256k1 parses them as
/// an x-only public key: the big-endian value is below the field prime and
/// x^3 + 7 has a square root.
pub open spec fn is_xonly_key(data: Seq<u8>) -> bool {
    let x = be_to_nat(data) as int;
    &&& data.len() == 32
    &&& x < field_prime()
    &&& exists|y: int| #[trigger] is_field_sqrt(y, x * x * x + 7)
}

/// The serialized x-only key that secp256k1 computes by adding the
/// generator times `tweak` to the key `key`, or `None` where it refuses.
pub uninterp spec fn xonly_tweak_add(key: Seq<u8>, tweak: Seq<u8>) -> Option<Seq<u8>>;

/// Trusted: `secp256k1::XOnlyPublicKey::from_byte_array` succeeds exactly
/// on the bytes that are the x coordinate of a point of the curve: the
/// field element must be below the prime, and the curve equation must have
/// a solution for y (every point of secp256k1 lies in its prime-order
/// group). The contract states that.
#[verifier::external_body]
fn xonly_key_is_valid(data: &[u8; 32]) -> (valid: bool)
    ensures
        valid == is_xonly_key(data@),
{
    XOnlyPublicKey::from_byte_array(*data).is_ok()
}

/// Whether the big-endian bytes are a valid secp256k1 scalar: at most the
/// curve order minus one, which is the whole of what
/// `secp256k1::Scalar::from_be_bytes` checks.
pub fn scalar_is_in_range(value: &[u8; 32]) -> (in_range: bool)
    ensures
        in_range == lex_le(value@, scalar_max()),
{
    bytes32_le(value, &SCALAR_MAX)
}

/// Trusted: `secp256k1::XOnlyPublicKey::add_tweak`, on the key and the
/// scalar that the bytes stand for, the result serialized with
/// `XOnlyPublicKey::to_byte_array`. The contract claims that the result is
/// the named tweak of the key, and that the tweaked key, being the x
/// coordinate of a point of the curve, parses again as a key. The parity that
/// `add_tweak` also returns is dropped.
#[verifier::external_body]
fn xonly_add_tweak(key: &[u8; 32], tweak: &[u8; 32]) -> (tweaked: Option<[u8; 32]>)
    requires
        is_xonly_key(key@),
        lex_le(tweak@, scalar_max()),
    ensures
        match tweaked {
            Some(out) => xonly_tweak_add(key@, tweak@) == Some(out@) && is_xonly_key(out@),
            None => xonly_tweak_add(key@, tweak@) is None,
        },
{
    let key = XOnlyPublicKey::from_byte_array(*key).expect("the key is valid by precondition");
    let tweak = Scalar::from_be_bytes(*tweak).expect("the tweak is in range by precondition");
    match key.add_tweak(&tweak) {
        Ok((output, _parity)) => Some(output.to_byte_array()),
        Err(_) => None,
    }
}

/// The key obtained by tweaking `key` with `tweak`: defined where the tweak
/// is a valid scalar and secp256k1 accepts the tweak.
pub open spec fn tweaked_key(key: Seq<u8>, tweak: Seq<u8>) -> Option<Seq<u8>> {
    if lex_le(tweak, scalar_max()) {
        xonly_tweak_add(key, tweak)
    } else {
        None
    }
}

/// An x-only public key of secp256k1, held as its 32-byte serialization.
#[derive(Copy, Clone, Debug, PartialEq, Eq, Hash, PartialOrd, Ord)]
pub struct XOnlyPk {
    bytes: [u8; 32],
}

impl View for XOnlyPk {
    type V = Seq<u8>;

    closed spec fn view(&self) -> Seq<u8> {
        self.bytes@
    }
}

impl XOnlyPk {
    #[verifier::type_invariant]
    closed spec fn wf(self) -> bool {
        is_xonly_key(self.bytes@)
    }

    /// Parses an x-only public key from its 32-byte serialization; `None`
    /// where the bytes are no valid key.
    pub fn from_byte_array(data: [u8; 32]) -> (key: Option<XOnlyPk>)
        ensures
            key is Some <==> is_xonly_key(data@),
            key matches Some(k) ==> k@ == data@,
    {
        if xonly_key_is_valid(&data) {
            Some(XOnlyPk { bytes: data })
        } else {
            None
        }
    }

    /// The 32-byte serialization of the key.
    pub fn to_byte_array(&self) -> (data: [u8; 32])
        ensures
            data@ == self@,
            data@.len() == 32,
            is_xonly_key(data@),
    {
        proof {
            use_type_invariant(self);
        }
        self.bytes
    }

    /// Adds the generator times `tweak` to the key; `None` where `tweak` is
    /// no valid scalar or secp256k1 refuses the tweak.
    pub fn add_tweak(&self, tweak: &[u8; 32]) -> (tweaked: Option<XOnlyPk>)
        ensures
            match tweaked {
                Some(k) => tweaked_key(self@, tweak@) == Some(k@),
                None => tweaked_key(self@, tweak@) is None,
            },
    {
        proof {
            use_type_invariant(self);
        }
        if !scalar_is_in_range(tweak) {
            return None;
        }
        match xonly_add_tweak(&self.bytes, tweak) {
            Some(out) => Some(XOnlyPk { bytes: out }),
            None => None,
        }
    }
}

/// A key is serialized into 32 bytes.
pub proof fn lemma_xonly_key_len(key: XOnlyPk)
    ensures
        key@.len() == 32,
{
}

/// Two keys with the same serialization are the same key.
pub proof fn lemma_xonly_key_view_injective(a: XOnlyPk, b: XOnlyPk)
    requires
        a@ == b@,
    ensures
        a == b,
{
    assert(a.bytes =~= b.bytes);
}

/// A key is parsed back unchanged from its own serialization.
pub proof fn lemma_xonly_key_round_trip(key: XOnlyPk, data: [u8; 32], parsed: Option<XOnlyPk>)
    requires
        is_xonly_key(key@),
        data@ == key@,
        call_ensures(XOnlyPk::from_byte_array, (data,), parsed),
    ensures
        parsed == Some(key),
{
    let k = parsed->Some_0;
    assert(k.bytes@ == key.bytes@);
    assert(k.bytes =~= key.bytes);
}

} // verus!
