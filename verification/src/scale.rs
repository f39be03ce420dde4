//! The parts of the SCALE codec that the extension's wire format uses:
//! fixed-width little-endian integers and length-prefixed byte strings.

use vstd::prelude::*;

verus! {

/// Two little-endian bytes of `x`.
pub open spec fn le_two(x: nat) -> Seq<u8> {
    seq![(x % 256) as u8, ((x / 256) % 256) as u8]
}

/// Four little-endian bytes of `x`.
pub open spec fn le_four(x: nat) -> Seq<u8> {
    seq![
        (x % 256) as u8,
        ((x / 256) % 256) as u8,
        ((x / 65536) % 256) as u8,
        ((x / 16777216) % 256) as u8,
    ]
}

/// The SCALE compact encoding of a length `n` (at most `u32::MAX`): the two
/// low bits of the first byte give the mode (one, two or four bytes holding
/// `n` shifted left by two, or a marker byte followed by four bytes of `n`).
pub open spec fn compact_len(n: nat) -> Seq<u8> {
    if n < 64 {
        seq![(n * 4) as u8]
    } else if n < 16384 {
        le_two(n * 4 + 1)
    } else if n < 1073741824 {
        le_four(n * 4 + 2)
    } else {
        seq![3u8] + le_four(n)
    }
}

/// The SCALE encoding of a byte string: its compact length, then its bytes.
pub open spec fn bytes_encoding(v: Seq<u8>) -> Seq<u8> {
    compact_len(v.len()) + v
}

/// The mode of a compact encoding is read from its first byte alone.
proof fn lemma_compact_mode(n: nat)
    requires
        n <= u32::MAX,
    ensures
        compact_len(n).len() >= 1,
        n < 64 ==> compact_len(n)[0] % 4 == 0 && compact_len(n).len() == 1,
        64 <= n < 16384 ==> compact_len(n)[0] % 4 == 1 && compact_len(n).len() == 2,
        16384 <= n < 1073741824 ==> compact_len(n)[0] % 4 == 2 && compact_len(n).len() == 4,
        1073741824 <= n ==> compact_len(n)[0] % 4 == 3 && compact_len(n).len() == 5,
{
}

/// Little-endian pairs of bytes tell their values apart.
proof fn lemma_le_two_injective(x: nat, y: nat)
    requires
        x < 65536,
        y < 65536,
        le_two(x) == le_two(y),
    ensures
        x == y,
{
    assert(le_two(x)[0] == le_two(y)[0]);
    assert(le_two(x)[1] == le_two(y)[1]);
}

/// Little-endian quadruples of bytes tell their values apart.
proof fn lemma_le_four_injective(x: nat, y: nat)
    requires
        x < 4294967296,
        y < 4294967296,
        le_four(x) == le_four(y),
    ensures
        x == y,
{
    assert(le_four(x)[0] == le_four(y)[0]);
    assert(le_four(x)[1] == le_four(y)[1]);
    assert(le_four(x)[2] == le_four(y)[2]);
    assert(le_four(x)[3] == le_four(y)[3]);
}

/// Different lengths have different compact encodings.
proof fn lemma_compact_len_injective(a: nat, b: nat)
    requires
        a <= u32::MAX,
        b <= u32::MAX,
        compact_len(a) == compact_len(b),
    ensures
        a == b,
{
    lemma_compact_mode(a);
    lemma_compact_mode(b);
    if a < 64 {
        assert(compact_len(a)[0] == compact_len(b)[0]);
    } else if a < 16384 {
        lemma_le_two_injective(a * 4 + 1, b * 4 + 1);
    } else if a < 1073741824 {
        lemma_le_four_injective(a * 4 + 2, b * 4 + 2);
    } else {
        assert(le_four(a) =~= compact_len(a).skip(1));
        assert(le_four(b) =~= compact_len(b).skip(1));
        lemma_le_four_injective(a, b);
    }
}

/// A compact length is self-delimiting: two encodings that start the same
/// bytes encode the same length, and what follows them is the same.
pub proof fn lemma_compact_len_unique(a: nat, b: nat, x: Seq<u8>, y: Seq<u8>)
    requires
        a <= u32::MAX,
        b <= u32::MAX,
        compact_len(a) + x == compact_len(b) + y,
    ensures
        a == b,
        x == y,
{
    let s = compact_len(a) + x;
    lemma_compact_mode(a);
    lemma_compact_mode(b);
    assert(s[0] == compact_len(a)[0]);
    assert(s[0] == compact_len(b)[0]);
    assert(compact_len(a).len() == compact_len(b).len());
    let k = compact_len(a).len() as int;
    assert(compact_len(a) =~= s.take(k));
    assert(compact_len(b) =~= s.take(k));
    lemma_compact_len_injective(a, b);
    assert(x =~= s.skip(k));
    assert(y =~= s.skip(k));
}

/// A byte-string encoding is self-delimiting too.
pub proof fn lemma_bytes_encoding_unique(v: Seq<u8>, w: Seq<u8>, x: Seq<u8>, y: Seq<u8>)
    requires
        v.len() <= u32::MAX,
        w.len() <= u32::MAX,
        bytes_encoding(v) + x == bytes_encoding(w) + y,
    ensures
        v == w,
        x == y,
{
    assert(bytes_encoding(v) + x =~= compact_len(v.len()) + (v + x));
    assert(bytes_encoding(w) + y =~= compact_len(w.len()) + (w + y));
    lemma_compact_len_unique(v.len(), w.len(), v + x, w + y);
    assert(v =~= (v + x).take(v.len() as int));
    assert(w =~= (w + y).take(w.len() as int));
    assert(x =~= (v + x).skip(v.len() as int));
    assert(y =~= (w + y).skip(w.len() as int));
}

/// Encodes a byte string with `parity_scale_codec`'s `Encode` impl for
/// `[u8]`: the compact length, then the bytes. The crate's documentation of
/// the compact format is what the contract states. The crate panics on a
/// string longer than `u32::MAX`, which `requires` leaves out.
#[verifier::external_body]
pub(crate) fn encode_bytes(v: &[u8]) -> (r: Vec<u8>)
    requires
        v@.len() <= u32::MAX,
    ensures
        r@ == bytes_encoding(v@),
{
    parity_scale_codec::Encode::encode(v)
}

/// Decodes a byte string with `parity_scale_codec`'s `Decode` impl for
/// `Vec<u8>`, from the front of `input`, and hands back what is left of it.
/// The crate reads a compact length (refusing an encoding that is not the
/// shortest one) and then that many bytes; so it succeeds exactly when
/// `input` starts with the encoding of some byte string.
#[verifier::external_body]
pub(crate) fn decode_bytes<'a>(input: &'a [u8]) -> (r: Option<(Vec<u8>, &'a [u8])>)
    ensures
        r matches Some((v, rest)) ==> v@.len() <= u32::MAX && input@ == bytes_encoding(v@) + rest@,
        r is None ==> forall|v: Seq<u8>, rest: Seq<u8>|
            v.len() <= u32::MAX ==> input@ != #[trigger] (bytes_encoding(v) + rest),
{
    let mut rest = input;
    match <Vec<u8> as parity_scale_codec::Decode>::decode(&mut rest) {
        Ok(v) => Some((v, rest)),
        Err(_) => None,
    }
}

} // verus!
