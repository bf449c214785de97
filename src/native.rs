use vstd::bytes::{spec_u32_from_le_bytes, spec_u32_to_le_bytes};
use vstd::endian::{endianness, Endian};
use vstd::prelude::*;

verus! {

/// Bytes of `x` in the byte order of the host (vstd's `endianness()`).
pub open spec fn ne_bytes_of(x: u32) -> Seq<u8> {
    match endianness() {
        Endian::Little => spec_u32_to_le_bytes(x),
        Endian::Big => spec_u32_to_le_bytes(x).reverse(),
    }
}

/// Integer that four bytes denote in the byte order of the host.
pub open spec fn u32_of_ne_bytes(s: Seq<u8>) -> u32 {
    match endianness() {
        Endian::Little => spec_u32_from_le_bytes(s),
        Endian::Big => spec_u32_from_le_bytes(s.reverse()),
    }
}

/// Relies on `u32::to_ne_bytes`: the memory representation of `x` in native byte order.
#[verifier::external_body]
pub(crate) fn u32_to_ne_bytes(x: u32) -> (r: [u8; 4])
    ensures
        r@ == ne_bytes_of(x),
{
    x.to_ne_bytes()
}

/// Relies on `u32::from_ne_bytes`: the integer whose native-order representation is `b`.
#[verifier::external_body]
pub(crate) fn u32_from_ne_bytes(b: [u8; 4]) -> (r: u32)
    ensures
        r == u32_of_ne_bytes(b@),
{
    u32::from_ne_bytes(b)
}

/// Native-order bytes are four bytes long, and each of the two conversions undoes the other.
pub proof fn lemma_ne_bytes_round_trip()
    ensures
        forall|x: u32|
            #![trigger ne_bytes_of(x)]
            ne_bytes_of(x).len() == 4 && u32_of_ne_bytes(ne_bytes_of(x)) == x,
        forall|s: Seq<u8>| s.len() == 4 ==> #[trigger] ne_bytes_of(u32_of_ne_bytes(s)) == s,
{
    vstd::bytes::lemma_auto_spec_u32_to_from_le_bytes();
    assert forall|x: u32|
        #![trigger ne_bytes_of(x)]
        ne_bytes_of(x).len() == 4 && u32_of_ne_bytes(ne_bytes_of(x)) == x by {
        let s = spec_u32_to_le_bytes(x);
        assert(s.reverse().reverse() =~= s);
    }
    assert forall|s: Seq<u8>| s.len() == 4 implies #[trigger] ne_bytes_of(u32_of_ne_bytes(s)) == s by {
        assert(s.reverse().reverse() =~= s);
    }
}

/// Two integers with the same native-order bytes are equal.
pub proof fn lemma_ne_bytes_injective(x: u32, y: u32)
    ensures
        ne_bytes_of(x) == ne_bytes_of(y) <==> x == y,
{
    lemma_ne_bytes_round_trip();
    assert(u32_of_ne_bytes(ne_bytes_of(x)) == x);
    assert(u32_of_ne_bytes(ne_bytes_of(y)) == y);
}

} // verus!
