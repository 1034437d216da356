//! Plain-value models of the identifiers an execution error carries: a
//! 32-byte block or transaction hash, a 256-byte log bloom filter, and a
//! block number paired with a block hash.
//!
//! The taxonomy never interprets these values; it only stores them,
//! compares them field by field, and renders them. A hash or bloom renders
//! as `0x` followed by its bytes in lowercase hexadecimal; a number/hash
//! pair renders as `(number, 0xhash)`.

use crate::text::{decimal_of, hex_of_bytes, push_decimal, push_hex};
use vstd::prelude::*;
use vstd::string::StringExecFns;

verus! {

/// A 32-byte hash identifying a block, header, or transaction.
#[derive(Clone, Copy, Debug)]
pub struct Hash256 {
    /// The hash's bytes.
    pub bytes: [u8; 32],
}

/// A block hash is a 32-byte hash.
pub type BlockHash = Hash256;

/// A block height.
pub type BlockNumber = u64;

impl View for Hash256 {
    type V = Seq<u8>;

    open spec fn view(&self) -> Seq<u8> {
        self.bytes@
    }
}

/// The textual form of a 32-byte hash (or any byte sequence): `0x`
/// followed by two lowercase hexadecimal digits per byte.
pub open spec fn hex_text(b: Seq<u8>) -> Seq<char> {
    "0x"@ + hex_of_bytes(b)
}

impl Hash256 {
    /// Wraps 32 caller-supplied bytes.
    pub fn new(bytes: [u8; 32]) -> (r: Self)
        ensures
            r@ == bytes@,
    {
        Hash256 { bytes }
    }

    /// The wrapped bytes.
    pub fn as_bytes(&self) -> (r: &[u8; 32])
        ensures
            r@ == self@,
    {
        &self.bytes
    }

    /// Appends this hash's textual form to `out`.
    pub fn push_text(&self, out: &mut String)
        ensures
            final(out)@ == old(out)@ + hex_text(self@),
    {
        out.append("0x");
        push_hex(out, &self.bytes);
        proof {
            assert(out@ =~= old(out)@ + hex_text(self@));
        }
    }
}

impl PartialEq for Hash256 {
    fn eq(&self, other: &Self) -> (r: bool) {
        bytes32_equal(&self.bytes, &other.bytes)
    }
}

impl Eq for Hash256 {

}

impl vstd::std_specs::cmp::PartialEqSpecImpl for Hash256 {
    open spec fn obeys_eq_spec() -> bool {
        true
    }

    open spec fn eq_spec(&self, other: &Self) -> bool {
        self@ == other@
    }
}

/// Compares two 32-byte arrays element by element.
fn bytes32_equal(a: &[u8; 32], b: &[u8; 32]) -> (r: bool)
    ensures
        r == (a@ == b@),
{
    let mut i: usize = 0;
    while i < 32
        invariant
            i <= 32,
            forall|j: int| 0 <= j < i ==> a@[j] == b@[j],
        decreases 32 - i,
    {
        if a[i] != b[i] {
            return false;
        }
        i = i + 1;
    }
    proof {
        assert(a@ =~= b@);
    }
    true
}

/// A 2048-bit log bloom filter, stored as 256 caller-supplied bytes.
#[derive(Clone, Copy, Debug)]
pub struct Bloom {
    /// The filter's bytes.
    pub bytes: [u8; 256],
}

impl View for Bloom {
    type V = Seq<u8>;

    open spec fn view(&self) -> Seq<u8> {
        self.bytes@
    }
}

impl Bloom {
    /// Wraps 256 caller-supplied bytes.
    pub fn new(bytes: [u8; 256]) -> (r: Self)
        ensures
            r@ == bytes@,
    {
        Bloom { bytes }
    }

    /// The wrapped bytes.
    pub fn as_bytes(&self) -> (r: &[u8; 256])
        ensures
            r@ == self@,
    {
        &self.bytes
    }

    /// Appends this bloom filter's textual form (`0x` plus 512 hexadecimal
    /// digits) to `out`.
    pub fn push_text(&self, out: &mut String)
        ensures
            final(out)@ == old(out)@ + hex_text(self@),
    {
        out.append("0x");
        push_hex(out, &self.bytes);
        proof {
            assert(out@ =~= old(out)@ + hex_text(self@));
        }
    }
}

impl PartialEq for Bloom {
    fn eq(&self, other: &Self) -> (r: bool) {
        let mut i: usize = 0;
        while i < 256
            invariant
                i <= 256,
                forall|j: int| 0 <= j < i ==> self.bytes@[j] == other.bytes@[j],
            decreases 256 - i,
        {
            if self.bytes[i] != other.bytes[i] {
                return false;
            }
            i = i + 1;
        }
        proof {
            assert(self.bytes@ =~= other.bytes@);
        }
        true
    }
}

impl Eq for Bloom {

}

impl vstd::std_specs::cmp::PartialEqSpecImpl for Bloom {
    open spec fn obeys_eq_spec() -> bool {
        true
    }

    open spec fn eq_spec(&self, other: &Self) -> bool {
        self@ == other@
    }
}

/// A block number together with the hash of the same block.
#[derive(Clone, Copy, Debug)]
pub struct BlockNumHash {
    /// The block's height.
    pub number: BlockNumber,
    /// The block's hash.
    pub hash: BlockHash,
}

/// The textual form of a number/hash pair: the decimal number and the
/// hash's hexadecimal form, comma-separated inside parentheses.
pub open spec fn num_hash_text(number: u64, hash: Seq<u8>) -> Seq<char> {
    "("@ + decimal_of(number as nat) + ", "@ + hex_text(hash) + ")"@
}

impl BlockNumHash {
    /// Pairs a caller-supplied block number and block hash.
    pub fn new(number: BlockNumber, hash: BlockHash) -> (r: Self)
        ensures
            r.number == number,
            r.hash@ == hash@,
    {
        BlockNumHash { number, hash }
    }

    /// Holds when the two pairs agree on number and hash value.
    pub open spec fn spec_eq(&self, other: &Self) -> bool {
        self.number == other.number && self.hash@ == other.hash@
    }

    /// Appends this pair's textual form to `out`.
    pub fn push_text(&self, out: &mut String)
        ensures
            final(out)@ == old(out)@ + num_hash_text(self.number, self.hash@),
    {
        out.append("(");
        push_decimal(out, self.number);
        out.append(", ");
        self.hash.push_text(out);
        out.append(")");
        proof {
            assert(out@ =~= old(out)@ + num_hash_text(self.number, self.hash@));
        }
    }
}

impl PartialEq for BlockNumHash {
    fn eq(&self, other: &Self) -> (r: bool) {
        self.number == other.number && self.hash == other.hash
    }
}

impl Eq for BlockNumHash {

}

impl vstd::std_specs::cmp::PartialEqSpecImpl for BlockNumHash {
    open spec fn obeys_eq_spec() -> bool {
        true
    }

    open spec fn eq_spec(&self, other: &Self) -> bool {
        self.spec_eq(other)
    }
}

} // verus!
