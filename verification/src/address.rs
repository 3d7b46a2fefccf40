//! Identities of accounts, programs and assets.

use vstd::prelude::*;
use vstd::std_specs::cmp::PartialEqSpecImpl;

verus! {

/// The identity of an account, a program or an asset: 32 bytes.
#[derive(Clone, Copy, Debug)]
pub struct Address {
    pub bytes: [u8; 32],
}

impl View for Address {
    type V = Seq<u8>;

    /// The 32 bytes, first to last.
    open spec fn view(&self) -> Seq<u8> {
        self.bytes@
    }
}

impl PartialEq for Address {
    fn eq(&self, other: &Address) -> (r: bool) {
        let mut i: usize = 0;
        while i < 32
            invariant
                i <= 32,
                forall|j: int| 0 <= j < i ==> self.bytes@[j] == other.bytes@[j],
            decreases 32 - i,
        {
            if self.bytes[i] != other.bytes[i] {
                return false;
            }
            i += 1;
        }
        assert(self.bytes@ =~= other.bytes@);
        true
    }
}

impl PartialEqSpecImpl for Address {
    open spec fn obeys_eq_spec() -> bool {
        true
    }

    open spec fn eq_spec(&self, other: &Address) -> bool {
        self@ == other@
    }
}

impl Eq for Address {

}

impl Default for Address {
    /// The address of 32 zero bytes.
    fn default() -> (a: Address)
        ensures
            a@ == Seq::new(32, |i: int| 0u8),
    {
        let a = Address { bytes: [0u8; 32] };
        assert(a@ =~= Seq::new(32, |i: int| 0u8));
        a
    }
}

impl Address {
    /// The address made of the given bytes.
    pub fn new_from_array(bytes: [u8; 32]) -> (a: Address)
        ensures
            a@ == bytes@,
            a.bytes == bytes,
    {
        Address { bytes }
    }

    /// The bytes of the address.
    pub fn to_bytes(&self) -> (bytes: [u8; 32])
        ensures
            bytes@ == self@,
    {
        self.bytes
    }

    /// The bytes of the address, as a vector.
    pub fn to_vec(&self) -> (v: Vec<u8>)
        ensures
            v@ == self@,
    {
        let mut v: Vec<u8> = Vec::new();
        let mut i: usize = 0;
        while i < 32
            invariant
                i <= 32,
                v@ == self@.take(i as int),
            decreases 32 - i,
        {
            v.push(self.bytes[i]);
            assert(self@.take(i + 1) =~= self@.take(i as int).push(self@[i as int]));
            i += 1;
        }
        assert(self@.take(32) =~= self@);
        v
    }
}

/// Two addresses with the same bytes are the same address.
pub proof fn lemma_address_by_bytes(a: Address, b: Address)
    ensures
        (a@ == b@) <==> (a == b),
        a@.len() == 32,
{
    if a@ == b@ {
        assert(a.bytes@ =~= b.bytes@);
        assert(a.bytes == b.bytes);
    }
}

/// The first `n` of `bytes` in an array, zeros behind them.
spec fn array_of(bytes: Seq<u8>, n: nat) -> [u8; 32]
    decreases n,
{
    if n == 0 {
        vstd::array::spec_array_fill_for_copy_type(0u8)
    } else {
        vstd::array::spec_array_update(array_of(bytes, (n - 1) as nat), n - 1, bytes[n - 1])
    }
}

proof fn lemma_array_of(bytes: Seq<u8>, n: nat)
    requires
        n <= 32,
    ensures
        forall|j: int| 0 <= j < n ==> array_of(bytes, n)@[j] == bytes[j],
    decreases n,
{
    if n > 0 {
        lemma_array_of(bytes, (n - 1) as nat);
    }
}

/// The address whose bytes are the first 32 of `bytes`.
pub closed spec fn address_of(bytes: Seq<u8>) -> Address {
    Address { bytes: array_of(bytes, 32) }
}

/// The address of a run of bytes has the first 32 of them.
pub proof fn lemma_address_of_bytes(bytes: Seq<u8>)
    requires
        bytes.len() >= 32,
    ensures
        address_of(bytes)@ == bytes.take(32),
{
    lemma_array_of(bytes, 32);
    assert(address_of(bytes)@ =~= bytes.take(32));
}

/// An address is the address of its own bytes, and of any run of bytes that
/// starts with them.
pub proof fn lemma_address_of(a: Address)
    ensures
        address_of(a@) == a,
        forall|rest: Seq<u8>| #[trigger] address_of(a@ + rest) == a,
{
    lemma_address_of_bytes(a@);
    lemma_address_by_bytes(address_of(a@), a);
    assert(a@.take(32) =~= a@);
    assert forall|rest: Seq<u8>| #[trigger] address_of(a@ + rest) == a by {
        lemma_address_of_bytes(a@ + rest);
        assert((a@ + rest).take(32) =~= a@);
        lemma_address_by_bytes(address_of(a@ + rest), a);
    }
}

} // verus!
