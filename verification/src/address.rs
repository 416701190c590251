//! Account addresses.

use vstd::prelude::*;

verus! {

/// The address of an account or of a principal: thirty-two bytes.
#[derive(Clone, Copy, Debug)]
pub struct Address {
    pub bytes: [u8; 32],
}

impl View for Address {
    type V = Seq<u8>;

    open spec fn view(&self) -> Seq<u8> {
        self.bytes@
    }
}

impl PartialEq for Address {
    fn eq(&self, other: &Address) -> (r: bool) {
        let mut i: usize = 0;
        while i < 32
            invariant
                i <= 32,
                forall|j: int| 0 <= j < i ==> self.bytes@[j] == other.bytes@[j],
            decreases 32 - i,
        {
            if self.bytes[i] != other.bytes[i] {
                return false;
            }
            i += 1;
        }
        proof {
            assert(self@ =~= other@);
            Address::lemma_view_injective(*self, *other);
        }
        true
    }
}

impl Eq for Address {

}

impl vstd::std_specs::cmp::PartialEqSpecImpl for Address {
    open spec fn obeys_eq_spec() -> bool {
        true
    }

    open spec fn eq_spec(&self, other: &Address) -> bool {
        *self == *other
    }
}

impl Address {
    /// The address whose bytes are `bytes`, a sequence of thirty-two.
    pub closed spec fn from_view(bytes: Seq<u8>) -> Address {
        choose|a: Address| a@ == bytes
    }

    /// Two addresses with the same bytes are the same address.
    pub proof fn lemma_view_injective(a: Address, b: Address)
        requires
            a@ == b@,
        ensures
            a == b,
    {
        assert(a.bytes =~= b.bytes);
    }

    /// `from_view` undoes the view.
    pub proof fn lemma_from_view(a: Address)
        ensures
            Address::from_view(a@) == a,
            a@.len() == 32,
    {
        let b = Address::from_view(a@);
        assert(b@ == a@);
        Address::lemma_view_injective(a, b);
    }

    /// The address of thirty-two zero bytes, which a blank record holds.
    pub open spec fn zero() -> Address {
        Address::from_view(Seq::new(32, |i: int| 0u8))
    }

    /// The address of thirty-two zero bytes.
    pub fn zeroed() -> (r: Address)
        ensures
            r == Address::zero(),
    {
        let r = Address { bytes: [0u8; 32] };
        proof {
            assert(r@ =~= Seq::new(32, |i: int| 0u8));
            Address::lemma_from_view(r);
        }
        r
    }

    /// The bytes of the address, in order.
    pub fn to_vec(&self) -> (v: Vec<u8>)
        ensures
            v@ == self@,
    {
        let mut v: Vec<u8> = Vec::new();
        let mut i: usize = 0;
        while i < 32
            invariant
                i <= 32,
                v@.len() == i,
                forall|j: int| 0 <= j < i ==> v@[j] == self.bytes@[j],
            decreases 32 - i,
        {
            v.push(self.bytes[i]);
            i += 1;
        }
        assert(v@ =~= self@);
        v
    }
}

} // verus!
