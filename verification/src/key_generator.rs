//! The cluster's registered key generators: who may contribute partial keys.

use vstd::prelude::*;

use crate::types::Address;

verus! {

/// The texts of a sequence of addresses.
pub open spec fn address_texts(addresses: Seq<Address>) -> Seq<Seq<char>> {
    addresses.map_values(|a: Address| a@)
}

/// The addresses that are currently registered as key generators of the
/// cluster, in the order of their registration.
#[derive(Debug)]
pub struct KeyGeneratorList {
    members: Vec<Address>,
}

impl View for KeyGeneratorList {
    type V = Seq<Seq<char>>;

    closed spec fn view(&self) -> Seq<Seq<char>> {
        address_texts(self.members@)
    }
}

impl KeyGeneratorList {
    /// The registered addresses as a set.
    pub open spec fn member_set(&self) -> Set<Seq<char>> {
        self@.to_set()
    }

    /// A cluster without members.
    pub fn new() -> (r: Self)
        ensures
            r@ == Seq::<Seq<char>>::empty(),
    {
        let r = KeyGeneratorList { members: Vec::new() };
        assert(r@ =~= Seq::<Seq<char>>::empty());
        r
    }

    /// Registers `address` as a key generator.
    pub fn register(&mut self, address: Address)
        ensures
            final(self)@ == old(self)@.push(address@),
    {
        self.members.push(address);
        assert(final(self)@ =~= old(self)@.push(address@));
    }

    /// The number of registrations.
    pub fn len(&self) -> (r: usize)
        ensures
            r == self@.len(),
    {
        self.members.len()
    }

    /// Whether `address` is a registered key generator.
    pub fn is_member(&self, address: &Address) -> (r: bool)
        ensures
            r == self.member_set().contains(address@),
    {
        let mut i: usize = 0;
        while i < self.members.len()
            invariant
                i <= self.members.len(),
                forall|j: int| 0 <= j < i ==> self@[j] != address@,
            decreases self.members.len() - i,
        {
            if self.members[i].value == address.value {
                assert(self@[i as int] == address@);
                return true;
            }
            i += 1;
        }
        false
    }

    /// The registered addresses, in the order of registration.
    pub fn addresses(&self) -> (r: Vec<Address>)
        ensures
            address_texts(r@) == self@,
    {
        let mut out: Vec<Address> = Vec::new();
        let mut i: usize = 0;
        while i < self.members.len()
            invariant
                i <= self.members.len(),
                out@.len() == i,
                forall|j: int| 0 <= j < i ==> out@[j]@ == self.members[j]@,
            decreases self.members.len() - i,
        {
            out.push(self.members[i].clone());
            i += 1;
        }
        assert(address_texts(out@) =~= self@);
        out
    }
}

} // verus!
