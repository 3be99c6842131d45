//! The values that peers exchange: addresses, partial keys and their proofs.

use vstd::prelude::*;
use vstd::std_specs::cmp::PartialEqSpecImpl;
use vstd::string::StringExecFns;

verus! {

/// The identifier of a cluster participant. Two addresses are the same when
/// their texts are equal character for character.
#[derive(Debug)]
pub struct Address {
    pub value: String,
}

impl View for Address {
    type V = Seq<char>;

    open spec fn view(&self) -> Seq<char> {
        self.value@
    }
}

impl Address {
    /// The address with the given text.
    pub fn new(value: &str) -> (r: Self)
        ensures
            r@ == value@,
    {
        Address { value: String::from_str(value) }
    }
}

impl Clone for Address {
    fn clone(&self) -> (r: Self)
        ensures
            r == *self,
    {
        Address { value: self.value.clone() }
    }
}

impl PartialEq for Address {
    fn eq(&self, other: &Self) -> (r: bool) {
        self.value == other.value
    }
}

impl PartialEqSpecImpl for Address {
    open spec fn obeys_eq_spec() -> bool {
        true
    }

    open spec fn eq_spec(&self, other: &Self) -> bool {
        self@ == other@
    }
}

/// One participant's share toward a round's combined key, held in its text
/// encoding. The library never looks inside it.
#[derive(Debug)]
pub struct PartialKey {
    pub encoded: String,
}

impl View for PartialKey {
    type V = Seq<char>;

    open spec fn view(&self) -> Seq<char> {
        self.encoded@
    }
}

impl PartialKey {
    /// The partial key with the given encoding.
    pub fn new(encoded: &str) -> (r: Self)
        ensures
            r@ == encoded@,
    {
        PartialKey { encoded: String::from_str(encoded) }
    }
}

impl Clone for PartialKey {
    fn clone(&self) -> (r: Self)
        ensures
            r == *self,
    {
        PartialKey { encoded: self.encoded.clone() }
    }
}

impl PartialEq for PartialKey {
    fn eq(&self, other: &Self) -> (r: bool) {
        self.encoded == other.encoded
    }
}

impl PartialEqSpecImpl for PartialKey {
    open spec fn obeys_eq_spec() -> bool {
        true
    }

    open spec fn eq_spec(&self, other: &Self) -> bool {
        self@ == other@
    }
}

/// The evidence that a partial key was generated correctly, held in its text
/// encoding. Checking it is the work of the cryptography behind the node.
#[derive(Debug)]
pub struct PartialKeyProof {
    pub encoded: String,
}

impl View for PartialKeyProof {
    type V = Seq<char>;

    open spec fn view(&self) -> Seq<char> {
        self.encoded@
    }
}

impl PartialKeyProof {
    /// The proof with the given encoding.
    pub fn new(encoded: &str) -> (r: Self)
        ensures
            r@ == encoded@,
    {
        PartialKeyProof { encoded: String::from_str(encoded) }
    }
}

impl Clone for PartialKeyProof {
    fn clone(&self) -> (r: Self)
        ensures
            r == *self,
    {
        PartialKeyProof { encoded: self.encoded.clone() }
    }
}

} // verus!
