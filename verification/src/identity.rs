//! An opaque, comparable principal identifier: the acting account.
//!
//! The ledger never invents identities; every one it stores was handed in
//! by the host environment as the acting caller.

use vstd::prelude::*;

verus! {

/// A principal identifier. Its mathematical value is the sequence of
/// characters of the account name.
#[derive(Debug)]
pub struct Identity {
    pub name: String,
}

impl View for Identity {
    type V = Seq<char>;

    open spec fn view(&self) -> Seq<char> {
        self.name@
    }
}

impl Identity {
    /// Wraps an account name as an identity.
    pub fn new(name: String) -> (r: Identity)
        ensures
            r@ == name@,
    {
        Identity { name }
    }

    /// The account name.
    pub fn as_str(&self) -> (r: &str)
        ensures
            r@ == self@,
    {
        self.name.as_str()
    }

    /// Gives the account name up.
    pub fn into_string(self) -> (r: String)
        ensures
            r@ == self@,
    {
        self.name
    }

    /// Whether two identities denote the same principal.
    pub fn same_as(&self, other: &Identity) -> (r: bool)
        ensures
            r == (self@ == other@),
    {
        self.name == other.name
    }
}

impl Clone for Identity {
    fn clone(&self) -> (r: Self)
        ensures
            r == *self,
    {
        Identity { name: self.name.clone() }
    }
}

impl PartialEq for Identity {
    fn eq(&self, other: &Identity) -> (r: bool) {
        self.name == other.name
    }
}

impl vstd::std_specs::cmp::PartialEqSpecImpl for Identity {
    open spec fn obeys_eq_spec() -> bool {
        true
    }

    open spec fn eq_spec(&self, other: &Identity) -> bool {
        self@ == other@
    }
}

} // verus!
