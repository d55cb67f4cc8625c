use vstd::prelude::*;

verus! {

/// The two kinds of ledger address a contract can be called by.
#[derive(Clone, Copy, Debug, PartialEq, Eq, Structural)]
pub enum AddressKind {
    /// A classic account, identified by its ed25519 public key.
    Account,
    /// A contract, identified by the hash of its instance.
    Contract,
}

/// A ledger address held as plain values: its kind and its 32-byte payload
/// (public key or contract hash), split into two big-endian 128-bit halves.
#[derive(Clone, Copy, Debug, PartialEq, Eq, Structural)]
pub struct AccountId {
    pub kind: AddressKind,
    pub key_hi: u128,
    pub key_lo: u128,
}

impl AccountId {
    /// Builds an address from its kind and the two halves of its payload.
    pub fn new(kind: AddressKind, key_hi: u128, key_lo: u128) -> (r: AccountId)
        ensures
            r.kind == kind,
            r.key_hi == key_hi,
            r.key_lo == key_lo,
    {
        AccountId { kind, key_hi, key_lo }
    }

    /// Whether two addresses denote the same account or contract.
    pub fn same_as(&self, other: &AccountId) -> (r: bool)
        ensures
            r == (*self == *other),
    {
        self.kind == other.kind && self.key_hi == other.key_hi && self.key_lo == other.key_lo
    }
}

} // verus!
