//! The identity of a principal, as a closed set of principal kinds.
//!
//! An identity is a tagged variant: one case per recognized principal kind,
//! each carrying that kind's key material as plain bytes. Values are
//! externally supplied and immutable; the core never constructs or validates
//! them beyond what the type itself guarantees.

use vstd::prelude::*;

verus! {

/// A principal's identity: the discriminant says what kind of principal it
/// is, the bytes are that kind's key material (for key-based kinds, the
/// public key; for contract-based kinds, the contract's identifier).
#[derive(Clone, Debug, PartialEq, Eq)]
pub enum Identity {
    /// A principal identified by an Ed25519 public key.
    Ed25519(Vec<u8>),
    /// A principal identified by a ledger account's key.
    Account(Vec<u8>),
    /// A principal that is itself a contract, identified by the contract's
    /// identifier bytes.
    Contract(Vec<u8>),
}

/// The mathematical model of an [`Identity`]: the same variants, with the
/// key material as a byte sequence.
pub enum IdentityView {
    Ed25519(Seq<u8>),
    Account(Seq<u8>),
    Contract(Seq<u8>),
}

impl View for Identity {
    type V = IdentityView;

    open spec fn view(&self) -> IdentityView {
        match self {
            Identity::Ed25519(key) => IdentityView::Ed25519(key@),
            Identity::Account(key) => IdentityView::Account(key@),
            Identity::Contract(key) => IdentityView::Contract(key@),
        }
    }
}

impl IdentityView {
    /// The key material carried by the identity, whatever its kind.
    pub open spec fn key(self) -> Seq<u8> {
        match self {
            IdentityView::Ed25519(key) => key,
            IdentityView::Account(key) => key,
            IdentityView::Contract(key) => key,
        }
    }
}

} // verus!
