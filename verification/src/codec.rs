//! The identity codec: a deterministic, versioned encoding of an identity
//! into bytes fit for an event payload.
//!
//! An encoding is the format version byte, then a tag byte naming the
//! principal kind, then the identity's key material. The tag makes the
//! encoding self-describing: given the format version, an observer can
//! reconstruct the identity, and distinct identities never collide.

use vstd::prelude::*;

use crate::identity::Identity;
use crate::identity::IdentityView;

verus! {

/// The version of the encoding format; the first byte of every encoding.
pub const FORMAT_VERSION: u8 = 1;

/// The tag byte that names an identity's principal kind in its encoding.
pub open spec fn spec_tag(id: IdentityView) -> u8 {
    match id {
        IdentityView::Ed25519(_) => 0u8,
        IdentityView::Account(_) => 1u8,
        IdentityView::Contract(_) => 2u8,
    }
}

/// What `encode` returns: the format version, the principal-kind tag, then
/// the identity's key material.
pub open spec fn spec_encode(id: IdentityView) -> Seq<u8> {
    seq![FORMAT_VERSION, spec_tag(id)] + id.key()
}

/// Encode an identity. Pure: the result is a function of the identity value
/// and the fixed format version alone, so repeated calls on the same value
/// return the same bytes.
pub fn encode(id: &Identity) -> (r: Vec<u8>)
    ensures
        r@ == spec_encode(id@),
{
    let mut out: Vec<u8> = Vec::new();
    out.push(FORMAT_VERSION);
    let tag: u8 = match id {
        Identity::Ed25519(_) => 0u8,
        Identity::Account(_) => 1u8,
        Identity::Contract(_) => 2u8,
    };
    out.push(tag);
    let key: &Vec<u8> = match id {
        Identity::Ed25519(key) => key,
        Identity::Account(key) => key,
        Identity::Contract(key) => key,
    };
    let mut i: usize = 0;
    while i < key.len()
        invariant
            i <= key.len(),
            key@ == id@.key(),
            out@ =~= seq![FORMAT_VERSION, spec_tag(id@)] + key@.subrange(0, i as int),
        decreases key.len() - i,
    {
        out.push(key[i]);
        i = i + 1;
    }
    proof {
        assert(key@.subrange(0, key@.len() as int) =~= key@);
        assert(out@ =~= spec_encode(id@));
    }
    out
}

/// Law: the encoding is deterministic. For a fixed identity value and the
/// fixed format version there is exactly one encoding, so any two byte
/// sequences obtained by encoding that identity are equal.
pub proof fn lemma_encode_deterministic(id: IdentityView, b1: Seq<u8>, b2: Seq<u8>)
    requires
        b1 == spec_encode(id),
        b2 == spec_encode(id),
    ensures
        b1 == b2,
{
}

/// Law: the encoding is injective. Two distinct identity values never
/// encode to the same byte sequence: either their principal kinds differ,
/// and so do the tag bytes, or their key material differs, and so does the
/// tail of the encoding.
pub proof fn lemma_encode_distinct(id1: IdentityView, id2: IdentityView)
    requires
        id1 != id2,
    ensures
        spec_encode(id1) != spec_encode(id2),
{
    let e1 = spec_encode(id1);
    let e2 = spec_encode(id2);
    if e1 == e2 {
        assert(spec_tag(id1) == e1[1]);
        assert(spec_tag(id2) == e2[1]);
        let k1 = id1.key();
        let k2 = id2.key();
        assert(e1.len() == 2 + k1.len());
        assert(e2.len() == 2 + k2.len());
        assert(k1.len() == k2.len());
        assert forall|j: int| 0 <= j < k1.len() implies k1[j] == k2[j] by {
            assert(e1[2 + j] == k1[j]);
            assert(e2[2 + j] == k2[j]);
        }
        assert(k1 =~= k2);
        assert(id1 == id2);
    }
}

} // verus!
