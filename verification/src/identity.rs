//! Participant identities: 32-byte addresses and their textual form.

use std::str::FromStr;
use vstd::prelude::*;

verus! {

/// Number of bytes in an identity.
pub const IDENTITY_BYTES: usize = 32;

/// The address of a participant or of a record, as 32 raw bytes.
///
/// The identity made of zero bytes is the *default* identity: it marks a record
/// that no transition has written yet.
#[derive(Clone, Copy, Debug)]
pub struct Identity {
    pub bytes: [u8; 32],
}

impl View for Identity {
    type V = Seq<u8>;

    open spec fn view(&self) -> Seq<u8> {
        self.bytes@
    }
}

/// The bytes that a base58 text stands for, where it is the text of an identity:
/// the result of `Pubkey::from_str`, as its 32 bytes.
pub uninterp spec fn base58_identity(text: Seq<char>) -> Option<Seq<u8>>;

/// Calls `Pubkey::from_str`, which `anchor_lang` hands on from the Solana SDK, and
/// gives back the bytes of the key it read.
///
/// Believed, not proved: that the outcome depends on the text alone, so that it
/// is the one `base58_identity` names for the text.  The parser refuses texts of
/// more than 44 bytes, texts with a character outside the base58 alphabet and
/// texts that do not decode to exactly 32 bytes; it does not panic.
#[verifier::external_body]
fn decode_base58(text: &str) -> (r: Option<Identity>)
    ensures
        match r {
            Some(id) => base58_identity(text@) == Some(id@),
            None => base58_identity(text@) is None,
        },
{
    match anchor_lang::prelude::Pubkey::from_str(text) {
        Ok(key) => Some(Identity { bytes: key.to_bytes() }),
        Err(_) => None,
    }
}

impl Identity {
    /// The default identity: 32 zero bytes.
    pub open spec fn spec_default() -> Identity {
        Identity { bytes: vstd::array::spec_array_fill_for_copy_type::<u8, 32>(0u8) }
    }

    /// Whether this is the default identity.
    pub open spec fn spec_is_default(&self) -> bool {
        *self == Self::spec_default()
    }

    /// The identity made of the given bytes, where they are 32.
    pub open spec fn spec_from_bytes(bytes: Seq<u8>) -> Identity {
        choose|id: Identity| id@ == bytes
    }

    /// The identity that a base58 text stands for, if it is the text of one.
    pub open spec fn spec_from_base58(text: Seq<char>) -> Option<Identity> {
        match base58_identity(text) {
            Some(bytes) => Some(Self::spec_from_bytes(bytes)),
            None => None,
        }
    }

    /// The identity made of `bytes`.
    pub fn new(bytes: [u8; 32]) -> (r: Identity)
        ensures
            r.bytes == bytes,
            r@ == bytes@,
    {
        Identity { bytes }
    }

    /// The bytes of the identity.
    pub fn to_bytes(&self) -> (r: [u8; 32])
        ensures
            r@ == self@,
    {
        self.bytes
    }

    /// Whether the two identities hold the same bytes.
    pub fn same(&self, other: &Identity) -> (r: bool)
        ensures
            r == (self@ == other@),
            r == (*self == *other),
    {
        proof {
            if self@ == other@ {
                lemma_identity_ext(*self, *other);
            }
        }
        let mut i: usize = 0;
        while i < 32
            invariant
                i <= 32,
                forall|j: int| 0 <= j < i ==> self.bytes[j] == other.bytes[j],
            decreases 32 - i,
        {
            if self.bytes[i] != other.bytes[i] {
                return false;
            }
            i = i + 1;
        }
        assert(self@ =~= other@);
        true
    }

    /// Whether this is the default identity: whether all its bytes are zero.
    pub fn is_default(&self) -> (r: bool)
        ensures
            r == self.spec_is_default(),
            r == (self@ == Seq::new(32, |i: int| 0u8)),
    {
        let zero = Identity::default();
        self.same(&zero)
    }

    /// Reads an identity from its base58 text.
    pub fn from_base58(text: &str) -> (r: Option<Identity>)
        ensures
            r == Self::spec_from_base58(text@),
            r matches Some(id) ==> base58_identity(text@) == Some(id@),
    {
        let r = decode_base58(text);
        proof {
            if let Some(id) = r {
                lemma_identity_ext(Self::spec_from_bytes(id@), id);
            }
        }
        r
    }
}

impl Default for Identity {
    /// The default identity.
    fn default() -> (r: Identity)
        ensures
            r == Identity::spec_default(),
            r@ == Seq::new(32, |i: int| 0u8),
    {
        let r = Identity { bytes: [0u8; 32] };
        assert(r@ =~= Seq::new(32, |i: int| 0u8));
        r
    }
}

impl PartialEq for Identity {
    fn eq(&self, other: &Identity) -> (r: bool) {
        self.same(other)
    }
}

impl Eq for Identity {

}

impl vstd::std_specs::cmp::PartialEqSpecImpl for Identity {
    open spec fn obeys_eq_spec() -> bool {
        true
    }

    open spec fn eq_spec(&self, other: &Identity) -> bool {
        self@ == other@
    }
}

/// The default identity is made of 32 zero bytes, and it is the only such identity.
pub proof fn lemma_default_is_zero_bytes(id: Identity)
    ensures
        Identity::spec_default()@ == Seq::new(32, |i: int| 0u8),
        id.spec_is_default() <==> id@ == Seq::new(32, |i: int| 0u8),
{
    assert(Identity::spec_default()@ =~= Seq::new(32, |i: int| 0u8));
    if id@ == Seq::new(32, |i: int| 0u8) {
        lemma_identity_ext(id, Identity::spec_default());
    }
}

/// Two identities with the same bytes are the same identity.
pub proof fn lemma_identity_ext(a: Identity, b: Identity)
    requires
        a@ == b@,
    ensures
        a == b,
{
    assert(a.bytes =~= b.bytes);
}

} // verus!
