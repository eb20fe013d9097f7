//! The address deriver: a deterministic, seed-based scheme that maps
//! `(base identity, seed bytes, owning namespace)` to a stable derived
//! identity, bit-for-bit compatible with the external execution engine's
//! verifier.
//!
//! The derivation primitive itself is the engine's: conceptually a truncated
//! hash of `base || seed || namespace` mapped into the valid-identity space.
//! It is deliberately left abstract here (`derive_of`) and performed by the
//! engine's own client implementation behind a trusted wrapper; everything
//! around it is verified against that name.

use vstd::prelude::*;

use crate::identity::Identity;

verus! {

/// The scheme's maximum seed length in bytes.
pub const MAX_SEED_LEN: usize = 32;

/// A local failure of the derivation scheme.
#[derive(Clone, Copy, Debug, PartialEq, Eq)]
pub enum DeriveError {
    /// The seed exceeds the scheme's maximum length. This indicates a
    /// programming error in seed construction, not a runtime condition.
    SeedTooLong,
    /// The owning namespace ends with the marker that the engine reserves
    /// for derived identities, so nothing may be derived under it.
    IllegalOwner,
}

/// The derived identity for a `(base, seed, namespace)` triple: the engine's
/// deterministic, one-way, collision-resistant derivation function. Its
/// output depends on the three inputs alone.
pub uninterp spec fn derive_of(base: Seq<u8>, seed: Seq<u8>, namespace: Seq<u8>) -> Seq<u8>;

/// The 21-byte marker, `"ProgramDerivedAddress"`, that the engine appends
/// when deriving identities outside the signing key space. An identity whose
/// trailing bytes equal the marker cannot own derived cells.
pub open spec fn pda_marker_seq() -> Seq<u8> {
    seq![
        80u8, 114u8, 111u8, 103u8, 114u8, 97u8, 109u8, 68u8, 101u8, 114u8, 105u8, 118u8, 101u8,
        100u8, 65u8, 100u8, 100u8, 114u8, 101u8, 115u8, 115u8,
    ]
}

/// Whether a 32-byte owner identity ends with the derived-identity marker,
/// and is therefore rejected as an owning namespace.
pub open spec fn owner_pda_marked(owner: Seq<u8>) -> bool {
    owner.len() == 32 && owner.subrange(11, 32) == pda_marker_seq()
}

/// Whether every byte of a seed is 7-bit ASCII. All seed formats of this
/// protocol (literal seed strings, the pool pattern, decimal page indices)
/// are ASCII.
pub open spec fn seed_is_ascii(seed: Seq<u8>) -> bool {
    forall|i: int| 0 <= i < seed.len() ==> seed[i] < 128
}

/// Relies on `solana_program::pubkey::Pubkey::create_with_seed`: the result
/// is a 32-byte identity computed from the three arguments alone (a sha-256
/// of `base || seed || owner`); the call fails with `MaxSeedLengthExceeded`
/// exactly when the seed is longer than 32 bytes, and otherwise with
/// `IllegalOwner` exactly when the owner's trailing 21 bytes equal the
/// derived-identity marker. The seed is required to be ASCII so that viewing
/// its bytes as UTF-8 cannot fail.
#[verifier::external_body]
fn create_with_seed_engine(base: &Identity, seed: &Vec<u8>, namespace: &Identity) -> (r: Result<
    Identity,
    DeriveError,
>)
    requires
        seed_is_ascii(seed@),
    ensures
        match r {
            Ok(id) => {
                &&& id@ == derive_of(base@, seed@, namespace@)
                &&& id@.len() == 32
                &&& seed@.len() <= MAX_SEED_LEN
                &&& !owner_pda_marked(namespace@)
            },
            Err(DeriveError::SeedTooLong) => seed@.len() > MAX_SEED_LEN,
            Err(DeriveError::IllegalOwner) => seed@.len() <= MAX_SEED_LEN && owner_pda_marked(
                namespace@,
            ),
        },
{
    let b = solana_program::pubkey::Pubkey::new_from_array(base.bytes);
    let n = solana_program::pubkey::Pubkey::new_from_array(namespace.bytes);
    let s = std::str::from_utf8(seed.as_slice()).unwrap();
    match solana_program::pubkey::Pubkey::create_with_seed(&b, s, &n) {
        Ok(k) => Ok(Identity { bytes: k.to_bytes() }),
        Err(solana_program::pubkey::PubkeyError::MaxSeedLengthExceeded) => Err(
            DeriveError::SeedTooLong,
        ),
        Err(_) => Err(DeriveError::IllegalOwner),
    }
}

/// Derives the identity for `(base, seed, namespace)`. Succeeds exactly when
/// the seed is within the scheme's length bound and the namespace does not
/// carry the derived-identity marker.
pub fn derive_identity(base: &Identity, seed: &Vec<u8>, namespace: &Identity) -> (r: Result<
    Identity,
    DeriveError,
>)
    requires
        seed_is_ascii(seed@),
    ensures
        match r {
            Ok(id) => {
                &&& id@ == derive_of(base@, seed@, namespace@)
                &&& id@.len() == 32
                &&& seed@.len() <= MAX_SEED_LEN
                &&& !owner_pda_marked(namespace@)
            },
            Err(DeriveError::SeedTooLong) => seed@.len() > MAX_SEED_LEN,
            Err(DeriveError::IllegalOwner) => seed@.len() <= MAX_SEED_LEN && owner_pda_marked(
                namespace@,
            ),
        },
{
    create_with_seed_engine(base, seed, namespace)
}

/// Derivation is deterministic: two derivations from byte-identical inputs
/// yield the byte-identical identity.
pub proof fn lemma_derive_deterministic(
    base: Seq<u8>,
    seed: Seq<u8>,
    namespace: Seq<u8>,
    r1: Seq<u8>,
    r2: Seq<u8>,
)
    requires
        r1 == derive_of(base, seed, namespace),
        r2 == derive_of(base, seed, namespace),
    ensures
        r1 == r2,
{
}

} // verus!
