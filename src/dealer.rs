//! The secret-sharing step and the curve checks, provided by the FROST and
//! Jubjub crates. Each trusted item here names the outside function that it
//! relies on.

use crate::keys::{is_signing_scalar, SplitError};
use group::GroupEncoding;
use ironfish_frost::dkg::round3::PublicKeyPackage;
use ironfish_frost::frost::keys::{split, IdentifierList, KeyPackage, SecretShare};
use ironfish_frost::frost::{Identifier, SigningKey};
use ironfish_frost::participant::Identity;
use rand::rngs::ThreadRng;
use std::collections::BTreeMap;
use std::collections::HashMap;
use vstd::prelude::*;

verus! {

#[verifier::external_type_specification]
#[verifier::external_body]
pub struct ExIdentity(Identity);

#[verifier::external_type_specification]
#[verifier::external_body]
pub struct ExPublicKeyPackage(PublicKeyPackage);

#[verifier::external_type_specification]
#[verifier::external_body]
pub struct ExThreadRng(ThreadRng);

/// The shares that the dealer produced, keyed by FROST identifier.
#[verifier::external_body]
pub(crate) struct DealtShares {
    shares: BTreeMap<Identifier, SecretShare>,
}

/// The key package of each participant, keyed by identity.
#[verifier::external_body]
pub struct KeyPackages {
    packages: HashMap<Identity, KeyPackage>,
}

/// The identities that hold a key package in `p`.
pub uninterp spec fn holders(p: KeyPackages) -> Set<Identity>;

/// The encoding of the FROST verifying key of the signing key whose scalar
/// is encoded by `secret`: the scalar times the spend-authorization
/// basepoint.
pub uninterp spec fn group_public_key(secret: Seq<u8>) -> Seq<u8>;

/// Whether `b` is the canonical encoding of a point of Jubjub's prime-order
/// subgroup.
pub uninterp spec fn is_subgroup_encoding(b: Seq<u8>) -> bool;

/// Relies on rand::thread_rng: a handle on the thread's cryptographic
/// random number generator.
#[verifier::external_body]
pub(crate) fn fresh_rng() -> ThreadRng {
    rand::thread_rng()
}

/// Relies on `SubgroupPoint::from_bytes` of jubjub (through
/// group::GroupEncoding): whether the bytes decode to a subgroup point.
#[verifier::external_body]
pub(crate) fn decodes_to_subgroup_point(b: &[u8; 32]) -> (r: bool)
    ensures
        r == is_subgroup_encoding(b@),
{
    bool::from(jubjub::SubgroupPoint::from_bytes(b).is_some())
}

/// Relies on frost_core::keys::split (as `ironfish_frost::frost::keys::split`),
/// after `SigningKey::deserialize` of the secret, which accepts exactly the
/// canonical encodings of nonzero scalars. The public key package is built
/// with `PublicKeyPackage::from_frost` over the same identities and
/// threshold. The split keeps `VerifyingKey::from(&key)` as the group's
/// verifying key, and its encoding (`VerifyingKey::serialize`) is returned
/// beside the package.
#[verifier::external_body]
pub(crate) fn deal(
    secret: &[u8; 32],
    min_signers: u16,
    identities: &Vec<Identity>,
    rng: &mut ThreadRng,
) -> (r: Result<(DealtShares, PublicKeyPackage, Option<Vec<u8>>), SplitError>)
    requires
        2 <= min_signers,
        min_signers as int <= identities@.len(),
        identities@.len() <= u16::MAX,
    ensures
        r is Err ==> r->Err_0 == SplitError::SecretEncodingError || r->Err_0
            == SplitError::SharingPrimitiveError,
        (r is Err && r->Err_0 == SplitError::SecretEncodingError) <==> !is_signing_scalar(secret@),
        r is Ok && r->Ok_0.2 is Some ==> r->Ok_0.2->Some_0@ == group_public_key(secret@),
{
    let key = SigningKey::deserialize(&secret[..]).map_err(|_| SplitError::SecretEncodingError)?;
    let ids: Vec<Identifier> = identities.iter().map(Identity::to_frost_identifier).collect();
    let (shares, package) = split(
        &key,
        identities.len() as u16,
        min_signers,
        IdentifierList::Custom(&ids),
        rng,
    ).map_err(|_| SplitError::SharingPrimitiveError)?;
    let verifying_key = package.verifying_key().serialize().ok();
    let package = PublicKeyPackage::from_frost(package, identities.clone(), min_signers);
    Ok((DealtShares { shares }, package, verifying_key))
}

impl KeyPackages {
    /// Relies on HashMap::new: a map with no entries.
    #[verifier::external_body]
    pub(crate) fn new() -> (r: KeyPackages)
        ensures
            holders(r) == Set::<Identity>::empty(),
    {
        KeyPackages { packages: HashMap::new() }
    }

    /// Relies on HashMap::len: the number of keys.
    #[verifier::external_body]
    pub fn len(&self) -> (r: usize)
        ensures
            r as nat == holders(*self).len(),
    {
        self.packages.len()
    }

    /// Relies on `KeyPackage::try_from(SecretShare)` of frost_core, which
    /// verifies the share against the dealer's commitment, applied to the
    /// share dealt to the identity's FROST identifier
    /// (`Identity::to_frost_identifier`); the package is then stored under the
    /// identity with HashMap::insert.
    #[verifier::external_body]
    pub(crate) fn add_dealt(&mut self, identity: &Identity, dealt: &DealtShares) -> (ok: bool)
        ensures
            ok ==> holders(*final(self)) == holders(*old(self)).insert(*identity),
            !ok ==> *final(self) == *old(self),
    {
        match dealt.shares.get(&identity.to_frost_identifier()) {
            None => false,
            Some(share) => match KeyPackage::try_from(share.clone()) {
                Err(_) => false,
                Ok(package) => {
                    self.packages.insert(identity.clone(), package);
                    true
                },
            },
        }
    }

    /// Relies on `KeyPackage::serialize` of frost_core, applied to the
    /// package that HashMap::get finds for the identity.
    #[verifier::external_body]
    pub fn package_bytes(&self, identity: &Identity) -> (r: Option<Vec<u8>>)
        ensures
            r is Some ==> holders(*self).contains(*identity),
    {
        self.packages.get(identity).and_then(|p| p.serialize().ok())
    }
}

} // verus!
