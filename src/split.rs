//! Splitting a spending key among participants by a trusted dealer.

use crate::dealer::{
    deal, decodes_to_subgroup_point, fresh_rng, group_public_key, holders, is_subgroup_encoding,
    KeyPackages,
};
use crate::keys::{
    is_signing_scalar, IncomingViewKey, OutgoingViewKey, PublicAddress, SpendingKey, SplitError,
    ViewKey, KEY_LEN,
};
use ironfish_frost::dkg::round3::PublicKeyPackage;
use ironfish_frost::participant::Identity;
use vstd::prelude::*;

verus! {

/// Everything a participant set needs to act as the original account: the
/// account's public keys, unchanged, one key package per identity, and the
/// group's public key package.
pub struct TrustedDealerKeyPackages {
    pub proof_authorizing_key: [u8; 32],
    pub view_key: ViewKey,
    pub incoming_view_key: IncomingViewKey,
    pub outgoing_view_key: OutgoingViewKey,
    pub public_address: PublicAddress,
    pub key_packages: KeyPackages,
    pub public_key_package: PublicKeyPackage,
}

impl TrustedDealerKeyPackages {
    /// Bundles the outcome of a split: the account's own keys, the view key
    /// re-derived for the group, and what the dealer produced.
    pub fn assemble(
        spender_key: &SpendingKey,
        view_key: ViewKey,
        key_packages: KeyPackages,
        public_key_package: PublicKeyPackage,
    ) -> (r: TrustedDealerKeyPackages)
        ensures
            r.proof_authorizing_key == spender_key.proof_authorizing_key,
            r.view_key == view_key,
            r.incoming_view_key == spender_key.incoming_view_key,
            r.outgoing_view_key == spender_key.outgoing_view_key,
            r.public_address == spender_key.public_address,
            r.key_packages == key_packages,
            r.public_key_package == public_key_package,
    {
        TrustedDealerKeyPackages {
            proof_authorizing_key: spender_key.proof_generation_scalar(),
            view_key,
            incoming_view_key: spender_key.incoming_view_key(),
            outgoing_view_key: spender_key.outgoing_view_key(),
            public_address: spender_key.public_address(),
            key_packages,
            public_key_package,
        }
    }
}

/// A threshold that the sharing scheme accepts for `count` participants:
/// at least two signers, no more than there are participants, and a
/// participant count that a share index can hold.
pub open spec fn valid_share_config(min_signers: int, count: int) -> bool {
    &&& 2 <= min_signers
    &&& min_signers <= count
    &&& count <= u16::MAX
}

/// Checks the sharing parameters before any cryptographic work.
pub fn check_share_config(min_signers: u16, count: usize) -> (r: Result<(), SplitError>)
    ensures
        r is Ok <==> valid_share_config(min_signers as int, count as int),
        r is Err ==> r->Err_0 == SplitError::InvalidThresholdConfig,
{
    if min_signers < 2 || (min_signers as usize) > count || count > (u16::MAX as usize) {
        Err(SplitError::InvalidThresholdConfig)
    } else {
        Ok(())
    }
}

/// Builds the view key of the split account from the encoded verifying key
/// of its public key package and the account's nullifier-deriving key. The
/// encoding must be that of a subgroup point, else the key package is
/// rejected.
pub fn derive_view_key(verifying_key: &Vec<u8>, nullifier_deriving_key: &[u8; 32]) -> (r: Result<
    ViewKey,
    SplitError,
>)
    ensures
        r is Ok <==> (verifying_key@.len() == KEY_LEN && is_subgroup_encoding(verifying_key@)),
        r is Err ==> r->Err_0 == SplitError::InvalidAuthorizingKey,
        r is Ok ==> r->Ok_0.authorizing_key@ == verifying_key@,
        r is Ok ==> r->Ok_0.nullifier_deriving_key == *nullifier_deriving_key,
{
    if verifying_key.len() != KEY_LEN {
        return Err(SplitError::InvalidAuthorizingKey);
    }
    let mut authorizing_key: [u8; 32] = [0u8; 32];
    let mut i: usize = 0;
    while i < KEY_LEN
        invariant
            i <= KEY_LEN,
            verifying_key@.len() == KEY_LEN,
            forall|j: int| 0 <= j < i ==> authorizing_key@[j] == verifying_key@[j],
        decreases KEY_LEN - i,
    {
        authorizing_key[i] = verifying_key[i];
        i += 1;
    }
    assert(authorizing_key@ == verifying_key@);
    if !decodes_to_subgroup_point(&authorizing_key) {
        return Err(SplitError::InvalidAuthorizingKey);
    }
    Ok(ViewKey { authorizing_key, nullifier_deriving_key: *nullifier_deriving_key })
}

/// What a split of `key` into shares with threshold `min_signers` among
/// `identities` may return: which error comes on which inputs, and of a
/// result, that it carries the account's own public keys and gives one key
/// package to each identity and to no one else.
pub open spec fn split_outcome(
    key: SpendingKey,
    min_signers: int,
    identities: Seq<Identity>,
    r: Result<TrustedDealerKeyPackages, SplitError>,
) -> bool {
    &&& (r is Err && r->Err_0 == SplitError::InvalidThresholdConfig) <==> !valid_share_config(
        min_signers,
        identities.len() as int,
    )
    &&& (r is Err && r->Err_0 == SplitError::SecretEncodingError) <==> (valid_share_config(
        min_signers,
        identities.len() as int,
    ) && !is_signing_scalar(key.spend_authorizing_key@))
    &&& r is Ok ==> {
        let t = r->Ok_0;
        &&& valid_share_config(min_signers, identities.len() as int)
        &&& is_signing_scalar(key.spend_authorizing_key@)
        &&& t.proof_authorizing_key == key.proof_authorizing_key
        &&& is_subgroup_encoding(t.view_key.authorizing_key@)
        &&& t.view_key.authorizing_key@ == group_public_key(key.spend_authorizing_key@)
        &&& t.view_key.nullifier_deriving_key == key.view_key.nullifier_deriving_key
        &&& t.incoming_view_key == key.incoming_view_key
        &&& t.outgoing_view_key == key.outgoing_view_key
        &&& t.public_address == key.public_address
        &&& holders(t.key_packages) == identities.to_set()
    }
}

/// Splits the spend-authorizing scalar of `spender_key` into one share per
/// identity, any `min_signers` of which can sign for the account, and
/// re-derives the account's public keys for the group.
pub fn split_spender_key(
    spender_key: &SpendingKey,
    min_signers: u16,
    identities: Vec<Identity>,
) -> (r: Result<TrustedDealerKeyPackages, SplitError>)
    ensures
        split_outcome(*spender_key, min_signers as int, identities@, r),
{
    check_share_config(min_signers, identities.len())?;
    let secret = spender_key.spend_authorizing_scalar_bytes();
    let mut rng = fresh_rng();
    let (dealt, public_key_package, verifying_key) = deal(&secret, min_signers, &identities, &mut rng)?;

    let mut key_packages = KeyPackages::new();
    let mut i: usize = 0;
    while i < identities.len()
        invariant
            i <= identities@.len(),
            valid_share_config(min_signers as int, identities@.len() as int),
            is_signing_scalar(spender_key.spend_authorizing_key@),
            holders(key_packages) == identities@.subrange(0, i as int).to_set(),
        decreases identities@.len() - i,
    {
        if !key_packages.add_dealt(&identities[i], &dealt) {
            return Err(SplitError::SharingPrimitiveError);
        }
        proof {
            let done = identities@.subrange(0, i as int);
            assert(identities@.subrange(0, i + 1) == done.push(identities@[i as int]));
            done.lemma_push_to_set_commute(identities@[i as int]);
        }
        i += 1;
    }
    assert(identities@.subrange(0, identities@.len() as int) == identities@);

    let authorizing_key = match verifying_key {
        Some(bytes) => bytes,
        None => return Err(SplitError::InvalidAuthorizingKey),
    };
    let view_key = derive_view_key(&authorizing_key, &spender_key.view_key.nullifier_deriving_key)?;

    Ok(TrustedDealerKeyPackages::assemble(spender_key, view_key, key_packages, public_key_package))
}

/// Too few identities for the threshold: the split fails with
/// `InvalidThresholdConfig`, so no share is produced.
pub proof fn lemma_threshold_enforced(
    key: SpendingKey,
    min_signers: int,
    identities: Seq<Identity>,
    r: Result<TrustedDealerKeyPackages, SplitError>,
)
    requires
        split_outcome(key, min_signers, identities, r),
        identities.len() < min_signers,
    ensures
        r is Err,
        r->Err_0 == SplitError::InvalidThresholdConfig,
{
}

/// A successful split keeps the account's address, its incoming and
/// outgoing viewing keys, and the nullifier-deriving half of its view key.
pub proof fn lemma_public_keys_kept(
    key: SpendingKey,
    min_signers: int,
    identities: Seq<Identity>,
    t: TrustedDealerKeyPackages,
)
    requires
        split_outcome(key, min_signers, identities, Ok(t)),
    ensures
        t.public_address == key.public_address,
        t.incoming_view_key == key.incoming_view_key,
        t.outgoing_view_key == key.outgoing_view_key,
        t.view_key.nullifier_deriving_key == key.view_key.nullifier_deriving_key,
        t.view_key.bytes().subrange(32, 64) == key.view_key.bytes().subrange(32, 64),
{
    assert(t.view_key.bytes().subrange(32, 64) == t.view_key.nullifier_deriving_key@);
    assert(key.view_key.bytes().subrange(32, 64) == key.view_key.nullifier_deriving_key@);
}

/// For a key whose authorizing key is the public key of its
/// spend-authorizing scalar, as every account derives it, a successful split
/// yields the very same view key, byte for byte.
pub proof fn lemma_view_key_kept(
    key: SpendingKey,
    min_signers: int,
    identities: Seq<Identity>,
    t: TrustedDealerKeyPackages,
)
    requires
        split_outcome(key, min_signers, identities, Ok(t)),
        key.has_derived_authorizing_key(),
    ensures
        t.view_key.bytes() == key.view_key.bytes(),
{
    assert(t.view_key.authorizing_key@ == key.view_key.authorizing_key@);
    assert(t.view_key.nullifier_deriving_key@ == key.view_key.nullifier_deriving_key@);
}

/// Of distinct identities, a successful split gives exactly one key package
/// to each, whatever their order: as many packages as identities, held by
/// exactly the given identities.
pub proof fn lemma_one_package_per_identity(
    key: SpendingKey,
    min_signers: int,
    identities: Seq<Identity>,
    t: TrustedDealerKeyPackages,
)
    requires
        split_outcome(key, min_signers, identities, Ok(t)),
        identities.no_duplicates(),
    ensures
        holders(t.key_packages) == identities.to_set(),
        holders(t.key_packages).len() == identities.len(),
        forall|id: Identity| holders(t.key_packages).contains(id) <==> identities.contains(id),
{
    identities.unique_seq_to_set();
}

/// Two successful splits of one key among the same identities, whatever
/// randomness each drew, agree on every public identifier that does not come
/// from the dealt shares, and give packages to the same identities.
pub proof fn lemma_splits_agree_publicly(
    key: SpendingKey,
    min_signers: int,
    identities: Seq<Identity>,
    a: TrustedDealerKeyPackages,
    b: TrustedDealerKeyPackages,
)
    requires
        split_outcome(key, min_signers, identities, Ok(a)),
        split_outcome(key, min_signers, identities, Ok(b)),
    ensures
        a.public_address == b.public_address,
        a.incoming_view_key == b.incoming_view_key,
        a.outgoing_view_key == b.outgoing_view_key,
        a.view_key.nullifier_deriving_key == b.view_key.nullifier_deriving_key,
        a.proof_authorizing_key == b.proof_authorizing_key,
        holders(a.key_packages) == holders(b.key_packages),
{
}

} // verus!
