use frost_core::keys::{reconstruct, KeyPackage};
use group::ff::Field;
use group::{Group, GroupEncoding};
use ironfish_frost::frost::JubjubBlake2b512;
use ironfish_frost::participant::{Identity, Secret};
use ironfish_split::dealer::KeyPackages;
use ironfish_split::keys::{
    IncomingViewKey, OutgoingViewKey, PublicAddress, SpendingKey, SplitError, ViewKey,
};
use ironfish_split::split::{check_share_config, derive_view_key, split_spender_key};
use jubjub::{Fr, SubgroupPoint};
use rand::thread_rng;

const SPEND_AUTH_BASEPOINT: [u8; 32] = [
    48, 181, 242, 170, 173, 50, 86, 48, 188, 221, 219, 206, 77, 103, 101, 109, 5, 253, 28, 194,
    208, 55, 187, 83, 117, 182, 233, 109, 158, 1, 161, 215,
];

fn create_identities(n: usize) -> Vec<Identity> {
    (0..n).map(|_| Secret::random(thread_rng()).to_identity()).collect()
}

fn random_point() -> [u8; 32] {
    (SubgroupPoint::generator() * Fr::random(thread_rng())).to_bytes()
}

fn generate_key() -> SpendingKey {
    let ask = Fr::random(thread_rng());
    let basepoint = SubgroupPoint::from_bytes(&SPEND_AUTH_BASEPOINT).unwrap();
    SpendingKey {
        spend_authorizing_key: ask.to_bytes(),
        proof_authorizing_key: Fr::random(thread_rng()).to_bytes(),
        view_key: ViewKey {
            authorizing_key: (basepoint * ask).to_bytes(),
            nullifier_deriving_key: random_point(),
        },
        incoming_view_key: IncomingViewKey { view_key: Fr::random(thread_rng()).to_bytes() },
        outgoing_view_key: OutgoingViewKey { view_key: [7u8; 32] },
        public_address: PublicAddress { transmission_key: random_point() },
    }
}

fn packages_of(packages: &KeyPackages, identities: &[Identity]) -> Vec<KeyPackage<JubjubBlake2b512>> {
    identities
        .iter()
        .map(|id| {
            let bytes = packages.package_bytes(id).expect("identity should hold a package");
            KeyPackage::<JubjubBlake2b512>::deserialize(&bytes).unwrap()
        })
        .collect()
}

#[test]
fn test_split_spender_key_success() {
    let identities = create_identities(10);

    let mut cloned_identities = identities.clone();
    cloned_identities.sort_by_key(Identity::serialize);

    let sapling_key = generate_key();

    let trusted_dealer_key_packages =
        split_spender_key(&sapling_key, 5, identities.clone()).expect("spender key split failed");

    assert_eq!(
        trusted_dealer_key_packages.key_packages.len(),
        10,
        "should have 10 key packages"
    );

    assert_eq!(
        trusted_dealer_key_packages.view_key.to_bytes(),
        sapling_key.view_key.to_bytes(),
        "should have the same incoming viewing key"
    );

    assert_eq!(
        trusted_dealer_key_packages.public_address,
        sapling_key.public_address(),
        "should have the same public address"
    );

    let spend_auth_key = sapling_key.spend_authorizing_key;

    let key_parts = packages_of(&trusted_dealer_key_packages.key_packages, &identities);

    let signing_key =
        reconstruct::<JubjubBlake2b512>(&key_parts).expect("key reconstruction failed");

    assert_eq!(signing_key.serialize(), spend_auth_key.to_vec());

    let mut t_identities: Vec<Identity> = cloned_identities
        .iter()
        .filter(|id| trusted_dealer_key_packages.key_packages.package_bytes(id).is_some())
        .cloned()
        .collect();
    t_identities.sort_by_key(Identity::serialize);
    assert_eq!(t_identities, cloned_identities);
}

#[test]
fn any_threshold_of_shares_reconstructs_and_fewer_do_not() {
    let identities = create_identities(10);
    let key = generate_key();
    let result = split_spender_key(&key, 5, identities.clone()).unwrap();
    let parts = packages_of(&result.key_packages, &identities);
    for start in 0..6 {
        let chosen = &parts[start..start + 5];
        let signing_key = reconstruct::<JubjubBlake2b512>(chosen).unwrap();
        assert_eq!(signing_key.serialize(), key.spend_authorizing_key.to_vec());
    }
    let spread: Vec<_> = [0usize, 2, 4, 7, 9].iter().map(|i| parts[*i].clone()).collect();
    let signing_key = reconstruct::<JubjubBlake2b512>(&spread).unwrap();
    assert_eq!(signing_key.serialize(), key.spend_authorizing_key.to_vec());
    for start in 0..7 {
        match reconstruct::<JubjubBlake2b512>(&parts[start..start + 4]) {
            Err(_) => {}
            Ok(k) => assert_ne!(k.serialize(), key.spend_authorizing_key.to_vec()),
        }
    }
}

#[test]
fn fewer_identities_than_threshold_is_rejected() {
    let key = generate_key();
    let r = split_spender_key(&key, 5, create_identities(4));
    assert!(matches!(r, Err(SplitError::InvalidThresholdConfig)));
    let r = split_spender_key(&key, 3, Vec::new());
    assert!(matches!(r, Err(SplitError::InvalidThresholdConfig)));
}

#[test]
fn threshold_below_two_is_rejected() {
    let key = generate_key();
    let r = split_spender_key(&key, 1, create_identities(3));
    assert!(matches!(r, Err(SplitError::InvalidThresholdConfig)));
    let r = split_spender_key(&key, 0, create_identities(3));
    assert!(matches!(r, Err(SplitError::InvalidThresholdConfig)));
}

#[test]
fn threshold_equal_to_identity_count_splits() {
    let key = generate_key();
    let identities = create_identities(2);
    let result = split_spender_key(&key, 2, identities.clone()).unwrap();
    assert_eq!(result.key_packages.len(), 2);
    let parts = packages_of(&result.key_packages, &identities);
    let signing_key = reconstruct::<JubjubBlake2b512>(&parts).unwrap();
    assert_eq!(signing_key.serialize(), key.spend_authorizing_key.to_vec());
}

#[test]
fn invalid_secret_scalar_is_rejected() {
    let mut key = generate_key();
    key.spend_authorizing_key = [0u8; 32];
    let r = split_spender_key(&key, 2, create_identities(3));
    assert!(matches!(r, Err(SplitError::SecretEncodingError)));
    key.spend_authorizing_key = [0xff; 32];
    let r = split_spender_key(&key, 2, create_identities(3));
    assert!(matches!(r, Err(SplitError::SecretEncodingError)));
}

#[test]
fn threshold_error_comes_before_secret_error() {
    let mut key = generate_key();
    key.spend_authorizing_key = [0u8; 32];
    let r = split_spender_key(&key, 4, create_identities(3));
    assert!(matches!(r, Err(SplitError::InvalidThresholdConfig)));
}

#[test]
fn duplicate_identities_are_refused_by_the_sharing_step() {
    let key = generate_key();
    let one = create_identities(1).remove(0);
    let r = split_spender_key(&key, 2, vec![one.clone(), one.clone(), one]);
    assert!(matches!(r, Err(SplitError::SharingPrimitiveError)));
}

#[test]
fn split_keeps_account_keys() {
    let key = generate_key();
    let result = split_spender_key(&key, 3, create_identities(4)).unwrap();
    assert_eq!(result.proof_authorizing_key, key.proof_authorizing_key);
    assert_eq!(result.view_key, key.view_key);
    assert_eq!(result.incoming_view_key, key.incoming_view_key());
    assert_eq!(result.outgoing_view_key, key.outgoing_view_key());
    assert_eq!(result.public_address, key.public_address());
}

#[test]
fn package_set_does_not_depend_on_identity_order() {
    let key = generate_key();
    let identities = create_identities(6);
    let mut reversed = identities.clone();
    reversed.reverse();
    let result = split_spender_key(&key, 4, reversed).unwrap();
    assert_eq!(result.key_packages.len(), 6);
    for id in &identities {
        assert!(result.key_packages.package_bytes(id).is_some());
    }
    let outsider = create_identities(1).remove(0);
    assert!(result.key_packages.package_bytes(&outsider).is_none());
}

#[test]
fn two_splits_differ_in_shares_and_agree_publicly() {
    let key = generate_key();
    let identities = create_identities(5);
    let a = split_spender_key(&key, 3, identities.clone()).unwrap();
    let b = split_spender_key(&key, 3, identities.clone()).unwrap();
    assert_eq!(a.view_key.to_bytes(), b.view_key.to_bytes());
    assert_eq!(a.public_address, b.public_address);
    assert_eq!(a.incoming_view_key, b.incoming_view_key);
    assert_eq!(a.outgoing_view_key, b.outgoing_view_key);
    let differing = identities.iter().any(|id| {
        a.key_packages.package_bytes(id).unwrap() != b.key_packages.package_bytes(id).unwrap()
    });
    assert!(differing);
}

#[test]
fn off_curve_verifying_key_is_rejected() {
    let nk = random_point();
    let r = derive_view_key(&vec![0xff; 32], &nk);
    assert!(matches!(r, Err(SplitError::InvalidAuthorizingKey)));
    let mut flipped = SubgroupPoint::generator().to_bytes();
    flipped[0] ^= 0x01;
    if SubgroupPoint::from_bytes(&flipped).is_none().into() {
        let r = derive_view_key(&flipped.to_vec(), &nk);
        assert!(matches!(r, Err(SplitError::InvalidAuthorizingKey)));
    }
}

#[test]
fn verifying_key_of_wrong_length_is_rejected() {
    let nk = random_point();
    let good = SubgroupPoint::generator().to_bytes();
    assert!(matches!(derive_view_key(&good[..31].to_vec(), &nk), Err(SplitError::InvalidAuthorizingKey)));
    let mut long = good.to_vec();
    long.push(0);
    assert!(matches!(derive_view_key(&long, &nk), Err(SplitError::InvalidAuthorizingKey)));
    assert!(matches!(derive_view_key(&Vec::new(), &nk), Err(SplitError::InvalidAuthorizingKey)));
}

#[test]
fn subgroup_point_gives_view_key() {
    let nk = random_point();
    let ak = random_point();
    let view_key = derive_view_key(&ak.to_vec(), &nk).unwrap();
    assert_eq!(view_key.authorizing_key, ak);
    assert_eq!(view_key.nullifier_deriving_key, nk);
}

#[test]
fn share_config_bounds() {
    assert_eq!(check_share_config(2, 2), Ok(()));
    assert_eq!(check_share_config(5, 10), Ok(()));
    assert_eq!(check_share_config(2, 65535), Ok(()));
    assert_eq!(check_share_config(2, 65536), Err(SplitError::InvalidThresholdConfig));
    assert_eq!(check_share_config(1, 10), Err(SplitError::InvalidThresholdConfig));
    assert_eq!(check_share_config(0, 0), Err(SplitError::InvalidThresholdConfig));
    assert_eq!(check_share_config(11, 10), Err(SplitError::InvalidThresholdConfig));
}

#[test]
fn view_key_bytes_are_ak_then_nk() {
    let view_key = ViewKey { authorizing_key: [1u8; 32], nullifier_deriving_key: [2u8; 32] };
    let bytes = view_key.to_bytes();
    assert_eq!(bytes.len(), 64);
    assert_eq!(&bytes[..32], &[1u8; 32]);
    assert_eq!(&bytes[32..], &[2u8; 32]);
}
