//! Account key material, held as canonical 32-byte encodings.

use crate::dealer::group_public_key;
use vstd::prelude::*;

verus! {

/// Number of bytes in the canonical encoding of a scalar or a curve point.
pub const KEY_LEN: usize = 32;

/// Order of the prime-order subgroup of the Jubjub curve: the modulus of its
/// scalar field.
pub open spec fn jubjub_order() -> nat {
    0x0e7db4ea6533afa906673b0101343b00a6682093ccc81082d0970e5ed6f72cb7nat
}

/// The number that a byte string encodes in little-endian order.
pub open spec fn le_value(s: Seq<u8>) -> nat
    decreases s.len(),
{
    if s.len() == 0 {
        0
    } else {
        s[0] as nat + 256 * le_value(s.drop_first())
    }
}

/// A canonical encoding of a nonzero Jubjub scalar: the only secrets that
/// can be shared as a signing key.
pub open spec fn is_signing_scalar(s: Seq<u8>) -> bool {
    &&& s.len() == KEY_LEN
    &&& 0 < le_value(s)
    &&& le_value(s) < jubjub_order()
}

/// Failures of a split. None of them leaves a partial result behind.
#[derive(Clone, Copy, Debug, PartialEq, Eq, Structural)]
pub enum SplitError {
    /// The threshold is below two, or there are fewer identities than the
    /// threshold, or more than a share index can count.
    InvalidThresholdConfig,
    /// The spend-authorizing scalar is not a valid signing key.
    SecretEncodingError,
    /// The verifying key of the public key package does not decode to a
    /// point of the prime-order subgroup.
    InvalidAuthorizingKey,
    /// Any other failure of the secret-sharing step.
    SharingPrimitiveError,
}

/// The viewing key of an account: the authorizing key `ak` and the
/// nullifier-deriving key `nk`, both encoded subgroup points.
#[derive(Clone, Copy, Debug, PartialEq, Eq)]
pub struct ViewKey {
    pub authorizing_key: [u8; 32],
    pub nullifier_deriving_key: [u8; 32],
}

/// The key that detects and decrypts incoming notes.
#[derive(Clone, Copy, Debug, PartialEq, Eq)]
pub struct IncomingViewKey {
    pub view_key: [u8; 32],
}

/// The key that decrypts outgoing notes.
#[derive(Clone, Copy, Debug, PartialEq, Eq)]
pub struct OutgoingViewKey {
    pub view_key: [u8; 32],
}

/// The address that others pay to: the encoded transmission key.
#[derive(Clone, Copy, Debug, PartialEq, Eq)]
pub struct PublicAddress {
    pub transmission_key: [u8; 32],
}

/// The key material of an unsplit account. The scalars are the private
/// part; the other fields are the account's derived keys, held as the
/// account itself computed them.
#[derive(Clone, Copy, Debug, PartialEq, Eq)]
pub struct SpendingKey {
    pub spend_authorizing_key: [u8; 32],
    pub proof_authorizing_key: [u8; 32],
    pub view_key: ViewKey,
    pub incoming_view_key: IncomingViewKey,
    pub outgoing_view_key: OutgoingViewKey,
    pub public_address: PublicAddress,
}

impl ViewKey {
    /// The 64-byte encoding: `ak` followed by `nk`.
    pub open spec fn bytes(self) -> Seq<u8> {
        self.authorizing_key@ + self.nullifier_deriving_key@
    }

    pub fn to_bytes(&self) -> (r: Vec<u8>)
        ensures
            r@ == self.bytes(),
    {
        let mut r: Vec<u8> = Vec::with_capacity(2 * KEY_LEN);
        let mut i: usize = 0;
        while i < KEY_LEN
            invariant
                i <= KEY_LEN,
                r@ == self.authorizing_key@.subrange(0, i as int),
            decreases KEY_LEN - i,
        {
            r.push(self.authorizing_key[i]);
            i += 1;
        }
        let mut j: usize = 0;
        while j < KEY_LEN
            invariant
                j <= KEY_LEN,
                r@ == self.authorizing_key@ + self.nullifier_deriving_key@.subrange(0, j as int),
            decreases KEY_LEN - j,
        {
            r.push(self.nullifier_deriving_key[j]);
            j += 1;
        }
        assert(self.authorizing_key@.subrange(0, 32) == self.authorizing_key@);
        assert(self.nullifier_deriving_key@.subrange(0, 32) == self.nullifier_deriving_key@);
        r
    }
}

impl SpendingKey {
    /// The authorizing key is the public key of the spend-authorizing
    /// scalar, as an account derives it.
    pub open spec fn has_derived_authorizing_key(self) -> bool {
        self.view_key.authorizing_key@ == group_public_key(self.spend_authorizing_key@)
    }

    /// The secret that a split shares: the canonical encoding of the
    /// spend-authorizing scalar.
    pub fn spend_authorizing_scalar_bytes(&self) -> (r: [u8; 32])
        ensures
            r == self.spend_authorizing_key,
    {
        self.spend_authorizing_key
    }

    /// The proof-generation scalar `nsk`.
    pub fn proof_generation_scalar(&self) -> (r: [u8; 32])
        ensures
            r == self.proof_authorizing_key,
    {
        self.proof_authorizing_key
    }

    pub fn public_address(&self) -> (r: PublicAddress)
        ensures
            r == self.public_address,
    {
        self.public_address
    }

    pub fn incoming_view_key(&self) -> (r: IncomingViewKey)
        ensures
            r == self.incoming_view_key,
    {
        self.incoming_view_key
    }

    pub fn outgoing_view_key(&self) -> (r: OutgoingViewKey)
        ensures
            r == self.outgoing_view_key,
    {
        self.outgoing_view_key
    }
}

} // verus!
