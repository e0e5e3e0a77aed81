//! Trusted-dealer splitting of a spending key into threshold signing shares,
//! with the account's public key material re-derived so that the split
//! account is indistinguishable from the original one.

pub mod dealer;
pub mod keys;
pub mod split;
