use vstd::prelude::*;

verus! {

/// Seed of a vault's authority address: the bytes of `bentobox`.
pub const BENTOBOX_SEED_PART: [u8; 8] = [98, 101, 110, 116, 111, 98, 111, 120];

/// Seed of a lending market's authority address: the bytes of `cauldron`.
pub const CAULDRON_SEED_PART: [u8; 8] = [99, 97, 117, 108, 100, 114, 111, 110];

/// Bytes in front of a stored record that tell its kind.
pub const DISCRIMINATOR_BYTES: usize = 8;

} // verus!
