//! A decentralised exchange of fungible assets: liquidity pools keyed by unordered asset
//! pairs, with liquidity tokens minted to the providers.
pub mod encoding;
pub mod math;
pub mod vec_map;
pub mod types;
pub mod assets;
pub mod pallet;
pub mod laws;
pub mod outcomes;
