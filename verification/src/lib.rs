//! A marketplace for NFTs: minting against a USDC payment, listing an NFT
//! into escrow, withdrawing a listing, and buying a listed NFT.
pub mod address;
pub mod error;
pub mod fees;
pub mod history;
pub mod instruction;
pub mod instructions;
pub mod laws;
pub mod metadata;
pub mod seeds;
pub mod state;
pub mod step;
pub mod tiktok_market;
