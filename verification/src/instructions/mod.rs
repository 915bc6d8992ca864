//! The marketplace's instructions: what each decides and what it asks of
//! other programs.
pub mod process_buy_nft;
pub mod process_delist_nft;
pub mod process_list_nft;
pub mod process_mint_nft;
