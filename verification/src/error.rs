//! The marketplace's own refusals.
use vstd::prelude::*;

verus! {

/// Why the marketplace refused an instruction.
#[derive(Clone, Copy, Debug, PartialEq, Eq, Structural)]
pub enum MarketplaceError {
    /// The NFT is already listed: it must be delisted before it is listed again.
    NftListed,
    /// The NFT is not listed.
    NftUnlisted,
    /// The account that asks to delist is not the one that listed.
    UnknownSeller,
}

/// The number under which each error is reported as a custom program error:
/// its position among the variants.
pub open spec fn error_code(e: MarketplaceError) -> u32 {
    match e {
        MarketplaceError::NftListed => 0,
        MarketplaceError::NftUnlisted => 1,
        MarketplaceError::UnknownSeller => 2,
    }
}

impl MarketplaceError {
    /// The custom program error code of this error.
    pub fn code(&self) -> (c: u32)
        ensures
            c == error_code(*self),
    {
        match self {
            MarketplaceError::NftListed => 0,
            MarketplaceError::NftUnlisted => 1,
            MarketplaceError::UnknownSeller => 2,
        }
    }

    /// The message that is logged with this error.
    pub fn message(&self) -> (m: &'static str)
        ensures
            *self == MarketplaceError::NftListed ==> m@
                == "Nft already listed. Must delist first to update listing."@,
            *self == MarketplaceError::NftUnlisted ==> m@ == "Nft is already unlisted."@,
            *self == MarketplaceError::UnknownSeller ==> m@
                == "Person attempting to delist is not the one who originally listed."@,
    {
        match self {
            MarketplaceError::NftListed => "Nft already listed. Must delist first to update listing.",
            MarketplaceError::NftUnlisted => "Nft is already unlisted.",
            MarketplaceError::UnknownSeller => "Person attempting to delist is not the one who originally listed.",
        }
    }
}

/// Each error is reported under a code of its own, below the number of errors.
pub proof fn lemma_error_codes_distinct(a: MarketplaceError, b: MarketplaceError)
    ensures
        error_code(a) < 3,
        error_code(a) == error_code(b) <==> a == b,
{
}

} // verus!
