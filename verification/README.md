# tiktok_market

An NFT marketplace program for Solana, written in Verus. A user mints an NFT
against a USDC payment (15% to the marketplace, the rest to the treasury); a
seller lists an NFT into an escrow at a price and a creator royalty; the seller
can withdraw the listing; a buyer pays the price (royalty to the creator less
the marketplace's 15% cut of it, the rest to the seller) and receives the NFT.

## Layout

- `src/` — the verified library.
  - `address.rs`, `state.rs`, `error.rs`: keys, the escrow account, the refusals.
  - `fees.rs`: how payments are split.
  - `seeds.rs`: the escrow's seeds, program addresses and associated token accounts.
  - `instruction.rs`, `metadata.rs`: instructions for the token and token
    metadata programs, built by those programs' crates behind stated contracts.
  - `step.rs`: the calls an instruction asks of other programs, in order.
  - `instructions/`: for each instruction, the checks on its accounts, what it
    decides, and what it changes.
  - `tiktok_market.rs`: the entry points, which check an instruction's
    accounts and then run it; `laws.rs`: properties across them;
    `history.rs`: the life of one escrow over any sequence of instructions.
- `app/` — the Anchor program around the library: it reads the accounts,
  calls the library, performs the calls it asks for and stores the escrow.
- `tests/` — tests of the library against the real token, metadata and
  associated token account crates.
