# mvx_contracts

Verified models of two MultiversX smart contracts, written in Verus.

- `src/auction.rs`: the auction contract. Sellers list an item with a minimum bid and a
  deadline; bidders outbid each other (the previous bid is refunded); after the deadline the
  highest bid is paid to the seller, or refunded when there is no sale; owners may cancel
  before the deadline.
  Every endpoint is a function from the stored auctions and the call's context (caller, block
  time, payment) to the new storage and the payment and event to emit, with an exact contract.
- `src/auction_laws.rs`: what holds across endpoints: escrow conservation per token, rising
  bids, fixed terms, closed auctions stay closed, well-formed storage, views against endpoints.
- `src/zombies.rs`, `src/zombies_laws.rs`: the zombie contract and its laws (one zombie per
  account, DNA within the digit count, sequential ids).
- `src/amount.rs`, `src/address.rs`, `src/token.rs`: unbounded token amounts, addresses and
  token identifiers as plain values.
- `app/`: the contracts themselves, on the `multiversx-sc` framework: they read the chain,
  call the library and carry out what it returns.
