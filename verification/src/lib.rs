//! Verified models of two FRAME voting pallets: `voting`, in which
//! registered voters submit proposals, and `voting_nft`, its variant for
//! votes cast with NFTs.
pub mod bounded;
pub mod origin;
pub mod storage;
pub mod voting;
pub mod voting_nft;
