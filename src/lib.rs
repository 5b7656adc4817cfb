//! Change detection for a domain's WHOIS record: volatile timestamps are
//! stripped from each response, the two newest snapshots are rotated, and the
//! newest is compared with the one before it.

pub mod normalize;
pub mod cycle;
