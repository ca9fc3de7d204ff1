//! Status card for a node of a peer-to-peer network.
//!
//! The library holds the logic of the card: the typed facets of node state,
//! the aggregation of collector outcomes into one snapshot, the canonical
//! text report, the layout of the card, and the refresh schedule. Every
//! function carries a contract that Verus proves.

pub mod address;
pub mod ascending;
pub mod card;
pub mod chains;
pub mod collect;
pub mod json;
pub mod labels;
pub mod model;
pub mod naming;
pub mod providers;
pub mod report;
pub mod schedule;
pub mod text;
