//! A small on-chain marketplace core: contributors submit scientific studies,
//! studies are bundled into purchasable datasets, and sale proceeds are split
//! between contributors and a protocol treasury.
//!
//! The library is pure state-and-arithmetic logic: the study registry with
//! per-cycle deduplication, the dataset marketplace with referential bundling,
//! and the revenue splitter with its 85/15 integer split. Host concerns
//! (persistent storage, event emission, account identity) live outside; the
//! splitter returns its distribution signals as an explicit list.

pub mod errors;
pub mod ids;
pub mod marketplace;
pub mod registry;
pub mod splitter;
