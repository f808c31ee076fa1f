//! Verified core of an AniList lookup bot: cleaning and shortening of
//! descriptions, statistics lines, title lists, the cards the commands
//! answer with, and the life cycle of a reply that its reader may delete.

pub mod deletable;
pub mod description;
pub mod number;
pub mod reply;
pub mod stats;
pub mod studio;
pub mod text;
