//! The rest of the SimpleMMO data the bot shows: the world-boss list, the
//! orphanage, and items.
use vstd::prelude::*;
use crate::smmo::world_boss::WorldBoss;
use crate::time::Timestamp;

verus! {

/// Every world boss the API lists.
pub struct WorldBosses(pub Vec<WorldBoss>);

/// A recent donation to the orphanage.
pub struct RecentDonator {
    pub user_id: u32,
    pub amount: u64,
    pub created_at: Timestamp,
}

/// The orphanage: how much has been donated towards its goal.
pub struct Orphanage {
    pub current_amount: u64,
    pub max_amount: u64,
    pub recent_donators: Vec<RecentDonator>,
}

/// An item. Its rarity is carried as the name and colour that the API crate
/// gives it.
pub struct Item {
    pub id: u64,
    pub name: String,
    pub description: Option<String>,
    pub level: u64,
    pub value: u64,
    /// The rarity's name, as the API crate displays it.
    pub rarity_name: String,
    /// The rarity's colour, as the API crate gives it.
    pub rarity_colour: u32,
}

} // verus!
