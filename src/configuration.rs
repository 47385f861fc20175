//! The household configuration that seeds an empty store.
use vstd::prelude::*;

verus! {

/// Where the data lives and who belongs to the family.
#[derive(Clone, Debug, Default)]
pub struct Configuration {
    pub database: DatabaseConfig,
    /// The family members, in the order in which they are seeded.
    pub family: Vec<Family>,
}

#[derive(Clone, Debug, Default)]
pub struct DatabaseConfig {
    pub path: String,
}

/// One family member; `children` names other members by first name.
#[derive(Clone, Debug, Default)]
pub struct Family {
    pub first_name: String,
    pub last_name: String,
    pub age: u32,
    pub children: Vec<String>,
}

} // verus!
