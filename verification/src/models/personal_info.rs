//! Personal details.

use vstd::prelude::*;

verus! {

/// Personal details with links to profiles elsewhere.
#[derive(Debug, Clone)]
pub struct PersonalInfo {
    pub first_name: String,
    pub last_name: String,
    pub birthdate: i64,
    pub email: String,
    pub location: String,
    pub location_city: String,
    pub links: Vec<PersonalInfoLink>,
}

/// A named link.
#[derive(Debug, Clone)]
pub struct PersonalInfoLink {
    pub name: String,
    pub url: String,
}

} // verus!
