//! Authors of modules.

use crate::domain::registry::RegistryModule;
use vstd::prelude::*;

verus! {

/// A registered author.
#[derive(Debug, Clone)]
pub struct Author {
    pub id: u64,
    pub username: String,
    pub display_name: Option<String>,
    pub avatar_url: Option<String>,
    pub bio: Option<String>,
    pub website_url: Option<String>,
    pub verified_author: bool,
    pub module_count: u64,
    pub created_at: String,
}

/// An author together with the modules they published.
#[derive(Debug, Clone)]
pub struct AuthorProfile {
    pub author: Author,
    pub modules: Vec<RegistryModule>,
}

} // verus!
