//! The registry's payloads as they arrive, before validation.
//!
//! Numbers are signed and nullable fields are doubly optional, as the wire
//! format has them: the outer `Option` says whether the field was sent, the
//! inner one whether it was null.

use vstd::prelude::*;

verus! {

/// A category as the registry names it.
#[derive(Debug, Clone, Copy, PartialEq, Eq, Structural)]
pub enum ModuleCategory {
    System,
    Hardware,
    Network,
    Audio,
    Power,
    Time,
    Workspace,
    Window,
    Tray,
    Weather,
    Productivity,
    Media,
    Custom,
}

/// A category's presentation, as sent.
#[derive(Debug, Clone)]
pub struct CategoryInfo {
    pub id: Option<Option<String>>,
    pub name: String,
    pub icon: String,
}

/// A category key with its presentation, as sent.
#[derive(Debug, Clone)]
pub struct CategoryEntry {
    pub key: String,
    pub info: CategoryInfo,
}

/// A module, as sent.
#[derive(Debug, Clone)]
pub struct RegistryModule {
    pub uuid: String,
    pub name: String,
    pub description: String,
    pub author: String,
    pub category: ModuleCategory,
    pub icon: Option<Option<String>>,
    pub screenshot: Option<Option<String>>,
    pub repo_url: String,
    pub downloads: i64,
    pub version: Option<Option<String>>,
    pub last_updated: Option<Option<String>>,
    /// The rating, as the bit pattern of an IEEE 754 single.
    pub rating: Option<Option<u32>>,
    pub verified_author: bool,
    pub tags: Vec<String>,
    pub checksum: Option<Option<String>>,
    pub license: Option<Option<String>>,
}

/// The catalog, as sent.
#[derive(Debug, Clone)]
pub struct RegistryIndex {
    pub version: i32,
    pub modules: Vec<RegistryModule>,
    pub categories: Vec<CategoryEntry>,
}

/// The writer of a review, as sent.
#[derive(Debug, Clone)]
pub struct ReviewUser {
    pub username: String,
    pub avatar_url: Option<Option<String>>,
}

/// A review, as sent.
#[derive(Debug, Clone)]
pub struct Review {
    pub id: i64,
    pub rating: i32,
    pub title: Option<Option<String>>,
    pub body: Option<Option<String>>,
    pub helpful_count: i64,
    pub user: ReviewUser,
    pub created_at: String,
    pub updated_at: Option<Option<String>>,
}

/// A page of reviews, as sent.
#[derive(Debug, Clone)]
pub struct ReviewsPage {
    pub version: i32,
    pub reviews: Vec<Review>,
    pub total: i32,
}

/// The role of a user on the registry.
#[derive(Debug, Clone, Copy, PartialEq, Eq, Structural)]
pub enum UserRole {
    User,
    Moderator,
    Admin,
}

/// A user's profile, as sent.
#[derive(Debug, Clone)]
pub struct UserProfile {
    pub version: i32,
    pub id: i64,
    pub username: String,
    pub display_name: Option<String>,
    pub avatar_url: Option<String>,
    pub bio: Option<String>,
    pub website_url: Option<String>,
    pub github_url: Option<String>,
    pub twitter_url: Option<String>,
    pub bluesky_url: Option<String>,
    pub discord_url: Option<String>,
    pub sponsor_url: Option<String>,
    pub verified_author: bool,
    pub role: UserRole,
    pub module_count: i64,
    pub created_at: String,
}

} // verus!
