//! Reviews of modules.

use vstd::prelude::*;

verus! {

/// Who wrote a review.
#[derive(Debug, Clone)]
pub struct ReviewUser {
    pub username: String,
    pub avatar_url: Option<String>,
}

/// One review of a module.
#[derive(Debug, Clone)]
pub struct Review {
    pub id: u64,
    pub rating: u8,
    pub title: Option<String>,
    pub body: Option<String>,
    pub helpful_count: u64,
    pub user: ReviewUser,
    pub created_at: String,
    pub updated_at: Option<String>,
}

/// A page of reviews and the number of reviews in all.
#[derive(Debug, Clone)]
pub struct ReviewsResponse {
    pub reviews: Vec<Review>,
    pub total: usize,
}

impl Default for ReviewsResponse {
    fn default() -> (empty: ReviewsResponse)
        ensures
            empty.reviews@.len() == 0,
            empty.total == 0,
    {
        ReviewsResponse { reviews: Vec::new(), total: 0 }
    }
}

} // verus!
