pub mod mobile;

use vstd::prelude::*;

verus! {

/// A scraped group timeline, before conversion to the uniform `User` shape.
#[derive(Debug)]
pub struct Group {
    pub id: String,
    pub name: String,
    pub description: Option<String>,
    pub url: String,
    pub image: Option<String>,
    pub posts: Vec<Post>,
}

/// One extracted post; `permalink_url` is the rewritten absolute permalink
/// from which the post's identifier was recovered.
#[derive(Debug)]
pub struct Post {
    pub id: String,
    pub name: String,
    pub permalink_url: String,
    pub message: String,
    pub created_time: String,
}

} // verus!
