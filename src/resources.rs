//! Replies of the resource endpoints: credits, images and voices.
use vstd::prelude::*;

verus! {

#[derive(Clone, Debug)]
pub struct CreditResponse {
    pub credits: Vec<Info>,
    pub remaining: i64,
    pub total: i64,
}

/// One credit grant.
#[derive(Clone, Debug)]
pub struct Info {
    pub owner_id: String,
    pub expire_at: String,
    pub created_at: String,
    pub remaining: i64,
    pub valid_from: String,
    pub total: i64,
    pub product_id: String,
    pub modified_at: String,
}

/// An uploaded image; its temporary URL is used as a source URL.
#[derive(Clone, Debug)]
pub struct ImageResponse {
    pub id: String,
    pub url: String,
}

#[derive(Clone, Debug)]
pub struct Voice {
    pub id: String,
    pub name: String,
    pub gender: String,
    pub locale: String,
    pub language: String,
    pub access: String,
    pub provider: String,
}

} // verus!
