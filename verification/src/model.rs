//! The records that the pages of the site are built from.

use std::collections::HashMap;
use vstd::prelude::*;

verus! {

/// The credentials that a login form submits.
#[derive(Clone, Debug, PartialEq, Eq)]
pub struct LoginRequest {
    pub email: String,
    pub password: String,
}

/// A user of the site.
#[derive(Clone, Debug, PartialEq, Eq)]
pub struct User {
    pub id: String,
    pub name: String,
    pub email: String,
}

/// One identity that the identity provider holds for a user.
#[derive(Clone, Debug, PartialEq, Eq)]
pub struct SupabaseIdentity {
    pub identity_id: String,
    pub id: String,
    pub user_id: String,
    pub identity_data: HashMap<String, String>,
    pub provider: String,
    pub last_sign_in_at: Option<String>,
    pub created_at: Option<String>,
    pub updated_at: Option<String>,
    pub email: Option<String>,
}

/// The address of a content item.
#[derive(Clone, Debug, PartialEq, Eq)]
pub struct Slug {
    pub current: String,
    pub _type: String,
}

/// A stored file that a content item refers to.
#[derive(Clone, Debug, PartialEq, Eq)]
pub struct Asset {
    pub _ref: String,
    pub _type: String,
}

/// The picture of a content item.
#[derive(Clone, Debug, PartialEq, Eq)]
pub struct Image {
    pub _type: String,
    pub asset: Asset,
}

/// A content item, as the content store describes it.
#[derive(Clone, Debug, PartialEq, Eq)]
pub struct Item {
    pub _type: String,
    pub question: String,
    pub _created_at: String,
    pub name: String,
    pub active: bool,
    pub description: String,
    pub _id: String,
    pub _updated_at: String,
    pub slug: Slug,
    pub image: Image,
}

/// Where a rendered page stands in the site's navigation.
#[derive(Clone, Debug, PartialEq, Eq)]
pub struct Navigation {
    pub current_page: String,
}

impl Navigation {
    /// The navigation context of the page named `current_page`.
    pub fn new(current_page: &str) -> (navigation: Navigation)
        ensures
            navigation.current_page@ == current_page@,
    {
        Navigation { current_page: current_page.to_owned() }
    }
}

} // verus!
