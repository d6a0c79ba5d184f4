//! The texts of the small pages, as far as they are computed from something.

use crate::model::Item;
use vstd::prelude::*;
use vstd::string::*;

verus! {

/// What the greeting page puts before the visitor's name.
pub const HELLO_PREFIX: &'static str = "hello ";

/// The body of the greeting page for `name`. The name is taken as it is.
pub fn hello_body(name: &str) -> (body: String)
    ensures
        body@ == HELLO_PREFIX@ + name@,
{
    let mut body = String::from_str(HELLO_PREFIX);
    body.append(name);
    body
}

/// How many content items the content page lists at most.
pub const LISTED_ITEMS: usize = 3;

/// How many of `available` items are listed.
pub open spec fn listed_count(available: int) -> int {
    if available < LISTED_ITEMS {
        available
    } else {
        LISTED_ITEMS as int
    }
}

/// The names that the content page lists: those of the first items, in their order, up to
/// [`LISTED_ITEMS`] of them.
pub fn listed_names(items: &Vec<Item>) -> (names: Vec<String>)
    ensures
        names.len() == listed_count(items.len() as int),
        forall|i: int| 0 <= i < names.len() ==> (#[trigger] names[i])@ == items[i].name@,
{
    let mut names: Vec<String> = Vec::new();
    let mut next: usize = 0;
    while next < items.len() && next < LISTED_ITEMS
        invariant
            next <= items.len(),
            next <= LISTED_ITEMS,
            names.len() == next,
            forall|i: int| 0 <= i < names.len() ==> (#[trigger] names[i])@ == items[i].name@,
        decreases items.len() - next,
    {
        names.push(items[next].name.clone());
        next = next + 1;
    }
    names
}

/// Why the content store yielded no items.
#[derive(Clone, Debug, PartialEq, Eq)]
pub enum ContentError {
    /// The store could not be reached. The text says why.
    Unreachable(String),
    /// The store answered, but not with a list of results.
    Malformed,
    /// One of the results is no content item. The text says why.
    Unreadable(String),
}

/// The reply of the content page.
#[derive(Clone, Debug, PartialEq, Eq)]
pub enum ContentReply {
    /// An internal error. The text, where there is one, is the body.
    Fault(Option<String>),
    /// Success: the names to list, in their order.
    Listing(Vec<String>),
}

/// Decides the reply of the content page: the listed names where the items came, and an
/// internal error where they did not, with the reason as far as there is one to give.
pub fn content_reply(outcome: Result<Vec<Item>, ContentError>) -> (reply: ContentReply)
    ensures
        match outcome {
            Ok(items) => reply matches ContentReply::Listing(names) && names.len() == listed_count(
                items.len() as int,
            ) && forall|i: int| 0 <= i < names.len() ==> (#[trigger] names[i])@ == items[i].name@,
            Err(ContentError::Unreachable(reason)) => reply matches ContentReply::Fault(Some(text))
                && text@ == reason@,
            Err(ContentError::Malformed) => reply matches ContentReply::Fault(None),
            Err(ContentError::Unreadable(reason)) => reply matches ContentReply::Fault(Some(text))
                && text@ == reason@,
        },
{
    match outcome {
        Ok(items) => ContentReply::Listing(listed_names(&items)),
        Err(ContentError::Unreachable(reason)) => ContentReply::Fault(Some(reason)),
        Err(ContentError::Malformed) => ContentReply::Fault(None),
        Err(ContentError::Unreadable(reason)) => ContentReply::Fault(Some(reason)),
    }
}

} // verus!
