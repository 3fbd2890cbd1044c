use vstd::prelude::*;
use crate::status::OK;

verus! {

/// A single item answered by the API, with its status.
#[derive(Debug, PartialEq, Eq)]
pub struct ApiItem<T> {
    pub status_code: u16,
    pub item: T,
}

impl<T> ApiItem<T> {
    /// A 200 answer with the item.
    pub fn ok(item: T) -> (r: ApiItem<T>)
        ensures
            r.status_code == OK,
            r.item == item,
    {
        ApiItem { status_code: OK, item }
    }
}

/// A list of items answered by the API, with its status.
#[derive(Debug, PartialEq, Eq)]
pub struct ApiList<T> {
    pub status_code: u16,
    pub items: Vec<T>,
}

impl<T> ApiList<T> {
    /// A 200 answer with the items.
    pub fn ok(items: Vec<T>) -> (r: ApiList<T>)
        ensures
            r.status_code == OK,
            r.items@ == items@,
    {
        ApiList { status_code: OK, items }
    }
}

} // verus!
