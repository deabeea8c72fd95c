//! The answer model of the storage listing.
use vstd::prelude::*;

verus! {

/// A listing answer: the object keys, when there are any to report.
#[derive(Clone, Debug)]
pub struct ResponseModel {
    pub list: Option<Vec<String>>,
}

} // verus!
