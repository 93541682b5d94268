//! The normalized item that every feed source contributes.

use vstd::prelude::*;

verus! {

/// One entry of the aggregated list. Produced fresh on every fetch and never
/// mutated afterwards; a refresh replaces the whole list.
#[derive(Clone, Debug, PartialEq)]
pub struct NewsItem {
    pub title: String,
    pub source: String,
    pub tag: Option<String>,
    pub url: Option<String>,
}

} // verus!
