//! The search worker's decision: what one query answers with. The worker
//! task that owns the repository and drains the query channel lives outside
//! this crate and calls `search_response` per query.

use vstd::prelude::*;
use crate::coordinator::types::SearchMessageData;
use crate::search::entity_model::FileEntity;
use crate::search::matcher_helpers::search_entity;

verus! {

/// Answers one search query: an empty query clears the results and reports
/// no success; any other query is matched against the haystack and answers
/// with at most the ten best results.
pub fn search_response(
    query: &String,
    haystack: &Vec<FileEntity>,
    matcher: &mut nucleo::Matcher,
) -> (r: SearchMessageData)
    ensures
        query@.len() == 0 ==> r.success == false && r.results@.len() == 0,
        query@.len() > 0 ==> r.success == true && r.results@.len() <= 10,
{
    if query.as_str().unicode_len() == 0 {
        SearchMessageData { success: false, results: Vec::new() }
    } else {
        SearchMessageData { success: true, results: search_entity(haystack, query.clone(), matcher) }
    }
}

} // verus!
