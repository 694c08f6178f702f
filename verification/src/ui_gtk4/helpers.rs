//! Small helpers for the GUI consumer.

use vstd::prelude::*;
use crate::search::entity_model::LauncherEntity;

verus! {

/// The launcher entity shown on the selected row, if a row is selected and
/// the selection still points into the displayed results.
pub fn result_data_from_idx(results_data: &Vec<LauncherEntity>, selected: Option<usize>) -> (r:
    Option<LauncherEntity>)
    ensures
        match selected {
            Some(i) => if i < results_data@.len() {
                r matches Some(e) && e == results_data@[i as int]
            } else {
                r is None
            },
            None => r is None,
        },
{
    match selected {
        Some(i) => {
            if i < results_data.len() {
                Some(results_data[i].clone())
            } else {
                None
            }
        },
        None => None,
    }
}

} // verus!
