use vstd::prelude::*;
use crate::orphan::PointId;

verus! {

/// The answer of the existence check where no round trip is needed: an empty
/// query has an empty answer. `None` where the system of record must be asked.
pub fn check_without_call(ids: &Vec<PointId>) -> (r: Option<Vec<PointId>>)
    ensures
        ids@.len() == 0 <==> r is Some,
        r matches Some(k) ==> k@.len() == 0,
{
    if ids.len() == 0 {
        Some(Vec::new())
    } else {
        None
    }
}

/// The outcome of a deletion where no call is needed: deleting nothing
/// deletes zero points. `None` where the vector store must be called.
pub fn prune_without_call(ids: &Vec<PointId>) -> (r: Option<u64>)
    ensures
        ids@.len() == 0 <==> r is Some,
        r matches Some(n) ==> n == 0,
{
    if ids.len() == 0 {
        Some(0)
    } else {
        None
    }
}

} // verus!
