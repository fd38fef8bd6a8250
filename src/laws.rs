use vstd::prelude::*;
use crate::orphan::{PointId, orphans_of, lemma_orphans_members};
use crate::driver::CollectionSync;
use crate::run::Reconciliation;

verus! {

/// No false positives: where the existence check reports every identifier of
/// the page that the system of record holds, no identifier that it holds is
/// among the page's orphans.
pub proof fn lemma_no_false_positive(
    batch: Seq<PointId>,
    known: Seq<PointId>,
    records: Set<PointId>,
)
    requires
        forall|x: PointId| batch.contains(x) && records.contains(x) ==> known.contains(x),
    ensures
        forall|x: PointId| #[trigger]
            orphans_of(batch, known).contains(x) ==> !records.contains(x),
{
    lemma_orphans_members(batch, known);
}

/// No false positives, for the driver: where the last existence check
/// reported every identifier of its page that the system of record holds,
/// the deletion that the driver asks for holds none of them.
pub proof fn lemma_prune_spares_records(d: CollectionSync, records: Set<PointId>)
    requires
        d.wf(),
        d.stage is Prune,
        forall|x: PointId|
            d.last_batch@.contains(x) && records.contains(x) ==> d.last_known@.contains(x),
    ensures
        forall|i: int|
            0 <= i < d.stage->orphans@.len() ==> !records.contains(#[trigger] d.stage->orphans@[i]),
{
    lemma_no_false_positive(d.last_batch@, d.last_known@, records);
    assert forall|i: int| 0 <= i < d.stage->orphans@.len() implies !records.contains(
        #[trigger] d.stage->orphans@[i],
    ) by {
        assert(orphans_of(d.last_batch@, d.last_known@).contains(d.stage->orphans@[i]));
    }
}

/// Idempotence: after a pass has deleted the orphans of a collection, a second
/// pass with no writes in between finds none. `points` is what the first pass
/// scanned, `remaining` what the collection holds after its deletions, and
/// both existence checks report exactly the scanned identifiers that
/// `records` holds.
pub proof fn lemma_second_pass_finds_nothing(
    points: Seq<PointId>,
    known1: Seq<PointId>,
    remaining: Seq<PointId>,
    known2: Seq<PointId>,
    records: Set<PointId>,
)
    requires
        forall|x: PointId| points.contains(x) ==> (known1.contains(x) <==> records.contains(x)),
        forall|x: PointId| #[trigger]
            remaining.contains(x) <==> (points.contains(x) && !orphans_of(
                points,
                known1,
            ).contains(x)),
        forall|x: PointId| remaining.contains(x) ==> (known2.contains(x) <==> records.contains(x)),
    ensures
        orphans_of(remaining, known2).len() == 0,
{
    lemma_orphans_members(points, known1);
    lemma_orphans_members(remaining, known2);
    let o = orphans_of(remaining, known2);
    if o.len() > 0 {
        assert(o.contains(o[0]));
    }
}

/// Once a collection is done, every identifier that its scans returned was
/// handed to the existence check exactly once, in scan order.
pub proof fn lemma_done_checked_all(d: CollectionSync)
    requires
        d.wf(),
        d.stage is Done,
    ensures
        d.checked@ == d.scanned@,
{
}

/// A finished run has reconciled every collection it listed at the start,
/// each once, in the order listed.
pub proof fn lemma_run_covers_all(r: Reconciliation)
    requires
        r.wf(),
        r.index == r.collections@.len(),
    ensures
        r.reports@.len() == r.collections@.len(),
        forall|i: int|
            0 <= i < r.collections@.len() ==> (#[trigger] r.reports@[i]).collection
                == r.collections@[i],
{
}

} // verus!
