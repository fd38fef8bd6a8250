use vstd::prelude::*;

verus! {

/// A point identifier: the 128 bits of the point's UUID.
pub type PointId = u128;

/// The members of `batch`, in order, that `known` does not hold: the points
/// of a scanned page that have no row in the system of record.
pub open spec fn orphans_of(batch: Seq<PointId>, known: Seq<PointId>) -> Seq<PointId>
    decreases batch.len(),
{
    if batch.len() == 0 {
        Seq::empty()
    } else {
        let rest = orphans_of(batch.drop_last(), known);
        if known.contains(batch.last()) {
            rest
        } else {
            rest.push(batch.last())
        }
    }
}

/// What `orphans_of` keeps is exactly what `batch` holds and `known` lacks.
pub proof fn lemma_orphans_members(batch: Seq<PointId>, known: Seq<PointId>)
    ensures
        forall|x: PointId| #[trigger]
            orphans_of(batch, known).contains(x) <==> (batch.contains(x) && !known.contains(x)),
        orphans_of(batch, known).len() <= batch.len(),
    decreases batch.len(),
{
    if batch.len() > 0 {
        let init = batch.drop_last();
        lemma_orphans_members(init, known);
        assert(batch =~= init.push(batch.last()));
        assert forall|x: PointId| #[trigger]
            orphans_of(batch, known).contains(x) <==> (batch.contains(x) && !known.contains(x)) by {
            if batch.contains(x) {
                let i = choose|i: int| 0 <= i < batch.len() && batch[i] == x;
                if i < batch.len() - 1 {
                    assert(init[i] == x);
                }
            }
            if init.contains(x) {
                let i = choose|i: int| 0 <= i < init.len() && init[i] == x;
                assert(batch[i] == x);
            }
            let rest = orphans_of(init, known);
            if !known.contains(batch.last()) {
                assert(rest.push(batch.last())[rest.len() as int] == batch.last());
                if rest.contains(x) {
                    let j = choose|j: int| 0 <= j < rest.len() && rest[j] == x;
                    assert(rest.push(batch.last())[j] == x);
                }
                if rest.push(batch.last()).contains(x) && x != batch.last() {
                    let j = choose|j: int|
                        0 <= j < rest.len() + 1 && rest.push(batch.last())[j] == x;
                    assert(rest[j] == x);
                }
            }
        }
    }
}

/// Whether `ids` holds `x`.
pub fn contains_id(ids: &Vec<PointId>, x: PointId) -> (r: bool)
    ensures
        r == ids@.contains(x),
{
    let mut i: usize = 0;
    while i < ids.len()
        invariant
            i <= ids.len(),
            forall|j: int| 0 <= j < i ==> ids@[j] != x,
        decreases ids.len() - i,
    {
        if ids[i] == x {
            return true;
        }
        i = i + 1;
    }
    false
}

/// The orphan set of a batch: the identifiers of `batch`, in scan order, that
/// the system of record did not report as present in `known`.
pub fn orphans(batch: &Vec<PointId>, known: &Vec<PointId>) -> (r: Vec<PointId>)
    ensures
        r@ == orphans_of(batch@, known@),
{
    let mut out: Vec<PointId> = Vec::new();
    let mut i: usize = 0;
    while i < batch.len()
        invariant
            i <= batch.len(),
            out@ == orphans_of(batch@.subrange(0, i as int), known@),
        decreases batch.len() - i,
    {
        let x = batch[i];
        assert(batch@.subrange(0, i + 1).drop_last() =~= batch@.subrange(0, i as int));
        if !contains_id(known, x) {
            out.push(x);
        }
        i = i + 1;
    }
    assert(batch@.subrange(0, batch.len() as int) =~= batch@);
    out
}

} // verus!
