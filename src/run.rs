use vstd::prelude::*;
use crate::driver::{Action, CollectionSync, Event, SyncError};

verus! {

/// What the reconciliation of one collection came to.
pub struct CollectionReport {
    pub collection: String,
    pub scans: u64,
    pub checks: u64,
    pub prunes: u64,
    pub found: u64,
    pub deleted: u64,
}

/// What the caller is to do next on behalf of a whole run.
pub enum RunAction {
    /// Carry out `action` on `collection`.
    Sync { collection: String, action: Action },
    /// Every collection is reconciled.
    Finish,
}

/// The report of a finished collection driver.
pub open spec fn report_of(collection: String, d: CollectionSync) -> CollectionReport {
    CollectionReport {
        collection,
        scans: d.scans,
        checks: d.checks,
        prunes: d.prunes,
        found: d.found,
        deleted: d.deleted,
    }
}

/// A full reconciliation: the collections, listed once at the start, are
/// reconciled one after another, in order.
pub struct Reconciliation {
    pub collections: Vec<String>,
    pub page_size: u64,
    /// The collection under reconciliation; all before it are done.
    pub index: usize,
    pub current: CollectionSync,
    /// One report per finished collection, in order.
    pub reports: Vec<CollectionReport>,
}

impl Reconciliation {
    /// The run's invariant.
    pub open spec fn wf(&self) -> bool {
        &&& self.index <= self.collections@.len()
        &&& self.current.wf()
        &&& self.current.page_size == self.page_size
        &&& self.index < self.collections@.len() ==> !(self.current.stage is Done)
        &&& self.reports@.len() == self.index
        &&& forall|i: int|
            0 <= i < self.index ==> (#[trigger] self.reports@[i]).collection
                == self.collections@[i]
    }

    /// A run over `collections` that has not started.
    pub fn new(collections: Vec<String>, page_size: u64) -> (r: Reconciliation)
        ensures
            r.wf(),
            r.collections == collections,
            r.page_size == page_size,
            r.index == 0,
            r.current.is_fresh(page_size),
            r.reports@.len() == 0,
    {
        Reconciliation {
            collections,
            page_size,
            index: 0,
            current: CollectionSync::new(page_size),
            reports: Vec::new(),
        }
    }

    /// Whether every collection is reconciled.
    pub fn is_done(&self) -> (r: bool)
        requires
            self.wf(),
        ensures
            r == (self.index == self.collections@.len()),
    {
        self.index == self.collections.len()
    }

    /// The action that the run asks for: that of the collection under
    /// reconciliation, or none once every collection is done.
    pub fn action(&self) -> (r: RunAction)
        requires
            self.wf(),
        ensures
            self.index == self.collections@.len() ==> r is Finish,
            self.index < self.collections@.len() ==> (r matches RunAction::Sync {
                collection,
                action,
            } && collection == self.collections@[self.index as int] && self.current.asks_for(
                action,
            )),
    {
        if self.index == self.collections.len() {
            RunAction::Finish
        } else {
            RunAction::Sync {
                collection: self.collections[self.index].clone(),
                action: self.current.action(),
            }
        }
    }

    /// Hands `ev` to the driver of the collection under reconciliation. Where
    /// that collection becomes done, its report is kept and the next
    /// collection starts afresh.
    pub fn step(self, ev: Event) -> (r: Result<Reconciliation, SyncError>)
        requires
            self.wf(),
        ensures
            self.index == self.collections@.len() ==> r == Err::<Reconciliation, SyncError>(
                SyncError::UnexpectedEvent,
            ),
            self.index < self.collections@.len() ==> match self.current.refusal(ev) {
                Some(e) => r == Err::<Reconciliation, SyncError>(e),
                None => r matches Ok(s) && s.wf() && s.collections == self.collections
                    && s.page_size == self.page_size && exists|c: CollectionSync|
                    #[trigger] self.current.steps_to(ev, c) && if c.stage is Done {
                    &&& s.index == self.index + 1
                    &&& s.reports@ == self.reports@.push(
                        report_of(self.collections@[self.index as int], c),
                    )
                    &&& s.current.is_fresh(self.page_size)
                } else {
                    &&& s.index == self.index
                    &&& s.current == c
                    &&& s.reports@ == self.reports@
                },
            },
    {
        let Reconciliation { collections, page_size, index, current, mut reports } = self;
        if index == collections.len() {
            return Err(SyncError::UnexpectedEvent);
        }
        let c = match current.step(ev) {
            Ok(c) => c,
            Err(e) => return Err(e),
        };
        if c.is_done() {
            let report = CollectionReport {
                collection: collections[index].clone(),
                scans: c.scans,
                checks: c.checks,
                prunes: c.prunes,
                found: c.found,
                deleted: c.deleted,
            };
            reports.push(report);
            Ok(Reconciliation {
                collections,
                page_size,
                index: index + 1,
                current: CollectionSync::new(page_size),
                reports,
            })
        } else {
            Ok(Reconciliation { collections, page_size, index, current: c, reports })
        }
    }
}

} // verus!
