use vstd::prelude::*;
use crate::cursor::{scan_seed, is_nil_text};
use crate::orphan::{PointId, orphans_of, orphans};

verus! {

/// The page size a scan asks for unless told otherwise.
pub const DEFAULT_PAGE_SIZE: u64 = 1000;

/// Where the reconciliation of one collection stands.
pub enum Stage {
    /// The next step is a scan; `cursor` is `None` before the first one.
    Scan { cursor: Option<String> },
    /// A non-empty page waits for the existence check; `next` is the cursor
    /// the scan returned with it.
    Check { batch: Vec<PointId>, next: Option<String> },
    /// A non-empty orphan set waits for deletion.
    Prune { orphans: Vec<PointId>, next: Option<String> },
    /// The scan cursor came back absent and the last page is handled.
    Done,
}

/// What the caller is to do next on behalf of the driver.
pub enum Action {
    /// Scroll the collection from `seed`, at most `limit` points.
    Scan { seed: String, limit: u64 },
    /// Ask the system of record which of `ids` it holds, in one call.
    Check { ids: Vec<PointId> },
    /// Delete `ids` from the collection.
    Prune { ids: Vec<PointId> },
    /// Nothing is left to do for this collection.
    Finish,
}

/// The outcome of the action that the driver last asked for.
pub enum Event {
    /// A page of the collection and the cursor to resume from (`None`: the
    /// collection is fully scanned).
    Scanned { points: Vec<PointId>, next: Option<String> },
    /// The identifiers of the checked page that the system of record holds.
    Known { ids: Vec<PointId> },
    /// The deletion went through; `count` is what the store reported deleted.
    Pruned { count: u64 },
}

/// Why the driver refuses an event.
#[derive(PartialEq, Eq, Structural, Debug, Clone, Copy)]
pub enum SyncError {
    /// The event does not answer the action that the stage asks for.
    UnexpectedEvent,
    /// The scan returned more points than the page size allows.
    OversizedBatch,
    /// The scan returned an empty continuation token, from which no scan can
    /// resume.
    MalformedCursor,
}

/// The reconciliation of one collection, driven one event at a time.
pub struct CollectionSync {
    pub stage: Stage,
    pub page_size: u64,
    /// Scan calls made so far.
    pub scans: u64,
    /// Existence checks made so far.
    pub checks: u64,
    /// Deletion calls made so far.
    pub prunes: u64,
    /// Orphans found so far.
    pub found: u64,
    /// Deletions that the store reported so far.
    pub deleted: u64,
    /// Every identifier scanned, page after page.
    pub scanned: Ghost<Seq<PointId>>,
    /// Every identifier handed to the existence check, page after page.
    pub checked: Ghost<Seq<PointId>>,
    /// Every identifier handed to deletion, call after call.
    pub removed: Ghost<Seq<PointId>>,
    /// The page that the last existence check was about.
    pub last_batch: Ghost<Seq<PointId>>,
    /// What the last existence check reported present.
    pub last_known: Ghost<Seq<PointId>>,
}

/// `n + k`, held at `u64::MAX`.
pub open spec fn bump(n: u64, k: int) -> u64 {
    if n + k <= u64::MAX {
        (n + k) as u64
    } else {
        u64::MAX
    }
}

/// The stage after a page is fully handled: done where the scan returned no
/// cursor, else the next scan from the returned one.
pub open spec fn after_page(next: Option<String>) -> Stage {
    match next {
        Some(c) => Stage::Scan { cursor: Some(c) },
        None => Stage::Done,
    }
}

/// A continuation token that the store could not resume from.
pub open spec fn is_malformed(next: Option<String>) -> bool {
    next.is_some() && next.unwrap()@.len() == 0
}

fn bump_exec(n: u64, k: u64) -> (r: u64)
    ensures
        r == bump(n, k as int),
{
    if k <= u64::MAX - n {
        n + k
    } else {
        u64::MAX
    }
}

fn after_page_exec(next: Option<String>) -> (r: Stage)
    ensures
        r == after_page(next),
{
    match next {
        Some(c) => Stage::Scan { cursor: Some(c) },
        None => Stage::Done,
    }
}

fn copy_ids(ids: &Vec<PointId>) -> (r: Vec<PointId>)
    ensures
        r@ == ids@,
{
    let mut out: Vec<PointId> = Vec::new();
    let mut i: usize = 0;
    while i < ids.len()
        invariant
            i <= ids.len(),
            out@ == ids@.subrange(0, i as int),
        decreases ids.len() - i,
    {
        out.push(ids[i]);
        i = i + 1;
    }
    assert(ids@.subrange(0, ids.len() as int) =~= ids@);
    out
}

impl CollectionSync {
    /// The driver's invariant.
    pub open spec fn wf(&self) -> bool {
        match self.stage {
            Stage::Check { batch, next } => {
                &&& 0 < batch@.len() <= self.page_size
                &&& !is_malformed(next)
                &&& self.checked@ + batch@ == self.scanned@
            },
            Stage::Prune { orphans, next } => {
                &&& 0 < orphans@.len()
                &&& orphans@ == orphans_of(self.last_batch@, self.last_known@)
                &&& !is_malformed(next)
                &&& self.checked@ == self.scanned@
            },
            Stage::Scan { cursor } => {
                &&& !is_malformed(cursor)
                &&& self.checked@ == self.scanned@
            },
            Stage::Done => self.checked@ == self.scanned@,
        }
    }

    /// Why the driver refuses `ev` in its current stage, if it does.
    pub open spec fn refusal(&self, ev: Event) -> Option<SyncError> {
        match (self.stage, ev) {
            (Stage::Scan { cursor }, Event::Scanned { points, next }) => if points@.len()
                > self.page_size {
                Some(SyncError::OversizedBatch)
            } else if is_malformed(next) {
                Some(SyncError::MalformedCursor)
            } else {
                None
            },
            (Stage::Check { .. }, Event::Known { .. }) => None,
            (Stage::Prune { .. }, Event::Pruned { .. }) => None,
            _ => Some(SyncError::UnexpectedEvent),
        }
    }

    /// The driver that an accepted `ev` leads to: `s`.
    pub open spec fn steps_to(&self, ev: Event, s: CollectionSync) -> bool {
        &&& s.wf()
        &&& s.page_size == self.page_size
        &&& match (self.stage, ev) {
            (Stage::Scan { cursor }, Event::Scanned { points, next }) => {
                &&& s.stage == (if points@.len() == 0 {
                    after_page(next)
                } else {
                    Stage::Check { batch: points, next }
                })
                &&& s.scans == bump(self.scans, 1)
                &&& s.checks == self.checks && s.prunes == self.prunes
                &&& s.found == self.found && s.deleted == self.deleted
                &&& s.scanned@ == self.scanned@ + points@
                &&& s.checked@ == self.checked@ + (if points@.len() == 0 {
                    points@
                } else {
                    Seq::empty()
                })
                &&& s.removed@ == self.removed@
            },
            (Stage::Check { batch, next }, Event::Known { ids }) => {
                let o = orphans_of(batch@, ids@);
                &&& if o.len() == 0 {
                    s.stage == after_page(next)
                } else {
                    s.stage matches Stage::Prune { orphans, next: n } && orphans@ == o && n == next
                }
                &&& s.scans == self.scans && s.checks == bump(self.checks, 1)
                &&& s.prunes == self.prunes
                &&& s.found == bump(self.found, o.len() as int) && s.deleted == self.deleted
                &&& s.scanned@ == self.scanned@ && s.checked@ == self.checked@ + batch@
                &&& s.removed@ == self.removed@
                &&& s.last_batch@ == batch@ && s.last_known@ == ids@
            },
            (Stage::Prune { orphans, next }, Event::Pruned { count }) => {
                &&& s.stage == after_page(next)
                &&& s.scans == self.scans && s.checks == self.checks
                &&& s.prunes == bump(self.prunes, 1)
                &&& s.found == self.found && s.deleted == bump(self.deleted, count as int)
                &&& s.scanned@ == self.scanned@ && s.checked@ == self.checked@
                &&& s.removed@ == self.removed@ + orphans@
            },
            _ => false,
        }
    }

    /// `a` is the action that the current stage asks for.
    pub open spec fn asks_for(&self, a: Action) -> bool {
        match self.stage {
            Stage::Scan { cursor } => a matches Action::Scan { seed, limit } && limit
                == self.page_size && (cursor.is_none() ==> is_nil_text(seed@)) && (
            cursor.is_some() ==> seed@ == cursor.unwrap()@),
            Stage::Check { batch, next } => a matches Action::Check { ids } && ids@ == batch@
                && 0 < ids@.len() <= self.page_size,
            Stage::Prune { orphans, next } => a matches Action::Prune { ids } && ids@
                == orphans@ && ids@.len() > 0,
            Stage::Done => a is Finish,
        }
    }

    /// A driver that has not started: the first scan comes next and nothing
    /// has been seen yet.
    pub open spec fn is_fresh(&self, page_size: u64) -> bool {
        &&& self.stage == (Stage::Scan { cursor: None })
        &&& self.page_size == page_size
        &&& self.scans == 0 && self.checks == 0 && self.prunes == 0
        &&& self.found == 0 && self.deleted == 0
        &&& self.scanned@ == Seq::<PointId>::empty()
        &&& self.checked@ == Seq::<PointId>::empty()
        &&& self.removed@ == Seq::<PointId>::empty()
    }

    /// A fresh reconciliation of a collection: the first scan comes next and
    /// nothing has been seen yet.
    pub fn new(page_size: u64) -> (r: CollectionSync)
        ensures
            r.wf(),
            r.is_fresh(page_size),
    {
        CollectionSync {
            stage: Stage::Scan { cursor: None },
            page_size,
            scans: 0,
            checks: 0,
            prunes: 0,
            found: 0,
            deleted: 0,
            scanned: Ghost(Seq::empty()),
            checked: Ghost(Seq::empty()),
            removed: Ghost(Seq::empty()),
            last_batch: Ghost(Seq::empty()),
            last_known: Ghost(Seq::empty()),
        }
    }

    /// The action that the current stage asks for. A check is asked for one
    /// whole page at a time, never more than the page size, and a deletion
    /// never for an empty set.
    pub fn action(&self) -> (r: Action)
        requires
            self.wf(),
        ensures
            self.asks_for(r),
    {
        match &self.stage {
            Stage::Scan { cursor } => Action::Scan { seed: scan_seed(cursor), limit: self.page_size },
            Stage::Check { batch, next } => Action::Check { ids: copy_ids(batch) },
            Stage::Prune { orphans, next } => Action::Prune { ids: copy_ids(orphans) },
            Stage::Done => Action::Finish,
        }
    }

    /// Takes the outcome of the last action and moves to the next stage.
    ///
    /// A scanned page larger than the page size, or one that comes with an
    /// empty cursor, is refused; so is an event that does not answer the
    /// current stage. An empty page, or a checked page without orphans, is
    /// done at once: the next scan follows, or the collection is done where the
    /// scan returned no cursor. A page with orphans goes on to deletion.
    pub fn step(self, ev: Event) -> (r: Result<CollectionSync, SyncError>)
        requires
            self.wf(),
        ensures
            match self.refusal(ev) {
                Some(e) => r == Err::<CollectionSync, SyncError>(e),
                None => r matches Ok(s) && self.steps_to(ev, s),
            },
    {
        let page_size = self.page_size;
        let scans = self.scans;
        let checks = self.checks;
        let prunes = self.prunes;
        let found = self.found;
        let deleted = self.deleted;
        let ghost scanned = self.scanned@;
        let ghost checked = self.checked@;
        let ghost removed = self.removed@;
        let ghost last_batch = self.last_batch@;
        let ghost last_known = self.last_known@;
        match (self.stage, ev) {
            (Stage::Scan { cursor }, Event::Scanned { points, next }) => {
                if points.len() as u64 > page_size {
                    return Err(SyncError::OversizedBatch);
                }
                let malformed = match &next {
                    Some(c) => c.unicode_len() == 0,
                    None => false,
                };
                if malformed {
                    return Err(SyncError::MalformedCursor);
                }
                let ghost page = points@;
                let stage = if points.len() == 0 {
                    after_page_exec(next)
                } else {
                    Stage::Check { batch: points, next }
                };
                Ok(CollectionSync {
                    stage,
                    page_size,
                    scans: bump_exec(scans, 1),
                    checks,
                    prunes,
                    found,
                    deleted,
                    scanned: Ghost(scanned + page),
                    checked: Ghost(checked + (if page.len() == 0 { page } else { Seq::empty() })),
                    removed: Ghost(removed),
                    last_batch: Ghost(last_batch),
                    last_known: Ghost(last_known),
                })
            },
            (Stage::Check { batch, next }, Event::Known { ids }) => {
                let o = orphans(&batch, &ids);
                let n_found = o.len() as u64;
                let stage = if o.len() == 0 {
                    after_page_exec(next)
                } else {
                    Stage::Prune { orphans: o, next }
                };
                Ok(CollectionSync {
                    stage,
                    page_size,
                    scans,
                    checks: bump_exec(checks, 1),
                    prunes,
                    found: bump_exec(found, n_found),
                    deleted,
                    scanned: Ghost(scanned),
                    checked: Ghost(checked + batch@),
                    removed: Ghost(removed),
                    last_batch: Ghost(batch@),
                    last_known: Ghost(ids@),
                })
            },
            (Stage::Prune { orphans, next }, Event::Pruned { count }) => {
                Ok(CollectionSync {
                    stage: after_page_exec(next),
                    page_size,
                    scans,
                    checks,
                    prunes: bump_exec(prunes, 1),
                    found,
                    deleted: bump_exec(deleted, count),
                    scanned: Ghost(scanned),
                    checked: Ghost(checked),
                    removed: Ghost(removed + orphans@),
                    last_batch: Ghost(last_batch),
                    last_known: Ghost(last_known),
                })
            },
            _ => Err(SyncError::UnexpectedEvent),
        }
    }

    /// Whether the collection is fully reconciled.
    pub fn is_done(&self) -> (r: bool)
        ensures
            r == (self.stage is Done),
    {
        match self.stage {
            Stage::Done => true,
            _ => false,
        }
    }
}

} // verus!
