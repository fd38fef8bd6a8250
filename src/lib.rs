//! Repair of one kind of drift between a vector store and its relational
//! system of record: points whose identifier has no row left are found,
//! batch by batch, and deleted.

mod cursor;
mod orphan;
mod driver;
mod run;
mod shortcut;
mod laws;
mod theme;

pub use cursor::{scan_seed, is_nil_text};
pub use orphan::{PointId, orphans_of, lemma_orphans_members, contains_id, orphans};
pub use driver::{DEFAULT_PAGE_SIZE, Stage, Action, Event, SyncError, CollectionSync, bump, after_page, is_malformed};
pub use run::{CollectionReport, RunAction, Reconciliation, report_of};
pub use shortcut::{check_without_call, prune_without_call};
pub use laws::{lemma_no_false_positive, lemma_prune_spares_records, lemma_second_pass_finds_nothing, lemma_done_checked_all, lemma_run_covers_all};
pub use theme::PublicPageTheme;
