//! Staleness decisions for issue triage.
//!
//! The crate decides which open issues carrying a triage label are old enough
//! to be closed automatically. An issue qualifies once both the label and the
//! last comment are at least as old as a configured minimum age, unless one of
//! its labels marks it as actively managed.

pub mod docs_update_queries;
pub mod error;
pub mod old_label;
pub mod pagination;
pub mod project_items;
pub mod queries;
pub mod rank;
pub mod text;
pub mod time;
pub mod too_old_label;
pub mod verdict;
