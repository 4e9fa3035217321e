//! Core of Wisp, a personal driving heatmap explorer: the domain types that
//! every data source and store shares, and the decisions of the sync
//! pipeline that fetches trips from a source and persists them.

mod text;

pub mod errors;
pub mod ingest;
pub mod source_kind;
pub mod trip_id;

pub use errors::{SourceError, StoreError};
pub use ingest::{IngestError, SyncReport};
pub use source_kind::SourceKind;
pub use trip_id::TripId;
