//! Bulk download planning: finding URLs in free text, choosing a local file
//! name for each fetched resource, bounding retries, and deciding what the
//! collection phase writes or reports.
pub mod chars;
pub mod extract;
pub mod filename;
pub mod retry;
pub mod collect;
