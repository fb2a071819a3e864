//! Extraction of student academic requests from the plain text of an
//! agenda report: the text is cut into one chunk per request, each chunk
//! is matched against the known request layouts, and the resulting
//! records are grouped by category for tabular export.

pub mod text;
pub mod patterns;
pub mod date;
pub mod record;
pub mod extract;
pub mod segment;
pub mod aggregate;
pub mod pipeline;
pub mod laws;
