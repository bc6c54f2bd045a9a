//! Library for subsetting BIDS-style neuroimaging datasets.
//!
//! A dataset laid out as `sub-<id>/[ses-<id>/]<datatype>/<file>` is filtered
//! by glob patterns on the subject, session, datatype and filename
//! components.  The library compiles the user fragments into a pattern set,
//! decides which relative paths match, and plans how each match is
//! materialized (listed, copied, linked, or skipped); the caller performs the
//! actual filesystem walking and writing.

pub mod filter;
pub mod globmatch;
pub mod matcher;
pub mod materialize;
pub mod summary;
