//! Content-type detection from a buffer's leading bytes.
//!
//! Fixed-offset signatures recognise video containers and compound-file
//! office documents; office packages (zip containers) are told apart by
//! walking their first few local file headers under bounded scans.

pub mod doc;
pub mod kind;
pub mod registry;
pub mod scan;
pub mod video;
