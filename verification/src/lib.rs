//! Gallery engine for a wallpaper picker: a content-addressed thumbnail
//! cache, filesystem-change reconciliation, a row-packing layout for
//! variable-aspect thumbnails, and the transactional compositor protocol
//! used to apply a selection to a monitor.

pub mod apply;
pub mod digest;
pub mod gallery;
pub mod paths;
pub mod rowpack;
pub mod selection;
pub mod thumbs;
pub mod watch;
