//! A discussion board: threads with replies and optional media, listed by
//! recency of activity and paged.

pub mod boards;
pub mod laws;
pub mod media;
pub mod paging;
pub mod pipeline;
pub mod settings;
pub mod store;
pub mod text;
pub mod views;
