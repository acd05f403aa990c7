//! What the framings share.

pub mod frame;
