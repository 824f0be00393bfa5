//! The pens and what they share.

pub mod brush;
pub mod lifecycle;
pub mod penevent;
pub mod penholder;
