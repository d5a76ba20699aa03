//! Network addresses and the choice of local interfaces.

pub mod ip;
pub mod selection;
pub mod diagnostics;
