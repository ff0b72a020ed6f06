//! Verified core of `zed-anydiff`: a one-slot "set base / compare with base"
//! workflow that delegates the diff itself to `zed --diff`.

pub mod zed;
pub mod text;
pub mod paths;
pub mod json;
pub mod effect;
pub mod state;
pub mod cli;
pub mod laws;
