//! Tagged-union types with verified construction, dispatch and rendering.
//!
//! The crate models a small closed-variant world: network addresses
//! (`addr`), events (`message`), coins tagged with a US state (`coin`),
//! and a sample entry routine (`run`) whose console lines are computed
//! and pinned down here; printing them is left to the caller.

pub mod addr;
pub mod coin;
pub mod message;
pub mod run;
pub mod text;
