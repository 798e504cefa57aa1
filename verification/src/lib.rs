//! One-shot GPU compute dispatch: session planning, grid sizing, the dispatch
//! sequence itself, and the check of what the kernel wrote.

pub mod binary64;
pub mod bootstrap;
pub mod dispatch;
pub mod driver;
pub mod grid;
pub mod session;
pub mod stage;
