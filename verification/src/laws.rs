//! What holds of the instructions taken together.

pub mod administration;
pub mod buying;
pub mod identity;
pub mod lifecycle;
pub mod permissions;
pub mod pricing;
pub mod relations;
pub mod runs;
pub mod selling;
pub mod settlement;
pub mod storage;
