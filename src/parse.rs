pub mod error;
pub mod util;
pub mod pure;
pub mod kind;
