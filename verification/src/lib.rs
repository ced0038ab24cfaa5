pub mod dispatch;
pub mod error;
pub mod finish;
pub mod kind;
pub mod laws;
pub mod number;
pub mod object;
