pub mod check;
pub mod diag;
pub mod laws;
pub mod schema;
