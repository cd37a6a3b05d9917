pub mod circuit;
pub mod diagnostic;
pub mod errors;
pub mod field;
pub mod marlin;
pub mod pipeline;
pub mod r1cs;
pub mod results;
pub mod session;
