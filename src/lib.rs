pub mod crypto;
pub mod validator;
pub mod node;
pub mod accumulator;
pub mod message;
pub mod laws;
