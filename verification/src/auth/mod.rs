pub mod middleware;
pub mod scope;
pub mod token;
