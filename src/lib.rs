pub mod convergence;
pub mod ids;
pub mod laws;
pub mod message;
pub mod node;
pub mod values;
