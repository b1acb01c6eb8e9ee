//! Compiles a neural-network dataflow graph into circuit resources.

pub mod cli;
pub mod config;
pub mod error;
pub mod facts;
pub mod fixed;
pub mod layout;
pub mod magnitude;
pub mod model;
pub mod node;
pub mod opkind;
pub mod quantize;
pub mod reorder;
pub mod schedule;
pub mod settled;
pub mod shape;
pub mod tensor;
