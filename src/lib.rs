//! A minimal feed-forward neural network engine, on the side of its
//! structure: the shapes of every matrix a network reads and writes, the
//! chaining of its layers, the split of a data set into batches, the order
//! and form of the backward sweep, and every refusal, all decided before any
//! number is touched. The arithmetic on the matrices is left to the caller,
//! who follows the plans made here.

pub mod activation;
pub mod batch;
pub mod builder;
pub mod error;
pub mod layer;
pub mod network;
pub mod objective;
pub mod shape;
