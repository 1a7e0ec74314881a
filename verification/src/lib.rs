//! Decision logic of a small feed-forward network trainer: the training
//! schedule that a background worker follows, the shape rules of a layered
//! model, the partition of a data set, and the placement of a model's nodes
//! on a canvas.

pub mod dataset;
pub mod layout;
pub mod schedule;
pub mod schedule_laws;
pub mod topology;
