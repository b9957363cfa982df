//! Verified core of a live pixel-sorting camera preview: the capture source
//! state machine, the frame backlog policy, configuration folding and the
//! slider scales of the control surface.

pub mod channel;
pub mod consumer;
pub mod control;
pub mod device;
pub mod frame;
pub mod options;
pub mod pipeline;
pub mod scale;
pub mod sorter;
pub mod source;
