//! A hardware-abstraction core exposing one uniform GPU command-submission
//! model: adapters are enumerated and opened into devices, devices allocate
//! typed resources and command encoders, encoders record passes and copies
//! under an explicit state machine, queues submit command buffers in FIFO
//! order, and a monotonic fence counter reports completion, including the
//! asynchronous buffer-mapping protocol and the binary shader-module framing
//! check that resources consume as input.

pub mod adapter;
pub mod device;
pub mod download;
pub mod encoder;
pub mod error;
pub mod format;
pub mod queue;
pub mod resource;
pub mod spirv;
pub mod tracker;
pub mod usage;
