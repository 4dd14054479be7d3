//! Per-frame rendering core of a real-time 3D engine.
//!
//! The crate turns a list of high-level draw commands (meshes, lights,
//! debug lines, an optional skydome) into a minimal, correctly ordered
//! sequence of typed GPU instructions, and manages the reusable GPU-side
//! objects (command pools, fences, buffers, pipelines, descriptor sets)
//! that executing such a sequence needs.  The graphics driver itself is an
//! external collaborator: the executor produces a linear program of driver
//! calls that an unverified shell replays against a real device.

pub mod asset;
pub mod command;
pub mod compiler;
pub mod copy_op;
pub mod def;
pub mod draw_op;
pub mod geom_buf;
pub mod gpu_call;
pub mod instruction;
pub mod laws;
pub mod material;
pub mod pool;

pub use asset::Asset;
pub use command::Command;
pub use command::LineCommand;
pub use command::Skydome;
pub use compiler::Compilation;
pub use copy_op::CopyOp;
pub use copy_op::CopyOpSubmission;
pub use draw_op::DrawOp;
pub use material::Material;
