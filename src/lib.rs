//! Elementwise bitwise operators (AND, OR, XOR) over integer tensors, with a
//! host forward pass and the planning of a device kernel launch.

mod dtype;
mod forward;
mod launch;
mod layout;
mod op;

pub use dtype::{ElemKind, HostBuffer};
pub use forward::{BitwiseError, LaunchPlan};
pub use launch::{
    launch_geometry, lemma_geometry_covers, next_power_of_2, LaunchGeometry, MAX_BLOCK_SIZE,
};
pub use layout::Layout;
pub use op::{BitElem, BitWise, BitWiseOpEnum};
