//! Decision logic of a control panel for a single-board computer: the
//! sandbox that guards mount and unmount targets, the reshaping of a
//! block-device inventory, the replies of the power controls, and the
//! delta arithmetic of the status sampler.
//!
//! Nothing here touches the operating system. Callers probe paths, run the
//! privileged tools and read the sensors, and hand the outcomes in as plain
//! values.

pub mod assets;
pub mod command;
pub mod config;
pub mod disk;
pub mod json;
pub mod mount;
pub mod power;
pub mod sampler;
pub mod text;
