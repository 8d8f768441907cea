//! Decision logic of a transparent, click-through overlay window: the
//! window style bitmasks, the input-activation state machine, the frame
//! loop's transition function and the startup checks.

pub mod style;
pub mod activation;
pub mod frame_loop;
pub mod startup;
pub mod settings;
