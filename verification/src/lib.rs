//! Structural core of a stereo analog-console emulation: the saturation-stage
//! variant set and the FIFO delay line used by the phase linearizer. The
//! floating-point filter arithmetic lives outside this crate; what is verified
//! here is the state that must never go wrong under live reconfiguration —
//! the delay queue's length and FIFO order.

pub mod delay_line;
pub mod saturation;
