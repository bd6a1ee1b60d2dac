//! Settings of the evaluation boards built around the motor driver package.

pub mod steval_esc002v1;
pub mod steval_spin3202_6_step;
