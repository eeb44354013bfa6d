//! The instruction set of the CPU, one method per instruction form. Each
//! method performs the work of one machine cycle of its instruction.
//!
//! The contract of a method says three things. Its `requires` asks for the
//! operand bytes that the cycle at hand reads from the scratch bytes. Its
//! first `ensures` clause gives the state after the cycle, as the function
//! of the same name on `CpuState`. Its last clause says that, when the
//! method runs for the opcode that stands in the latch, the scratch bytes
//! suffice for the cycle that follows: this is what keeps the machine cycle
//! free of failing operand reads.

pub mod alu;
pub mod load;
pub mod arith;
pub mod control;
pub mod bitops;

pub use alu::{add_8bit, sub_8bit, add_16bit, rotate_left, rotate_right};
