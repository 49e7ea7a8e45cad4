//! Decoding of 32-bit RISC-V machine words into typed instructions.
#![allow(non_camel_case_types)]

pub mod bits;
pub mod formats;
pub mod instruction;
pub mod laws;

pub use formats::{B_Type, Generic_Op, I_Type, J_Type, R_Type, S_Type, U_Type};
pub use instruction::{decode_instruction_type, DecodeError, Instruction, InstructionType};
