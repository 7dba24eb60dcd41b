//! The error taxonomy of the virtual machine.

use vstd::prelude::*;

verus! {

/// Everything that can go wrong while loading a program or executing one
/// instruction: a failed load, the two opcode-level faults, and the invariant
/// violations that must halt execution cleanly instead of corrupting state.
#[derive(Clone, Copy, Debug, PartialEq, Eq, Structural)]
pub enum Fault {
    /// The program image does not fit in the writable part of memory.
    ProgramTooLarge { len: usize },
    /// A recognized but unsupported instruction family was fetched
    /// (extended-mode scrolls, RPL-flag transfers, machine-code calls).
    UnimplementedOpcode { pc: usize, hi: u8, lo: u8 },
    /// No instruction family matches the fetched bytes.
    UnknownOpcode { pc: usize, hi: u8, lo: u8 },
    /// A call would push a return address beyond the stack capacity.
    StackOverflow { pc: usize },
    /// A return was executed with an empty call stack.
    StackUnderflow { pc: usize },
    /// A memory access derived from the address register reaches past the
    /// end of memory; `addr` is the out-of-range address.
    MemoryOutOfRange { pc: usize, addr: usize },
    /// A key-test instruction named a key beyond the 16-key pad.
    KeyOutOfRange { pc: usize, value: u16 },
}

} // verus!
