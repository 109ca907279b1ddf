//! Script opcodes used by taproot scripts.

use vstd::prelude::*;

verus! {

/// Push an empty array onto the stack.
pub const OP_PUSHBYTES_0: u8 = 0x00;

/// Push the next 32 bytes as an array onto the stack.
pub const OP_PUSHBYTES_32: u8 = 0x20;

/// Read the next byte as N; push the next N bytes as an array onto the stack.
pub const OP_PUSHDATA1: u8 = 0x4c;

/// Read the next 2 bytes as N; push the next N bytes as an array onto the stack.
pub const OP_PUSHDATA2: u8 = 0x4d;

/// Read the next 4 bytes as N; push the next N bytes as an array onto the stack.
pub const OP_PUSHDATA4: u8 = 0x4e;

/// Synonym for OP_RETURN.
pub const OP_RESERVED: u8 = 0x50;

/// Push the number 1 onto the stack; the opcodes up to `OP_PUSHNUM_16`
/// push the numbers up to 16.
pub const OP_PUSHNUM_1: u8 = 0x51;

/// Push the number 16 onto the stack.
pub const OP_PUSHNUM_16: u8 = 0x60;

/// Fail the script immediately.
pub const OP_RETURN: u8 = 0x6a;

} // verus!
