//! Stack operations of a small transaction script language: the stack
//! manipulation opcodes and the cryptographic opcodes that check hashes and
//! ed25519 signatures against the entries on the stack.

pub mod crypto;
pub mod crypto_ops;
pub mod entry;
pub mod laws;
pub mod op_laws;
pub mod stack_ops;

pub use crypto_ops::{
    op_checkmultisigmem, op_checksig, op_equalverify, op_hash256, op_multisig,
};
pub use entry::{OpCodes, PublicKey, Signature, StackEntry};
pub use stack_ops::{
    op_2drop, op_2dup, op_2over, op_2rot, op_2swap, op_3dup, op_depth, op_drop, op_dup, op_ifdup,
    op_nip, op_over, op_pick, op_roll, op_rot, op_swap, op_tuck, push_entry_to_stack,
    push_entry_to_stack_ref,
};
