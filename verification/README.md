# script_ops

Verified execution of the stack opcodes of a small transaction script
language.

- `src/entry.rs`: the stack entries (`StackEntry`, `PublicKey`, `Signature`,
  `OpCodes`), copying and comparing them.
- `src/stack_ops.rs`: the stack manipulation opcodes, each with a spec
  function that gives its result and the stack it leaves.
- `src/crypto.rs`: the calls into `sha3`, `hex` and `ed25519-dalek`, and the
  address of a public key.
- `src/crypto_ops.rs`: hash256, equalverify, checksig and multisig.
- `src/laws.rs`: properties that relate several opcodes.

Signatures are checked with `ed25519-dalek`'s strict verification
(`VerifyingKey::verify_strict`), which also rejects small-order keys and
small-order `R` components; a key whose bytes do not decode verifies nothing.
Addresses have one format: the lowercase hex of the SHA3-256 digest of the
key's bytes. `op_hash256` accepts an address version but provides no
version-specific formats, so every version gives that address.
