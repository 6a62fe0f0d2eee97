use vstd::prelude::*;

verus! {

/// An ed25519 public key, as its 32 raw bytes.
#[derive(Clone, Copy, Debug, PartialEq, Eq)]
pub struct PublicKey(pub [u8; 32]);

/// A detached ed25519 signature, as its 64 raw bytes.
#[derive(Clone, Copy, Debug, PartialEq, Eq)]
pub struct Signature(pub [u8; 64]);

/// The opcodes whose execution this crate provides.
#[allow(non_camel_case_types)]
#[derive(Clone, Copy, Debug, PartialEq, Eq, Structural)]
pub enum OpCodes {
    OP_0,
    OP_2DROP,
    OP_2DUP,
    OP_3DUP,
    OP_2OVER,
    OP_2ROT,
    OP_2SWAP,
    OP_DEPTH,
    OP_DROP,
    OP_DUP,
    OP_IFDUP,
    OP_NIP,
    OP_OVER,
    OP_PICK,
    OP_ROLL,
    OP_ROT,
    OP_SWAP,
    OP_TUCK,
    OP_HASH256,
    OP_EQUALVERIFY,
    OP_CHECKSIG,
    OP_CHECKMULTISIG,
}

/// One entry of the script stack.
#[derive(Clone, Debug, PartialEq, Eq)]
pub enum StackEntry {
    Op(OpCodes),
    Signature(Signature),
    PubKey(PublicKey),
    PubKeyHash(String),
    Num(usize),
    Bytes(String),
}

/// Two entries are equal when they are the same variant holding the same
/// contents (byte arrays and strings compared by their contents).
pub open spec fn same_entry(a: StackEntry, b: StackEntry) -> bool {
    match (a, b) {
        (StackEntry::Op(x), StackEntry::Op(y)) => x == y,
        (StackEntry::Signature(x), StackEntry::Signature(y)) => x.0@ == y.0@,
        (StackEntry::PubKey(x), StackEntry::PubKey(y)) => x.0@ == y.0@,
        (StackEntry::PubKeyHash(x), StackEntry::PubKeyHash(y)) => x@ == y@,
        (StackEntry::Num(x), StackEntry::Num(y)) => x == y,
        (StackEntry::Bytes(x), StackEntry::Bytes(y)) => x@ == y@,
        _ => false,
    }
}

/// Equality of two optional entries, as `==` on `Option<StackEntry>`.
pub open spec fn same_opt_entry(a: Option<StackEntry>, b: Option<StackEntry>) -> bool {
    match (a, b) {
        (None, None) => true,
        (Some(x), Some(y)) => same_entry(x, y),
        _ => false,
    }
}

fn bytes_equal<const N: usize>(a: &[u8; N], b: &[u8; N]) -> (r: bool)
    ensures
        r == (a@ == b@),
{
    let mut i: usize = 0;
    while i < N
        invariant
            a@.len() == N,
            b@.len() == N,
            i <= N,
            forall|j: int| 0 <= j < i ==> a@[j] == b@[j],
        decreases N - i,
    {
        if a[i] != b[i] {
            return false;
        }
        i = i + 1;
    }
    assert(a@ =~= b@);
    true
}

impl StackEntry {
    /// A copy of this entry, equal to it in every field.
    pub fn duplicate(&self) -> (r: StackEntry)
        ensures
            r == *self,
    {
        match self {
            StackEntry::Op(op) => StackEntry::Op(*op),
            StackEntry::Signature(sig) => StackEntry::Signature(*sig),
            StackEntry::PubKey(pk) => StackEntry::PubKey(*pk),
            StackEntry::PubKeyHash(h) => StackEntry::PubKeyHash(h.clone()),
            StackEntry::Num(n) => StackEntry::Num(*n),
            StackEntry::Bytes(b) => StackEntry::Bytes(b.clone()),
        }
    }

    /// Whether two entries are equal (the same variant with the same contents).
    pub fn equals(&self, other: &StackEntry) -> (r: bool)
        ensures
            r == same_entry(*self, *other),
    {
        match (self, other) {
            (StackEntry::Op(x), StackEntry::Op(y)) => *x == *y,
            (StackEntry::Signature(x), StackEntry::Signature(y)) => bytes_equal(&x.0, &y.0),
            (StackEntry::PubKey(x), StackEntry::PubKey(y)) => bytes_equal(&x.0, &y.0),
            (StackEntry::PubKeyHash(x), StackEntry::PubKeyHash(y)) => *x == *y,
            (StackEntry::Num(x), StackEntry::Num(y)) => *x == *y,
            (StackEntry::Bytes(x), StackEntry::Bytes(y)) => *x == *y,
            _ => false,
        }
    }
}

} // verus!
