//! The cryptographic opcodes: address construction, equality of the top two
//! entries, and single and multiple signature checks.

use vstd::prelude::*;
use crate::crypto::{address_of, construct_address, ed25519_verifies, verify_detached};
use crate::entry::{same_opt_entry, PublicKey, Signature, StackEntry};

verus! {

/// The entry `i` places below the top of `s` (0 is the top), if there is one.
pub open spec fn entry_below_top(s: Seq<StackEntry>, i: int) -> Option<StackEntry> {
    if 0 <= i < s.len() {
        Some(s[s.len() - 1 - i])
    } else {
        None
    }
}

/// Handles the execution of the hash256 opcode: the public key on top of the
/// stack is replaced by its address (see `construct_address`). Returns
/// `false` when the top entry is no public key, which is then popped all the
/// same. Only the address format of `construct_address` is provided: the
/// version-specific address formats that `_address_version` would select are
/// not, so every version gives that same address.
pub fn op_hash256(current_stack: &mut Vec<StackEntry>, _address_version: Option<u64>) -> (r: bool)
    requires
        old(current_stack)@.len() > 0,
    ensures
        r == (old(current_stack)@.last() is PubKey),
        !r ==> final(current_stack)@ == old(current_stack)@.drop_last(),
        r ==> final(current_stack)@.len() == old(current_stack)@.len(),
        r ==> final(current_stack)@.drop_last() == old(current_stack)@.drop_last(),
        r ==> (final(current_stack)@.last() matches StackEntry::PubKeyHash(h) && h@ == address_of(
            old(current_stack)@.last()->PubKey_0,
        )),
{
    let last_entry = current_stack.pop().unwrap();
    let pub_key = match last_entry {
        StackEntry::PubKey(v) => v,
        _ => return false,
    };
    let new_entry = construct_address(&pub_key);
    current_stack.push(StackEntry::PubKeyHash(new_entry));
    true
}

/// Handles the execution of the equalverify opcode: pops the top two entries
/// (as many as there are) and returns whether they are equal, an absent entry
/// being equal only to an absent one.
pub fn op_equalverify(current_stack: &mut Vec<StackEntry>) -> (r: bool)
    ensures
        r == same_opt_entry(
            entry_below_top(old(current_stack)@, 0),
            entry_below_top(old(current_stack)@, 1),
        ),
        final(current_stack)@ == old(current_stack)@.subrange(
            0,
            if old(current_stack)@.len() >= 2 { old(current_stack)@.len() - 2 } else { 0 },
        ),
{
    let input_hash = current_stack.pop();
    let computed_hash = current_stack.pop();
    match (&input_hash, &computed_hash) {
        (None, None) => true,
        (Some(a), Some(b)) => a.equals(b),
        _ => false,
    }
}

/// The stack holds, from the top, a public key, a signature and the signed
/// data, as the signature opcodes need.
pub open spec fn has_signature_triple(s: Seq<StackEntry>) -> bool {
    &&& s.len() >= 3
    &&& s[s.len() - 1] is PubKey
    &&& s[s.len() - 2] is Signature
    &&& s[s.len() - 3] is Bytes
}

/// Whether the signature triple on top of `s` holds a valid signature.
pub open spec fn signature_triple_valid(s: Seq<StackEntry>) -> bool {
    ed25519_verifies(
        s[s.len() - 2]->Signature_0.0@,
        s[s.len() - 3]->Bytes_0@,
        s[s.len() - 1]->PubKey_0.0@,
    )
}

/// Pops a public key, a signature and the signed data, and checks the signature.
fn check_signature_triple(current_stack: &mut Vec<StackEntry>) -> (r: bool)
    requires
        has_signature_triple(old(current_stack)@),
    ensures
        r == signature_triple_valid(old(current_stack)@),
        final(current_stack)@ == old(current_stack)@.subrange(0, old(current_stack)@.len() - 3),
{
    let pub_key: PublicKey = match current_stack.pop().unwrap() {
        StackEntry::PubKey(pub_key) => pub_key,
        _ => unreached(),
    };
    let sig: Signature = match current_stack.pop().unwrap() {
        StackEntry::Signature(sig) => sig,
        _ => unreached(),
    };
    let check_data = match current_stack.pop().unwrap() {
        StackEntry::Bytes(check_data) => check_data,
        _ => unreached(),
    };
    verify_detached(&sig, &check_data, &pub_key)
}

/// Handles the execution of the checksig opcode: pops a public key, a
/// signature and the signed data, and returns whether the signature is valid.
pub fn op_checksig(current_stack: &mut Vec<StackEntry>) -> (r: bool)
    requires
        has_signature_triple(old(current_stack)@),
    ensures
        r == signature_triple_valid(old(current_stack)@),
        final(current_stack)@ == old(current_stack)@.subrange(0, old(current_stack)@.len() - 3),
{
    check_signature_triple(current_stack)
}

/// Handles the execution of the checksig opcode for one member of a multisig:
/// as `op_checksig`.
pub fn op_checkmultisigmem(current_stack: &mut Vec<StackEntry>) -> (r: bool)
    requires
        has_signature_triple(old(current_stack)@),
    ensures
        r == signature_triple_valid(old(current_stack)@),
        final(current_stack)@ == old(current_stack)@.subrange(0, old(current_stack)@.len() - 3),
{
    check_signature_triple(current_stack)
}

// ---------------------------------------------------------------------------
// Multisig
// ---------------------------------------------------------------------------

/// The entry `i` places below the top of `s` (0 is the top).
pub open spec fn nth_from_top(s: Seq<StackEntry>, i: int) -> StackEntry {
    s[s.len() - 1 - i]
}

/// The runs of entries that `op_multisig` pops one after the other.
pub enum Run {
    PubKeys,
    Signatures,
}

/// Whether an entry belongs to a run of the given kind.
pub open spec fn in_run(e: StackEntry, run: Run) -> bool {
    match run {
        Run::PubKeys => e is PubKey,
        Run::Signatures => e is Signature,
    }
}

/// How many entries of the given kind lie on top of `s`, one after the other.
pub open spec fn top_run(s: Seq<StackEntry>, run: Run) -> nat
    decreases s.len(),
{
    if s.len() > 0 && in_run(s.last(), run) {
        1 + top_run(s.drop_last(), run)
    } else {
        0
    }
}

proof fn lemma_top_run(s: Seq<StackEntry>, run: Run)
    ensures
        top_run(s, run) <= s.len(),
        forall|i: int| 0 <= i < top_run(s, run) ==> in_run(#[trigger] nth_from_top(s, i), run),
        top_run(s, run) < s.len() ==> !in_run(nth_from_top(s, top_run(s, run) as int), run),
    decreases s.len(),
{
    if s.len() > 0 && in_run(s.last(), run) {
        let t = s.drop_last();
        lemma_top_run(t, run);
        assert forall|i: int| 0 <= i < top_run(s, run) implies in_run(#[trigger] nth_from_top(s, i), run) by {
            if i > 0 {
                assert(nth_from_top(s, i) == nth_from_top(t, i - 1));
            }
        }
        if top_run(s, run) < s.len() {
            assert(nth_from_top(s, top_run(s, run) as int) == nth_from_top(t, top_run(t, run) as int));
        }
    }
}

/// Whether `sig` is a valid signature of `data` under at least one of `keys`.
pub open spec fn signs_for_some_key(data: Seq<char>, sig: Signature, keys: Seq<PublicKey>) -> bool {
    exists|j: int| 0 <= j < keys.len() && ed25519_verifies(sig.0@, data, #[trigger] keys[j].0@)
}

/// How many of `sigs` are valid signatures of `data` under some key of `keys`
/// (one key may serve several signatures).
pub open spec fn matched_signatures(data: Seq<char>, sigs: Seq<Signature>, keys: Seq<PublicKey>) -> nat
    decreases sigs.len(),
{
    if sigs.len() == 0 {
        0
    } else {
        matched_signatures(data, sigs.drop_last(), keys) + if signs_for_some_key(data, sigs.last(), keys) {
            1nat
        } else {
            0nat
        }
    }
}

/// How many entries of `bs` are `true`.
pub open spec fn count_true(bs: Seq<bool>) -> nat
    decreases bs.len(),
{
    if bs.len() == 0 {
        0
    } else {
        count_true(bs.drop_last()) + if bs.last() { 1nat } else { 0nat }
    }
}

/// The stack holds what `op_multisig` reads, so that it does not panic: from
/// the top, the number `n` of keys, a run of public keys with an entry below
/// it; when there are at least `n` keys, the number `m` of signatures
/// required; when `m` is at most `n` and the number of keys, a run of
/// signatures with the signed data below it.
pub open spec fn multisig_well_formed(s: Seq<StackEntry>) -> bool {
    &&& s.len() > 0
    &&& s.last() is Num
    &&& {
        let n = s.last()->Num_0;
        let s1 = s.drop_last();
        let k = top_run(s1, Run::PubKeys);
        let s2 = s1.subrange(0, s1.len() - k);
        &&& k < s1.len()
        &&& k >= n ==> {
            &&& s2.last() is Num
            &&& {
                let m = s2.last()->Num_0;
                let s3 = s2.drop_last();
                let j = top_run(s3, Run::Signatures);
                (m <= n && m <= k) ==> (j < s3.len() && nth_from_top(s3, j as int) is Bytes)
            }
        }
    }
}

/// `OP_CHECKMULTISIG` on a well-formed stack: pops `n`, the keys, `m`, the
/// signatures and the data, failing early (after what was popped) when there
/// are fewer than `n` keys or `m` exceeds `n` or the number of keys; else
/// succeeds when at least `m` signatures are valid under some key.
pub open spec fn spec_op_multisig(s: Seq<StackEntry>) -> (bool, Seq<StackEntry>) {
    let n = s.last()->Num_0;
    let s1 = s.drop_last();
    let k = top_run(s1, Run::PubKeys);
    let keys = Seq::new(k, |i: int| nth_from_top(s1, i)->PubKey_0);
    let s2 = s1.subrange(0, s1.len() - k);
    if k < n {
        (false, s2)
    } else {
        let m = s2.last()->Num_0;
        let s3 = s2.drop_last();
        if m > n || m > k {
            (false, s3)
        } else {
            let j = top_run(s3, Run::Signatures);
            let sigs = Seq::new(j, |i: int| nth_from_top(s3, i)->Signature_0);
            let data = nth_from_top(s3, j as int)->Bytes_0;
            (matched_signatures(data@, sigs, keys) >= m, s3.subrange(0, s3.len() - j - 1))
        }
    }
}

fn top_in_run(stack: &Vec<StackEntry>, run: Run) -> (r: bool)
    requires
        stack@.len() > 0,
    ensures
        r == in_run(stack@.last(), run),
{
    match (&stack[stack.len() - 1], run) {
        (StackEntry::PubKey(_), Run::PubKeys) => true,
        (StackEntry::Signature(_), Run::Signatures) => true,
        _ => false,
    }
}

/// Whether `sig` is a valid signature of `check_data` under one of `pub_keys`;
/// the keys are tried in order and the search stops at the first that fits.
fn signature_matches_any(check_data: &String, sig: &Signature, pub_keys: &Vec<PublicKey>) -> (r: bool)
    ensures
        r == signs_for_some_key(check_data@, *sig, pub_keys@),
{
    let mut j: usize = 0;
    while j < pub_keys.len()
        invariant
            j <= pub_keys@.len(),
            forall|t: int| 0 <= t < j ==> !ed25519_verifies(sig.0@, check_data@, #[trigger] pub_keys@[t].0@),
        decreases pub_keys@.len() - j,
    {
        if verify_detached(sig, check_data, &pub_keys[j]) {
            return true;
        }
        j = j + 1;
    }
    false
}

/// Whether at least `m` of the per-signature outcomes are successes.
pub fn enough_matches(matches: &Vec<bool>, m: usize) -> (r: bool)
    ensures
        r == (count_true(matches@) >= m),
{
    let mut counter: usize = 0;
    let mut i: usize = 0;
    while i < matches.len()
        invariant
            i <= matches@.len(),
            counter <= i,
            counter == count_true(matches@.take(i as int)),
        decreases matches@.len() - i,
    {
        assert(matches@.take(i + 1).drop_last() =~= matches@.take(i as int));
        if matches[i] {
            counter = counter + 1;
        }
        i = i + 1;
    }
    assert(matches@.take(i as int) =~= matches@);
    counter >= m
}

/// Does pairwise validation of signatures against public keys: succeeds when
/// at least `m` of the signatures are valid for `check_data` under one of
/// the keys.
pub fn match_on_multisig_to_pubkey(
    check_data: String,
    signatures: Vec<Signature>,
    pub_keys: Vec<PublicKey>,
    m: usize,
) -> (r: bool)
    ensures
        r == (matched_signatures(check_data@, signatures@, pub_keys@) >= m),
{
    let mut matches: Vec<bool> = Vec::new();
    let mut i: usize = 0;
    while i < signatures.len()
        invariant
            i <= signatures@.len(),
            matches@.len() == i,
            count_true(matches@) == matched_signatures(check_data@, signatures@.take(i as int), pub_keys@),
        decreases signatures@.len() - i,
    {
        let found = signature_matches_any(&check_data, &signatures[i], &pub_keys);
        let ghost before = matches@;
        matches.push(found);
        assert(matches@.drop_last() =~= before);
        assert(signatures@.take(i + 1).drop_last() =~= signatures@.take(i as int));
        i = i + 1;
    }
    assert(signatures@.take(i as int) =~= signatures@);
    enough_matches(&matches, m)
}

/// Handles the execution of the multisig opcode. From the top, the stack
/// holds the number `n` of keys, the public keys, the number `m` of
/// signatures required, the signatures and the signed data. Returns whether
/// at least `m` signatures are valid under some key; fails early when fewer
/// than `n` keys are given or `m` exceeds `n` or the number of keys.
pub fn op_multisig(current_stack: &mut Vec<StackEntry>) -> (r: bool)
    requires
        multisig_well_formed(old(current_stack)@),
    ensures
        r == spec_op_multisig(old(current_stack)@).0,
        final(current_stack)@ == spec_op_multisig(old(current_stack)@).1,
{
    let ghost s0 = current_stack@;
    let mut pub_keys: Vec<PublicKey> = Vec::new();
    let mut signatures: Vec<Signature> = Vec::new();
    let n = match current_stack.pop().unwrap() {
        StackEntry::Num(n) => n,
        _ => unreached(),
    };
    let ghost s1 = current_stack@;
    proof {
        lemma_top_run(s1, Run::PubKeys);
    }
    while top_in_run(current_stack, Run::PubKeys)
        invariant
            s1.len() > top_run(s1, Run::PubKeys),
            pub_keys@.len() <= top_run(s1, Run::PubKeys),
            current_stack@ == s1.subrange(0, s1.len() - pub_keys@.len()),
            forall|t: int| 0 <= t < pub_keys@.len() ==> pub_keys@[t] == (#[trigger] nth_from_top(s1, t))->PubKey_0,
            forall|i: int| 0 <= i < top_run(s1, Run::PubKeys) ==> #[trigger] nth_from_top(s1, i) is PubKey,
            !(nth_from_top(s1, top_run(s1, Run::PubKeys) as int) is PubKey),
        decreases current_stack@.len(),
    {
        assert(current_stack@.last() == nth_from_top(s1, pub_keys@.len() as int));
        let next_key = current_stack.pop();
        if let Some(StackEntry::PubKey(pub_key)) = next_key {
            pub_keys.push(pub_key);
        }
    }
    assert(current_stack@.last() == nth_from_top(s1, pub_keys@.len() as int));
    assert(pub_keys@ =~= Seq::new(top_run(s1, Run::PubKeys), |i: int| nth_from_top(s1, i)->PubKey_0));
    if pub_keys.len() < n {
        return false;
    }
    let m = match current_stack.pop().unwrap() {
        StackEntry::Num(m) => m,
        _ => unreached(),
    };
    if m > n || m > pub_keys.len() {
        return false;
    }
    let ghost s3 = current_stack@;
    proof {
        lemma_top_run(s3, Run::Signatures);
    }
    while top_in_run(current_stack, Run::Signatures)
        invariant
            s3.len() > top_run(s3, Run::Signatures),
            signatures@.len() <= top_run(s3, Run::Signatures),
            current_stack@ == s3.subrange(0, s3.len() - signatures@.len()),
            forall|t: int| 0 <= t < signatures@.len() ==> signatures@[t] == (#[trigger] nth_from_top(s3, t))->Signature_0,
            forall|i: int| 0 <= i < top_run(s3, Run::Signatures) ==> #[trigger] nth_from_top(s3, i) is Signature,
            !(nth_from_top(s3, top_run(s3, Run::Signatures) as int) is Signature),
        decreases current_stack@.len(),
    {
        assert(current_stack@.last() == nth_from_top(s3, signatures@.len() as int));
        let next_sig = current_stack.pop();
        if let Some(StackEntry::Signature(sig)) = next_sig {
            signatures.push(sig);
        }
    }
    assert(current_stack@.last() == nth_from_top(s3, signatures@.len() as int));
    assert(signatures@ =~= Seq::new(top_run(s3, Run::Signatures), |i: int| nth_from_top(s3, i)->Signature_0));
    let check_data = match current_stack.pop().unwrap() {
        StackEntry::Bytes(check_data) => check_data,
        _ => unreached(),
    };
    if !match_on_multisig_to_pubkey(check_data, signatures, pub_keys, m) {
        return false;
    }
    true
}

} // verus!
