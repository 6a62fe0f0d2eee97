//! What each opcode does, stated element by element over any stack: when it
//! succeeds, how long the stack it leaves is, which entries stay in place and
//! which entries come to the top. Also what equality of entries means and how
//! the multisig count is made up.

use vstd::prelude::*;
use crate::crypto_ops::{
    matched_signatures, multisig_well_formed, nth_from_top, signs_for_some_key,
    spec_op_multisig, top_run, in_run, Run,
};
use crate::entry::{same_entry, same_opt_entry, PublicKey, Signature, StackEntry};
use crate::stack_ops::{
    spec_op_2drop, spec_op_2dup, spec_op_2over, spec_op_2rot, spec_op_2swap, spec_op_3dup,
    spec_op_depth, spec_op_drop, spec_op_dup, spec_op_ifdup, spec_op_nip, spec_op_over,
    spec_op_pick, spec_op_roll, spec_op_rot, spec_op_swap, spec_op_tuck,
};

verus! {

/// The first `h` entries of `r` are those of `s`.
pub open spec fn same_below(r: Seq<StackEntry>, s: Seq<StackEntry>, h: int) -> bool {
    forall|i: int| 0 <= i < h ==> #[trigger] r[i] == s[i]
}

/// OP_2DROP succeeds exactly on stacks of at least two items; it then leaves
/// every item but the top two in place; else the stack is unchanged.
pub proof fn law_2drop_behaviour(s: Seq<StackEntry>)
    ensures
        spec_op_2drop(s).0 == (s.len() >= 2),
        !spec_op_2drop(s).0 ==> spec_op_2drop(s).1 == s,
        spec_op_2drop(s).0 ==> spec_op_2drop(s).1.len() == s.len() - 2 && same_below(spec_op_2drop(s).1, s, s.len() - 2),
{
}

/// OP_2DUP succeeds exactly on stacks of at least two items and then puts
/// copies of the top two, in order, above the unchanged stack.
pub proof fn law_2dup_behaviour(s: Seq<StackEntry>)
    ensures
        spec_op_2dup(s).0 == (s.len() >= 2),
        !spec_op_2dup(s).0 ==> spec_op_2dup(s).1 == s,
        spec_op_2dup(s).0 ==> {
            let r = spec_op_2dup(s).1;
            let n = s.len() as int;
            &&& r.len() == n + 2
            &&& same_below(r, s, n)
            &&& r[n] == s[n - 2]
            &&& r[n + 1] == s[n - 1]
        },
{
}

/// OP_3DUP succeeds exactly on stacks of at least three items and then puts
/// copies of the top three, in order, above the unchanged stack.
pub proof fn law_3dup_behaviour(s: Seq<StackEntry>)
    ensures
        spec_op_3dup(s).0 == (s.len() >= 3),
        !spec_op_3dup(s).0 ==> spec_op_3dup(s).1 == s,
        spec_op_3dup(s).0 ==> {
            let r = spec_op_3dup(s).1;
            let n = s.len() as int;
            &&& r.len() == n + 3
            &&& same_below(r, s, n)
            &&& r[n] == s[n - 3]
            &&& r[n + 1] == s[n - 2]
            &&& r[n + 2] == s[n - 1]
        },
{
}

/// OP_2OVER succeeds exactly on stacks of at least four items and then puts
/// copies of the third and fourth items from the top above the unchanged stack.
pub proof fn law_2over_behaviour(s: Seq<StackEntry>)
    ensures
        spec_op_2over(s).0 == (s.len() >= 4),
        !spec_op_2over(s).0 ==> spec_op_2over(s).1 == s,
        spec_op_2over(s).0 ==> {
            let r = spec_op_2over(s).1;
            let n = s.len() as int;
            &&& r.len() == n + 2
            &&& same_below(r, s, n)
            &&& r[n] == s[n - 4]
            &&& r[n + 1] == s[n - 3]
        },
{
}

/// OP_2ROT succeeds exactly on stacks of at least six items; the fifth and
/// sixth items from the top move to the top and the four above them move down.
pub proof fn law_2rot_behaviour(s: Seq<StackEntry>)
    ensures
        spec_op_2rot(s).0 == (s.len() >= 6),
        !spec_op_2rot(s).0 ==> spec_op_2rot(s).1 == s,
        spec_op_2rot(s).0 ==> {
            let r = spec_op_2rot(s).1;
            let n = s.len() as int;
            &&& r.len() == n
            &&& same_below(r, s, n - 6)
            &&& r[n - 6] == s[n - 4]
            &&& r[n - 5] == s[n - 3]
            &&& r[n - 4] == s[n - 2]
            &&& r[n - 3] == s[n - 1]
            &&& r[n - 2] == s[n - 6]
            &&& r[n - 1] == s[n - 5]
        },
{
}

/// OP_2SWAP succeeds exactly on stacks of at least four items and exchanges
/// the top pair with the pair below it.
pub proof fn law_2swap_behaviour(s: Seq<StackEntry>)
    ensures
        spec_op_2swap(s).0 == (s.len() >= 4),
        !spec_op_2swap(s).0 ==> spec_op_2swap(s).1 == s,
        spec_op_2swap(s).0 ==> {
            let r = spec_op_2swap(s).1;
            let n = s.len() as int;
            &&& r.len() == n
            &&& same_below(r, s, n - 4)
            &&& r[n - 4] == s[n - 2]
            &&& r[n - 3] == s[n - 1]
            &&& r[n - 2] == s[n - 4]
            &&& r[n - 1] == s[n - 3]
        },
{
}

/// OP_DEPTH always succeeds and puts the number of items above the unchanged stack.
pub proof fn law_depth_behaviour(s: Seq<StackEntry>)
    ensures
        spec_op_depth(s).0,
        spec_op_depth(s).1.len() == s.len() + 1,
        same_below(spec_op_depth(s).1, s, s.len() as int),
        spec_op_depth(s).1[s.len() as int] == StackEntry::Num(s.len() as usize),
{
}

/// OP_DROP succeeds exactly on non-empty stacks and removes only the top item.
pub proof fn law_drop_behaviour(s: Seq<StackEntry>)
    ensures
        spec_op_drop(s).0 == (s.len() >= 1),
        !spec_op_drop(s).0 ==> spec_op_drop(s).1 == s,
        spec_op_drop(s).0 ==> spec_op_drop(s).1.len() == s.len() - 1 && same_below(spec_op_drop(s).1, s, s.len() - 1),
{
}

/// OP_DUP succeeds exactly on non-empty stacks and puts a copy of the top on top.
pub proof fn law_dup_behaviour(s: Seq<StackEntry>)
    ensures
        spec_op_dup(s).0 == (s.len() >= 1),
        !spec_op_dup(s).0 ==> spec_op_dup(s).1 == s,
        spec_op_dup(s).0 ==> {
            let r = spec_op_dup(s).1;
            let n = s.len() as int;
            &&& r.len() == n + 1
            &&& same_below(r, s, n)
            &&& r[n] == s[n - 1]
        },
{
}

/// OP_IFDUP succeeds exactly on non-empty stacks; it copies the top on top
/// unless the top is the number zero, in which case the stack is unchanged.
pub proof fn law_ifdup_behaviour(s: Seq<StackEntry>)
    ensures
        spec_op_ifdup(s).0 == (s.len() >= 1),
        !spec_op_ifdup(s).0 ==> spec_op_ifdup(s).1 == s,
        spec_op_ifdup(s).0 && s[s.len() - 1] == StackEntry::Num(0) ==> spec_op_ifdup(s).1 == s,
        spec_op_ifdup(s).0 && s[s.len() - 1] != StackEntry::Num(0) ==> {
            let r = spec_op_ifdup(s).1;
            let n = s.len() as int;
            &&& r.len() == n + 1
            &&& same_below(r, s, n)
            &&& r[n] == s[n - 1]
        },
{
}

/// OP_NIP succeeds exactly on stacks of at least two items and removes only
/// the second item from the top; the top item stays on top.
pub proof fn law_nip_behaviour(s: Seq<StackEntry>)
    ensures
        spec_op_nip(s).0 == (s.len() >= 2),
        !spec_op_nip(s).0 ==> spec_op_nip(s).1 == s,
        spec_op_nip(s).0 ==> {
            let r = spec_op_nip(s).1;
            let n = s.len() as int;
            &&& r.len() == n - 1
            &&& same_below(r, s, n - 2)
            &&& r[n - 2] == s[n - 1]
        },
{
}

/// OP_OVER succeeds exactly on stacks of at least two items and puts a copy of
/// the second item from the top on top.
pub proof fn law_over_behaviour(s: Seq<StackEntry>)
    ensures
        spec_op_over(s).0 == (s.len() >= 2),
        !spec_op_over(s).0 ==> spec_op_over(s).1 == s,
        spec_op_over(s).0 ==> {
            let r = spec_op_over(s).1;
            let n = s.len() as int;
            &&& r.len() == n + 1
            &&& same_below(r, s, n)
            &&& r[n] == s[n - 2]
        },
{
}

/// OP_ROT succeeds exactly on stacks of at least three items; the third item
/// from the top moves to the top and the two above it move down.
pub proof fn law_rot_behaviour(s: Seq<StackEntry>)
    ensures
        spec_op_rot(s).0 == (s.len() >= 3),
        !spec_op_rot(s).0 ==> spec_op_rot(s).1 == s,
        spec_op_rot(s).0 ==> {
            let r = spec_op_rot(s).1;
            let n = s.len() as int;
            &&& r.len() == n
            &&& same_below(r, s, n - 3)
            &&& r[n - 3] == s[n - 2]
            &&& r[n - 2] == s[n - 1]
            &&& r[n - 1] == s[n - 3]
        },
{
}

/// OP_SWAP succeeds exactly on stacks of at least two items and exchanges the
/// top two.
pub proof fn law_swap_behaviour(s: Seq<StackEntry>)
    ensures
        spec_op_swap(s).0 == (s.len() >= 2),
        !spec_op_swap(s).0 ==> spec_op_swap(s).1 == s,
        spec_op_swap(s).0 ==> {
            let r = spec_op_swap(s).1;
            let n = s.len() as int;
            &&& r.len() == n
            &&& same_below(r, s, n - 2)
            &&& r[n - 2] == s[n - 1]
            &&& r[n - 1] == s[n - 2]
        },
{
}

/// OP_TUCK succeeds exactly on stacks of at least two items: from the top
/// `.., a, b` becomes `.., b, a, b`.
pub proof fn law_tuck_behaviour(s: Seq<StackEntry>)
    ensures
        spec_op_tuck(s).0 == (s.len() >= 2),
        !spec_op_tuck(s).0 ==> spec_op_tuck(s).1 == s,
        spec_op_tuck(s).0 ==> {
            let r = spec_op_tuck(s).1;
            let n = s.len() as int;
            &&& r.len() == n + 1
            &&& same_below(r, s, n - 2)
            &&& r[n - 2] == s[n - 1]
            &&& r[n - 1] == s[n - 2]
            &&& r[n] == s[n - 1]
        },
{
}

/// OP_PICK with the number `k` on top of a non-empty stack `rest`: for every
/// `k` below the depth of `rest` it succeeds and puts a copy of the item `k`
/// places below the top of `rest` on top of `rest`; for any larger `k` it
/// fails, leaving `rest`.
pub proof fn law_pick_behaviour(rest: Seq<StackEntry>, k: usize)
    requires
        rest.len() >= 1,
    ensures
        spec_op_pick(rest.push(StackEntry::Num(k))).0 == (k < rest.len()),
        k >= rest.len() ==> spec_op_pick(rest.push(StackEntry::Num(k))).1 == rest,
        k < rest.len() ==> {
            let r = spec_op_pick(rest.push(StackEntry::Num(k))).1;
            let m = rest.len() as int;
            &&& r.len() == m + 1
            &&& same_below(r, rest, m)
            &&& r[m] == rest[m - 1 - k]
        },
{
    assert(rest.push(StackEntry::Num(k)).drop_last() =~= rest);
}

/// OP_ROLL with the number `k` on top of a non-empty stack `rest`: for every
/// `k` below the depth of `rest` it succeeds and moves the item `k` places
/// below the top of `rest` to the top, the items above it moving down by one;
/// for any larger `k` it fails, leaving `rest`.
pub proof fn law_roll_behaviour(rest: Seq<StackEntry>, k: usize)
    requires
        rest.len() >= 1,
    ensures
        spec_op_roll(rest.push(StackEntry::Num(k))).0 == (k < rest.len()),
        k >= rest.len() ==> spec_op_roll(rest.push(StackEntry::Num(k))).1 == rest,
        k < rest.len() ==> {
            let r = spec_op_roll(rest.push(StackEntry::Num(k))).1;
            let m = rest.len() as int;
            &&& r.len() == m
            &&& same_below(r, rest, m - 1 - k)
            &&& forall|i: int| m - 1 - k <= i < m - 1 ==> #[trigger] r[i] == rest[i + 1]
            &&& r[m - 1] == rest[m - 1 - k]
        },
{
    assert(rest.push(StackEntry::Num(k)).drop_last() =~= rest);
}

/// OP_PICK and OP_ROLL fail on a stack of at least two items whose top is no
/// number, and the top is popped all the same.
pub proof fn law_pick_roll_need_a_number(s: Seq<StackEntry>)
    requires
        s.len() >= 2,
        !(s.last() is Num),
    ensures
        spec_op_pick(s) == (false, s.drop_last()),
        spec_op_roll(s) == (false, s.drop_last()),
{
}

// ---------------------------------------------------------------------------
// Equality of entries
// ---------------------------------------------------------------------------

/// Equal entries are the same variant holding the same contents: the same
/// number, opcode, key or signature, or strings with the same characters.
pub proof fn law_equal_entries_hold_the_same(a: StackEntry, b: StackEntry)
    requires
        same_entry(a, b),
    ensures
        a is Num ==> b == a,
        a is Op ==> b == a,
        a is PubKey ==> b == a,
        a is Signature ==> b == a,
        a is PubKeyHash ==> b is PubKeyHash && b->PubKeyHash_0@ == a->PubKeyHash_0@,
        a is Bytes ==> b is Bytes && b->Bytes_0@ == a->Bytes_0@,
{
    broadcast use vstd::array::axiom_array_ext_equal;

    match (a, b) {
        (StackEntry::PubKey(x), StackEntry::PubKey(y)) => {
            assert(x.0 =~= y.0);
        },
        (StackEntry::Signature(x), StackEntry::Signature(y)) => {
            assert(x.0 =~= y.0);
        },
        _ => {},
    }
}

/// Entries of different variants, or strings with different characters, are
/// never equal.
pub proof fn law_different_entries_differ(a: StackEntry, b: StackEntry)
    ensures
        (a is PubKeyHash && b is PubKeyHash && a->PubKeyHash_0@ != b->PubKeyHash_0@) ==> !same_entry(a, b),
        (a is Bytes && b is Bytes && a->Bytes_0@ != b->Bytes_0@) ==> !same_entry(a, b),
        (a is PubKeyHash && b is Bytes) ==> !same_entry(a, b),
        (a is Num && b is Num && a != b) ==> !same_entry(a, b),
{
}

/// Two present entries compare as the entries do; two absent entries are
/// equal; a present entry never equals an absent one.
pub proof fn law_optional_entries(a: StackEntry, b: StackEntry)
    ensures
        same_opt_entry(Some(a), Some(b)) == same_entry(a, b),
        same_opt_entry(None, None),
        !same_opt_entry(Some(a), None),
        !same_opt_entry(None, Some(b)),
{
}

// ---------------------------------------------------------------------------
// The multisig count
// ---------------------------------------------------------------------------

/// One signature counts one exactly when it is valid under some key.
pub proof fn law_matched_single(data: Seq<char>, sig: Signature, keys: Seq<PublicKey>)
    ensures
        matched_signatures(data, seq![sig], keys) == if signs_for_some_key(data, sig, keys) { 1nat } else { 0nat },
{
    assert(seq![sig].drop_last() =~= Seq::<Signature>::empty());
    assert(matched_signatures(data, Seq::<Signature>::empty(), keys) == 0);
    assert(seq![sig].last() == sig);
}

/// The count over two runs of signatures is the sum of their counts.
pub proof fn law_matched_additive(data: Seq<char>, a: Seq<Signature>, b: Seq<Signature>, keys: Seq<PublicKey>)
    ensures
        matched_signatures(data, a + b, keys) == matched_signatures(data, a, keys) + matched_signatures(data, b, keys),
    decreases b.len(),
{
    if b.len() == 0 {
        assert(a + b =~= a);
    } else {
        law_matched_additive(data, a, b.drop_last(), keys);
        assert((a + b).drop_last() =~= a + b.drop_last());
        assert((a + b).last() == b.last());
    }
}

/// One more signature anywhere in the run never lowers the count.
pub proof fn law_matched_more_signatures(data: Seq<char>, sigs: Seq<Signature>, i: int, x: Signature, keys: Seq<PublicKey>)
    requires
        0 <= i <= sigs.len(),
    ensures
        matched_signatures(data, sigs, keys) <= matched_signatures(data, sigs.insert(i, x), keys),
{
    let a = sigs.subrange(0, i);
    let b = sigs.subrange(i, sigs.len() as int);
    assert(sigs =~= a + b);
    assert(sigs.insert(i, x) =~= (a + seq![x]) + b);
    law_matched_additive(data, a, b, keys);
    law_matched_additive(data, a + seq![x], b, keys);
    law_matched_additive(data, a, seq![x], keys);
}

/// The stack entries of a run of signatures listed from the top down.
pub open spec fn signature_run(sigs: Seq<Signature>) -> Seq<StackEntry> {
    Seq::new(sigs.len(), |i: int| StackEntry::Signature(sigs[sigs.len() - 1 - i]))
}

/// The stack entries of a run of public keys listed from the top down.
pub open spec fn key_run(keys: Seq<PublicKey>) -> Seq<StackEntry> {
    Seq::new(keys.len(), |i: int| StackEntry::PubKey(keys[keys.len() - 1 - i]))
}

proof fn lemma_top_run_of_block(a: Seq<StackEntry>, e: Seq<StackEntry>, run: Run)
    requires
        a.len() > 0,
        !in_run(a.last(), run),
        forall|i: int| 0 <= i < e.len() ==> in_run(#[trigger] e[i], run),
    ensures
        top_run(a + e, run) == e.len(),
    decreases e.len(),
{
    if e.len() == 0 {
        assert(a + e =~= a);
    } else {
        assert((a + e).drop_last() =~= a + e.drop_last());
        assert((a + e).last() == e[e.len() - 1]);
        lemma_top_run_of_block(a, e.drop_last(), run);
    }
}

/// A multisig over `data`, the signatures `sigs`, the threshold `m`, the keys
/// `keys` and the key count `n` (both runs listed from the top down), with
/// `m <= n <= keys.len()`, succeeds exactly when at least `m` of all the
/// given signatures are valid under some given key, and leaves what lay below
/// the data.
pub proof fn law_multisig_counts_every_signature(
    p: Seq<StackEntry>,
    data: String,
    sigs: Seq<Signature>,
    m: usize,
    keys: Seq<PublicKey>,
    n: usize,
)
    requires
        m <= n,
        n <= keys.len(),
    ensures
        multisig_well_formed(
            p + seq![StackEntry::Bytes(data)] + signature_run(sigs) + seq![StackEntry::Num(m)] + key_run(keys) + seq![StackEntry::Num(n)],
        ),
        spec_op_multisig(
            p + seq![StackEntry::Bytes(data)] + signature_run(sigs) + seq![StackEntry::Num(m)] + key_run(keys) + seq![StackEntry::Num(n)],
        ) == (matched_signatures(data@, sigs, keys) >= m, p),
{
    let a = p + seq![StackEntry::Bytes(data)];
    let s3 = a + signature_run(sigs);
    let s2 = s3 + seq![StackEntry::Num(m)];
    let s1 = s2 + key_run(keys);
    let s = s1 + seq![StackEntry::Num(n)];
    assert(s.drop_last() =~= s1);
    assert(s.last() == StackEntry::Num(n));
    lemma_top_run_of_block(s2, key_run(keys), Run::PubKeys);
    let k = keys.len() as int;
    assert(s1.subrange(0, s1.len() - k) =~= s2);
    assert(s2.drop_last() =~= s3);
    lemma_top_run_of_block(a, signature_run(sigs), Run::Signatures);
    let j = sigs.len() as int;
    assert(nth_from_top(s3, j) == StackEntry::Bytes(data));
    assert(s3.subrange(0, s3.len() - j - 1) =~= p);
    assert(Seq::new(top_run(s1, Run::PubKeys), |i: int| nth_from_top(s1, i)->PubKey_0) =~= keys) by {
        assert forall|i: int| 0 <= i < k implies nth_from_top(s1, i) == StackEntry::PubKey(#[trigger] keys[i]) by {
            assert(s1[s1.len() - 1 - i] == key_run(keys)[k - 1 - i]);
        }
    }
    assert(Seq::new(top_run(s3, Run::Signatures), |i: int| nth_from_top(s3, i)->Signature_0) =~= sigs) by {
        assert forall|i: int| 0 <= i < j implies nth_from_top(s3, i) == StackEntry::Signature(#[trigger] sigs[i]) by {
            assert(s3[s3.len() - 1 - i] == signature_run(sigs)[j - 1 - i]);
        }
    }
}

} // verus!
