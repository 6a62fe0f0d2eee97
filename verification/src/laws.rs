//! Properties of the opcodes that relate several of them: what one undoes of
//! another, which are the same operation, and which only reorder the stack.

use vstd::prelude::*;
use crate::entry::{same_entry, same_opt_entry, StackEntry};
use crate::crypto_ops::{
    entry_below_top, has_signature_triple, matched_signatures, multisig_well_formed, nth_from_top,
    signature_triple_valid, signs_for_some_key, spec_op_multisig, top_run, Run,
};
use crate::stack_ops::{
    spec_op_2drop, spec_op_2dup, spec_op_2over, spec_op_2rot, spec_op_2swap, spec_op_depth,
    spec_op_drop, spec_op_dup, spec_op_over, spec_op_pick, spec_op_roll, spec_op_rot,
    spec_op_swap,
};

verus! {

/// Duplicating the top item and dropping it again gives back the stack.
pub proof fn law_dup_then_drop(s: Seq<StackEntry>)
    requires
        s.len() >= 1,
    ensures
        spec_op_dup(s).0,
        spec_op_drop(spec_op_dup(s).1) == (true, s),
{
    assert(spec_op_dup(s).1.drop_last() =~= s);
}

/// Duplicating the top pair and dropping a pair gives back the stack.
pub proof fn law_2dup_then_2drop(s: Seq<StackEntry>)
    requires
        s.len() >= 2,
    ensures
        spec_op_2dup(s).0,
        spec_op_2drop(spec_op_2dup(s).1) == (true, s),
{
    let t = spec_op_2dup(s).1;
    assert(t.subrange(0, t.len() - 2) =~= s);
}

/// Copying the second item over the top and dropping it gives back the stack.
pub proof fn law_over_then_drop(s: Seq<StackEntry>)
    requires
        s.len() >= 2,
    ensures
        spec_op_over(s).0,
        spec_op_drop(spec_op_over(s).1) == (true, s),
{
    assert(spec_op_over(s).1.drop_last() =~= s);
}

/// Copying the second pair over the top and dropping a pair gives back the stack.
pub proof fn law_2over_then_2drop(s: Seq<StackEntry>)
    requires
        s.len() >= 4,
    ensures
        spec_op_2over(s).0,
        spec_op_2drop(spec_op_2over(s).1) == (true, s),
{
    let t = spec_op_2over(s).1;
    assert(t.subrange(0, t.len() - 2) =~= s);
}

/// Swapping the top two items twice gives back the stack.
pub proof fn law_swap_twice(s: Seq<StackEntry>)
    requires
        s.len() >= 2,
    ensures
        spec_op_swap(s).0,
        spec_op_swap(spec_op_swap(s).1) == (true, s),
{
    let t = spec_op_swap(s).1;
    assert(t.subrange(0, t.len() - 2) + seq![t[t.len() - 1], t[t.len() - 2]] =~= s);
}

/// Swapping the top two pairs twice gives back the stack.
pub proof fn law_2swap_twice(s: Seq<StackEntry>)
    requires
        s.len() >= 4,
    ensures
        spec_op_2swap(s).0,
        spec_op_2swap(spec_op_2swap(s).1) == (true, s),
{
    let t = spec_op_2swap(s).1;
    let n = t.len() as int;
    assert(t.subrange(0, n - 4) + seq![t[n - 2], t[n - 1], t[n - 4], t[n - 3]] =~= s);
}

/// Rotating the top three items three times gives back the stack.
pub proof fn law_rot_three_times(s: Seq<StackEntry>)
    requires
        s.len() >= 3,
    ensures
        spec_op_rot(s).0,
        spec_op_rot(spec_op_rot(spec_op_rot(s).1).1) == (true, s),
{
    let n = s.len() as int;
    let t1 = spec_op_rot(s).1;
    let t2 = spec_op_rot(t1).1;
    assert(t2 =~= s.subrange(0, n - 3) + seq![s[n - 1], s[n - 3], s[n - 2]]);
    assert(spec_op_rot(t2).1 =~= s);
}

/// Rotating the top three pairs three times gives back the stack.
pub proof fn law_2rot_three_times(s: Seq<StackEntry>)
    requires
        s.len() >= 6,
    ensures
        spec_op_2rot(s).0,
        spec_op_2rot(spec_op_2rot(spec_op_2rot(s).1).1) == (true, s),
{
    let n = s.len() as int;
    let t1 = spec_op_2rot(s).1;
    let t2 = spec_op_2rot(t1).1;
    assert(t2 =~= s.subrange(0, n - 6) + seq![s[n - 2], s[n - 1], s[n - 6], s[n - 5], s[n - 4], s[n - 3]]);
    assert(spec_op_2rot(t2).1 =~= s);
}

/// Picking item 0 is duplicating the top.
pub proof fn law_pick_zero_is_dup(s: Seq<StackEntry>)
    requires
        s.len() >= 1,
    ensures
        spec_op_pick(s.push(StackEntry::Num(0))) == spec_op_dup(s),
{
    assert(s.push(StackEntry::Num(0)).drop_last() =~= s);
}

/// Picking item 1 is copying the second item over the top.
pub proof fn law_pick_one_is_over(s: Seq<StackEntry>)
    requires
        s.len() >= 1,
    ensures
        spec_op_pick(s.push(StackEntry::Num(1))) == spec_op_over(s),
{
    assert(s.push(StackEntry::Num(1)).drop_last() =~= s);
}

/// Rolling item 0 leaves the stack as it was before the number was pushed.
pub proof fn law_roll_zero_keeps(s: Seq<StackEntry>)
    requires
        s.len() >= 1,
    ensures
        spec_op_roll(s.push(StackEntry::Num(0))) == (true, s),
{
    let t = s.push(StackEntry::Num(0));
    assert(t.drop_last() =~= s);
    assert(s.remove(s.len() - 1).push(s[s.len() - 1]) =~= s);
}

/// Rolling item 1 is swapping the top two items.
pub proof fn law_roll_one_is_swap(s: Seq<StackEntry>)
    requires
        s.len() >= 1,
    ensures
        spec_op_roll(s.push(StackEntry::Num(1))) == spec_op_swap(s),
{
    let n = s.len() as int;
    assert(s.push(StackEntry::Num(1)).drop_last() =~= s);
    if n >= 2 {
        assert(s.remove(n - 2).push(s[n - 2]) =~= spec_op_swap(s).1);
    }
}

/// Rolling item 2 is rotating the top three items.
pub proof fn law_roll_two_is_rot(s: Seq<StackEntry>)
    requires
        s.len() >= 1,
    ensures
        spec_op_roll(s.push(StackEntry::Num(2))) == spec_op_rot(s),
{
    let n = s.len() as int;
    assert(s.push(StackEntry::Num(2)).drop_last() =~= s);
    if n >= 3 {
        assert(s.remove(n - 3).push(s[n - 3]) =~= spec_op_rot(s).1);
    }
}

/// The swapping and rotating opcodes only reorder the stack: the entries it
/// holds, counted with repetition, stay the same.
pub proof fn law_reorderings_keep_entries(s: Seq<StackEntry>)
    ensures
        spec_op_swap(s).1.to_multiset() == s.to_multiset(),
        spec_op_rot(s).1.to_multiset() == s.to_multiset(),
        spec_op_2swap(s).1.to_multiset() == s.to_multiset(),
        spec_op_2rot(s).1.to_multiset() == s.to_multiset(),
{
    broadcast use vstd::seq_lib::lemma_multiset_commutative;

    let n = s.len() as int;
    if n >= 2 {
        let p = s.subrange(0, n - 2);
        assert(s =~= p + (seq![s[n - 2]] + seq![s[n - 1]]));
        assert(spec_op_swap(s).1 =~= p + (seq![s[n - 1]] + seq![s[n - 2]]));
        vstd::seq_lib::lemma_seq_union_to_multiset_commutative(seq![s[n - 2]], seq![s[n - 1]]);
    }
    if n >= 3 {
        let p = s.subrange(0, n - 3);
        let a = seq![s[n - 3]];
        let b = seq![s[n - 2], s[n - 1]];
        assert(s =~= p + (a + b));
        assert(spec_op_rot(s).1 =~= p + (b + a));
        vstd::seq_lib::lemma_seq_union_to_multiset_commutative(a, b);
    }
    if n >= 4 {
        let p = s.subrange(0, n - 4);
        let a = seq![s[n - 4], s[n - 3]];
        let b = seq![s[n - 2], s[n - 1]];
        assert(s =~= p + (a + b));
        assert(spec_op_2swap(s).1 =~= p + (b + a));
        vstd::seq_lib::lemma_seq_union_to_multiset_commutative(a, b);
    }
    if n >= 6 {
        let p = s.subrange(0, n - 6);
        let a = seq![s[n - 6], s[n - 5]];
        let b = seq![s[n - 4], s[n - 3], s[n - 2], s[n - 1]];
        assert(s =~= p + (a + b));
        assert(spec_op_2rot(s).1 =~= p + (b + a));
        vstd::seq_lib::lemma_seq_union_to_multiset_commutative(a, b);
    }
}

/// A successful roll only reorders the entries below the popped number.
pub proof fn law_roll_keeps_entries(s: Seq<StackEntry>)
    requires
        spec_op_roll(s).0,
    ensures
        spec_op_roll(s).1.to_multiset() == s.drop_last().to_multiset(),
{
    broadcast use vstd::multiset::group_multiset_axioms;

    let rest = s.drop_last();
    let m = rest.len() as int;
    let k = s.last()->Num_0;
    let i = m - 1 - k;
    vstd::seq_lib::to_multiset_remove(rest, i);
    vstd::seq_lib::to_multiset_build(rest.remove(i), rest[i]);
    vstd::seq_lib::to_multiset_contains(rest, rest[i]);
    assert(rest.contains(rest[i]));
    assert(rest.to_multiset().remove(rest[i]).insert(rest[i]) =~= rest.to_multiset());
}

/// The depth opcode pushes the number of items the stack held.
pub proof fn law_depth_counts(s: Seq<StackEntry>)
    ensures
        spec_op_depth(s).1.len() == s.len() + 1,
        spec_op_depth(s).1.drop_last() == s,
        spec_op_depth(s).1.last() == StackEntry::Num(s.len() as usize),
{
    assert(spec_op_depth(s).1.drop_last() =~= s);
}

/// Entry equality is reflexive and symmetric.
pub proof fn law_same_entry_equivalence(a: StackEntry, b: StackEntry)
    ensures
        same_entry(a, a),
        same_entry(a, b) == same_entry(b, a),
{
}

/// An entry compared with its duplicate is equal: duplicating the top and
/// verifying equality succeeds and leaves the stack as it was.
pub proof fn law_dup_then_equalverify(s: Seq<StackEntry>)
    requires
        s.len() >= 1,
    ensures
        same_opt_entry(entry_below_top(spec_op_dup(s).1, 0), entry_below_top(spec_op_dup(s).1, 1)),
        spec_op_dup(s).1.subrange(0, spec_op_dup(s).1.len() - 2) == s.drop_last(),
{
    let t = spec_op_dup(s).1;
    assert(t.subrange(0, t.len() - 2) =~= s.drop_last());
}

/// The order of the top two entries does not change what equalverify decides.
pub proof fn law_equalverify_symmetric(s: Seq<StackEntry>)
    requires
        s.len() >= 2,
    ensures
        same_opt_entry(entry_below_top(spec_op_swap(s).1, 0), entry_below_top(spec_op_swap(s).1, 1))
            == same_opt_entry(entry_below_top(s, 0), entry_below_top(s, 1)),
{
}

/// No more signatures can match than were given, so a multisig that asks for
/// more signatures than it is handed fails.
pub proof fn law_matched_at_most_given(data: Seq<char>, sigs: Seq<crate::entry::Signature>, keys: Seq<crate::entry::PublicKey>)
    ensures
        matched_signatures(data, sigs, keys) <= sigs.len(),
    decreases sigs.len(),
{
    if sigs.len() > 0 {
        law_matched_at_most_given(data, sigs.drop_last(), keys);
    }
}

/// Adding keys never lowers the number of matched signatures.
pub proof fn law_more_keys_match_no_fewer(
    data: Seq<char>,
    sigs: Seq<crate::entry::Signature>,
    keys: Seq<crate::entry::PublicKey>,
    extra: Seq<crate::entry::PublicKey>,
)
    ensures
        matched_signatures(data, sigs, keys) <= matched_signatures(data, sigs, keys + extra),
    decreases sigs.len(),
{
    if sigs.len() > 0 {
        law_more_keys_match_no_fewer(data, sigs.drop_last(), keys, extra);
        if signs_for_some_key(data, sigs.last(), keys) {
            let j = choose|j: int| 0 <= j < keys.len() && crate::crypto::ed25519_verifies(sigs.last().0@, data, #[trigger] keys[j].0@);
            assert((keys + extra)[j] == keys[j]);
        }
    }
}

/// A one-of-one multisig decides as a single signature check: on the stack
/// `data, sig, 1, key, 1` (top last) it succeeds exactly when the signature
/// check of `data, sig, key` does, and both leave the entries below.
pub proof fn law_one_of_one_multisig_is_checksig(
    p: Seq<StackEntry>,
    data: String,
    sig: crate::entry::Signature,
    key: crate::entry::PublicKey,
)
    ensures
        multisig_well_formed(
            p + seq![StackEntry::Bytes(data), StackEntry::Signature(sig), StackEntry::Num(1), StackEntry::PubKey(key), StackEntry::Num(1)],
        ),
        spec_op_multisig(
            p + seq![StackEntry::Bytes(data), StackEntry::Signature(sig), StackEntry::Num(1), StackEntry::PubKey(key), StackEntry::Num(1)],
        ) == (
            signature_triple_valid(p + seq![StackEntry::Bytes(data), StackEntry::Signature(sig), StackEntry::PubKey(key)]),
            p,
        ),
        has_signature_triple(p + seq![StackEntry::Bytes(data), StackEntry::Signature(sig), StackEntry::PubKey(key)]),
{
    let s = p + seq![StackEntry::Bytes(data), StackEntry::Signature(sig), StackEntry::Num(1), StackEntry::PubKey(key), StackEntry::Num(1)];
    let s1 = s.drop_last();
    let s2 = p + seq![StackEntry::Bytes(data), StackEntry::Signature(sig), StackEntry::Num(1)];
    let s3 = p + seq![StackEntry::Bytes(data), StackEntry::Signature(sig)];
    let s4 = p + seq![StackEntry::Bytes(data)];
    assert(s1.drop_last() =~= s2);
    assert(top_run(s2, Run::PubKeys) == 0);
    assert(top_run(s1, Run::PubKeys) == 1);
    assert(s1.subrange(0, s1.len() - 1) =~= s2);
    assert(s2.drop_last() =~= s3);
    assert(s3.drop_last() =~= s4);
    assert(top_run(s4, Run::Signatures) == 0);
    assert(top_run(s3, Run::Signatures) == 1);
    assert(nth_from_top(s3, 1) == StackEntry::Bytes(data));
    assert(s3.subrange(0, s3.len() - 1 - 1) =~= p);
    let keys = Seq::new(1, |i: int| nth_from_top(s1, i)->PubKey_0);
    let sigs = Seq::new(1, |i: int| nth_from_top(s3, i)->Signature_0);
    assert(keys =~= seq![key]);
    assert(sigs =~= seq![sig]);
    assert(sigs.drop_last() =~= Seq::<crate::entry::Signature>::empty());
    if crate::crypto::ed25519_verifies(sig.0@, data@, key.0@) {
        assert(keys[0] == key);
        assert(signs_for_some_key(data@, sigs.last(), keys));
    }
    assert(matched_signatures(data@, sigs.drop_last(), keys) == 0);
    assert(sigs.last() == sig);
    assert(matched_signatures(data@, sigs, keys) == if signs_for_some_key(data@, sig, keys) { 1nat } else { 0nat });
}

} // verus!
