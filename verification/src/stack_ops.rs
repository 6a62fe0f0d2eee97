use vstd::prelude::*;
use crate::entry::StackEntry;

verus! {

// ---------------------------------------------------------------------------
// What each opcode does to a stack, written over the sequence of its entries
// (the last entry is the top). Each gives the opcode's result and the stack
// it leaves.
// ---------------------------------------------------------------------------

/// `OP_2DROP`: the stack without its top two items; fails on fewer than two.
pub open spec fn spec_op_2drop(s: Seq<StackEntry>) -> (bool, Seq<StackEntry>) {
    if s.len() < 2 {
        (false, s)
    } else {
        (true, s.subrange(0, s.len() - 2))
    }
}

/// `OP_2DUP`: the top two items copied on top; fails on fewer than two.
pub open spec fn spec_op_2dup(s: Seq<StackEntry>) -> (bool, Seq<StackEntry>) {
    let n = s.len() as int;
    if n < 2 {
        (false, s)
    } else {
        (true, s + seq![s[n - 2], s[n - 1]])
    }
}

/// `OP_3DUP`: the top three items copied on top; fails on fewer than three.
pub open spec fn spec_op_3dup(s: Seq<StackEntry>) -> (bool, Seq<StackEntry>) {
    let n = s.len() as int;
    if n < 3 {
        (false, s)
    } else {
        (true, s + seq![s[n - 3], s[n - 2], s[n - 1]])
    }
}

/// `OP_2OVER`: the pair below the top pair copied on top; fails on fewer than four.
pub open spec fn spec_op_2over(s: Seq<StackEntry>) -> (bool, Seq<StackEntry>) {
    let n = s.len() as int;
    if n < 4 {
        (false, s)
    } else {
        (true, s + seq![s[n - 4], s[n - 3]])
    }
}

/// `OP_2ROT`: the fifth and sixth items from the top moved to the top;
/// fails on fewer than six.
pub open spec fn spec_op_2rot(s: Seq<StackEntry>) -> (bool, Seq<StackEntry>) {
    let n = s.len() as int;
    if n < 6 {
        (false, s)
    } else {
        (true, s.subrange(0, n - 6) + seq![s[n - 4], s[n - 3], s[n - 2], s[n - 1], s[n - 6], s[n - 5]])
    }
}

/// `OP_2SWAP`: the top two pairs exchanged; fails on fewer than four.
pub open spec fn spec_op_2swap(s: Seq<StackEntry>) -> (bool, Seq<StackEntry>) {
    let n = s.len() as int;
    if n < 4 {
        (false, s)
    } else {
        (true, s.subrange(0, n - 4) + seq![s[n - 2], s[n - 1], s[n - 4], s[n - 3]])
    }
}

/// `OP_DEPTH`: the number of items pushed on top; never fails.
pub open spec fn spec_op_depth(s: Seq<StackEntry>) -> (bool, Seq<StackEntry>) {
    (true, s.push(StackEntry::Num(s.len() as usize)))
}

/// `OP_DROP`: the stack without its top item; fails on an empty stack.
pub open spec fn spec_op_drop(s: Seq<StackEntry>) -> (bool, Seq<StackEntry>) {
    if s.len() < 1 {
        (false, s)
    } else {
        (true, s.drop_last())
    }
}

/// `OP_DUP`: the top item copied on top; fails on an empty stack.
pub open spec fn spec_op_dup(s: Seq<StackEntry>) -> (bool, Seq<StackEntry>) {
    if s.len() < 1 {
        (false, s)
    } else {
        (true, s.push(s.last()))
    }
}

/// `OP_IFDUP`: the top item copied on top unless it is the number zero;
/// fails on an empty stack.
pub open spec fn spec_op_ifdup(s: Seq<StackEntry>) -> (bool, Seq<StackEntry>) {
    if s.len() < 1 {
        (false, s)
    } else if s.last() == StackEntry::Num(0) {
        (true, s)
    } else {
        (true, s.push(s.last()))
    }
}

/// `OP_NIP`: the second item from the top removed; fails on fewer than two.
pub open spec fn spec_op_nip(s: Seq<StackEntry>) -> (bool, Seq<StackEntry>) {
    let n = s.len() as int;
    if n < 2 {
        (false, s)
    } else {
        (true, s.remove(n - 2))
    }
}

/// `OP_OVER`: the second item from the top copied on top; fails on fewer than two.
pub open spec fn spec_op_over(s: Seq<StackEntry>) -> (bool, Seq<StackEntry>) {
    let n = s.len() as int;
    if n < 2 {
        (false, s)
    } else {
        (true, s.push(s[n - 2]))
    }
}

/// `OP_PICK`: the top item, a number `k`, is popped and the item `k` places
/// below the new top is copied on top. Fails with the stack unchanged on fewer
/// than two items; fails after the pop when the top is no number or `k` does
/// not name an item.
pub open spec fn spec_op_pick(s: Seq<StackEntry>) -> (bool, Seq<StackEntry>) {
    let rest = s.drop_last();
    let m = rest.len() as int;
    if s.len() < 2 {
        (false, s)
    } else {
        match s.last() {
            StackEntry::Num(k) => if k < m {
                (true, rest.push(rest[m - 1 - k]))
            } else {
                (false, rest)
            },
            _ => (false, rest),
        }
    }
}

/// `OP_ROLL`: the top item, a number `k`, is popped and the item `k` places
/// below the new top is moved to the top. Fails as `OP_PICK` does.
pub open spec fn spec_op_roll(s: Seq<StackEntry>) -> (bool, Seq<StackEntry>) {
    let rest = s.drop_last();
    let m = rest.len() as int;
    if s.len() < 2 {
        (false, s)
    } else {
        match s.last() {
            StackEntry::Num(k) => if k < m {
                (true, rest.remove(m - 1 - k).push(rest[m - 1 - k]))
            } else {
                (false, rest)
            },
            _ => (false, rest),
        }
    }
}

/// `OP_ROT`: the third item from the top moved to the top; fails on fewer than three.
pub open spec fn spec_op_rot(s: Seq<StackEntry>) -> (bool, Seq<StackEntry>) {
    let n = s.len() as int;
    if n < 3 {
        (false, s)
    } else {
        (true, s.subrange(0, n - 3) + seq![s[n - 2], s[n - 1], s[n - 3]])
    }
}

/// `OP_SWAP`: the top two items exchanged; fails on fewer than two.
pub open spec fn spec_op_swap(s: Seq<StackEntry>) -> (bool, Seq<StackEntry>) {
    let n = s.len() as int;
    if n < 2 {
        (false, s)
    } else {
        (true, s.subrange(0, n - 2) + seq![s[n - 1], s[n - 2]])
    }
}

/// `OP_TUCK`: the top item copied below the second item from the top;
/// fails on fewer than two.
pub open spec fn spec_op_tuck(s: Seq<StackEntry>) -> (bool, Seq<StackEntry>) {
    let n = s.len() as int;
    if n < 2 {
        (false, s)
    } else {
        (true, s.insert(n - 2, s[n - 1]))
    }
}

/// Exchanges the items at positions `i` and `j`.
fn swap_entries(stack: &mut Vec<StackEntry>, i: usize, j: usize)
    requires
        i < old(stack).len(),
        j < old(stack).len(),
    ensures
        final(stack)@ == old(stack)@.update(i as int, old(stack)@[j as int]).update(
            j as int,
            old(stack)@[i as int],
        ),
{
    let a = stack[i].duplicate();
    let b = stack[j].duplicate();
    stack.set(i, b);
    stack.set(j, a);
}

// ---------------------------------------------------------------------------
// The opcodes.
// ---------------------------------------------------------------------------

/// Handles the execution of the OP_2DROP opcode: removes the top two items.
/// Returns `false`, with the stack unchanged, when it holds fewer than two.
pub fn op_2drop(current_stack: &mut Vec<StackEntry>) -> (r: bool)
    ensures
        r == spec_op_2drop(old(current_stack)@).0,
        final(current_stack)@ == spec_op_2drop(old(current_stack)@).1,
{
    if current_stack.len() < 2 {
        return false;
    }
    current_stack.pop();
    current_stack.pop();
    true
}

/// Handles the execution of the OP_2DUP opcode: duplicates the top two items.
pub fn op_2dup(current_stack: &mut Vec<StackEntry>) -> (r: bool)
    ensures
        r == spec_op_2dup(old(current_stack)@).0,
        final(current_stack)@ == spec_op_2dup(old(current_stack)@).1,
{
    let len = current_stack.len();
    if len < 2 {
        return false;
    }
    let item1 = current_stack[len - 2].duplicate();
    let item2 = current_stack[len - 1].duplicate();
    current_stack.push(item1);
    current_stack.push(item2);
    true
}

/// Handles the execution of the OP_3DUP opcode: duplicates the top three items.
pub fn op_3dup(current_stack: &mut Vec<StackEntry>) -> (r: bool)
    ensures
        r == spec_op_3dup(old(current_stack)@).0,
        final(current_stack)@ == spec_op_3dup(old(current_stack)@).1,
{
    let len = current_stack.len();
    if len < 3 {
        return false;
    }
    let item1 = current_stack[len - 3].duplicate();
    let item2 = current_stack[len - 2].duplicate();
    let item3 = current_stack[len - 1].duplicate();
    current_stack.push(item1);
    current_stack.push(item2);
    current_stack.push(item3);
    true
}

/// Handles the execution of the OP_2OVER opcode: copies the pair of items two
/// spaces back to the top of the stack.
pub fn op_2over(current_stack: &mut Vec<StackEntry>) -> (r: bool)
    ensures
        r == spec_op_2over(old(current_stack)@).0,
        final(current_stack)@ == spec_op_2over(old(current_stack)@).1,
{
    let len = current_stack.len();
    if len < 4 {
        return false;
    }
    let item1 = current_stack[len - 4].duplicate();
    let item2 = current_stack[len - 3].duplicate();
    current_stack.push(item1);
    current_stack.push(item2);
    true
}

/// Handles the execution of the OP_2ROT opcode: moves the fifth and sixth
/// items back to the top of the stack.
pub fn op_2rot(current_stack: &mut Vec<StackEntry>) -> (r: bool)
    ensures
        r == spec_op_2rot(old(current_stack)@).0,
        final(current_stack)@ == spec_op_2rot(old(current_stack)@).1,
{
    let len = current_stack.len();
    if len < 6 {
        return false;
    }
    let item1 = current_stack.remove(len - 6);
    let item2 = current_stack.remove(len - 6);
    current_stack.push(item1);
    current_stack.push(item2);
    assert(current_stack@ =~= spec_op_2rot(old(current_stack)@).1);
    true
}

/// Handles the execution of the OP_2SWAP opcode: swaps the top two pairs of items.
pub fn op_2swap(current_stack: &mut Vec<StackEntry>) -> (r: bool)
    ensures
        r == spec_op_2swap(old(current_stack)@).0,
        final(current_stack)@ == spec_op_2swap(old(current_stack)@).1,
{
    let len = current_stack.len();
    if len < 4 {
        return false;
    }
    swap_entries(current_stack, len - 4, len - 2);
    swap_entries(current_stack, len - 3, len - 1);
    assert(current_stack@ =~= spec_op_2swap(old(current_stack)@).1);
    true
}

/// Handles the execution of the OP_DEPTH opcode: pushes the stack size.
pub fn op_depth(current_stack: &mut Vec<StackEntry>) -> (r: bool)
    ensures
        r == spec_op_depth(old(current_stack)@).0,
        final(current_stack)@ == spec_op_depth(old(current_stack)@).1,
{
    let len = current_stack.len();
    current_stack.push(StackEntry::Num(len));
    true
}

/// Handles the execution of the OP_DROP opcode: removes the top item.
pub fn op_drop(current_stack: &mut Vec<StackEntry>) -> (r: bool)
    ensures
        r == spec_op_drop(old(current_stack)@).0,
        final(current_stack)@ == spec_op_drop(old(current_stack)@).1,
{
    if current_stack.len() < 1 {
        return false;
    }
    current_stack.pop();
    true
}

/// Handles the execution of the OP_DUP opcode: duplicates the top item.
pub fn op_dup(current_stack: &mut Vec<StackEntry>) -> (r: bool)
    ensures
        r == spec_op_dup(old(current_stack)@).0,
        final(current_stack)@ == spec_op_dup(old(current_stack)@).1,
{
    let len = current_stack.len();
    if len < 1 {
        return false;
    }
    let item = current_stack[len - 1].duplicate();
    current_stack.push(item);
    true
}

/// Handles the execution of the OP_IFDUP opcode: duplicates the top item if
/// it is not the number 0.
pub fn op_ifdup(current_stack: &mut Vec<StackEntry>) -> (r: bool)
    ensures
        r == spec_op_ifdup(old(current_stack)@).0,
        final(current_stack)@ == spec_op_ifdup(old(current_stack)@).1,
{
    let len = current_stack.len();
    if len < 1 {
        return false;
    }
    let item = current_stack[len - 1].duplicate();
    let is_zero = match &item {
        StackEntry::Num(n) => *n == 0,
        _ => false,
    };
    if !is_zero {
        current_stack.push(item);
    }
    true
}

/// Handles the execution of the OP_NIP opcode: removes the second-to-top item.
pub fn op_nip(current_stack: &mut Vec<StackEntry>) -> (r: bool)
    ensures
        r == spec_op_nip(old(current_stack)@).0,
        final(current_stack)@ == spec_op_nip(old(current_stack)@).1,
{
    let len = current_stack.len();
    if len < 2 {
        return false;
    }
    current_stack.remove(len - 2);
    true
}

/// Handles the execution of the OP_OVER opcode: copies the second-to-top item
/// to the top of the stack.
pub fn op_over(current_stack: &mut Vec<StackEntry>) -> (r: bool)
    ensures
        r == spec_op_over(old(current_stack)@).0,
        final(current_stack)@ == spec_op_over(old(current_stack)@).1,
{
    let len = current_stack.len();
    if len < 2 {
        return false;
    }
    let item = current_stack[len - 2].duplicate();
    current_stack.push(item);
    true
}

/// Handles the execution of the OP_PICK opcode: copies the n-th item back to
/// the top of the stack, `n` being the number popped from the top.
pub fn op_pick(current_stack: &mut Vec<StackEntry>) -> (r: bool)
    ensures
        r == spec_op_pick(old(current_stack)@).0,
        final(current_stack)@ == spec_op_pick(old(current_stack)@).1,
{
    if current_stack.len() < 2 {
        return false;
    }
    let item = current_stack.pop().unwrap();
    let n = match item {
        StackEntry::Num(num) => num,
        _ => return false,
    };
    let len = current_stack.len();
    if n >= len {
        return false;
    }
    let item = current_stack[len - 1 - n].duplicate();
    current_stack.push(item);
    true
}

/// Handles the execution of the OP_ROLL opcode: moves the n-th item back to
/// the top of the stack, `n` being the number popped from the top.
pub fn op_roll(current_stack: &mut Vec<StackEntry>) -> (r: bool)
    ensures
        r == spec_op_roll(old(current_stack)@).0,
        final(current_stack)@ == spec_op_roll(old(current_stack)@).1,
{
    if current_stack.len() < 2 {
        return false;
    }
    let item = current_stack.pop().unwrap();
    let n = match item {
        StackEntry::Num(num) => num,
        _ => return false,
    };
    let len = current_stack.len();
    if n >= len {
        return false;
    }
    let index = len - 1 - n;
    let item = current_stack.remove(index);
    current_stack.push(item);
    true
}

/// Handles the execution of the OP_ROT opcode: moves the third item back to
/// the top of the stack.
pub fn op_rot(current_stack: &mut Vec<StackEntry>) -> (r: bool)
    ensures
        r == spec_op_rot(old(current_stack)@).0,
        final(current_stack)@ == spec_op_rot(old(current_stack)@).1,
{
    let len = current_stack.len();
    if len < 3 {
        return false;
    }
    swap_entries(current_stack, len - 3, len - 2);
    swap_entries(current_stack, len - 2, len - 1);
    assert(current_stack@ =~= spec_op_rot(old(current_stack)@).1);
    true
}

/// Handles the execution of the OP_SWAP opcode: swaps the top two items.
pub fn op_swap(current_stack: &mut Vec<StackEntry>) -> (r: bool)
    ensures
        r == spec_op_swap(old(current_stack)@).0,
        final(current_stack)@ == spec_op_swap(old(current_stack)@).1,
{
    let len = current_stack.len();
    if len < 2 {
        return false;
    }
    swap_entries(current_stack, len - 2, len - 1);
    assert(current_stack@ =~= spec_op_swap(old(current_stack)@).1);
    true
}

/// Handles the execution of the OP_TUCK opcode: copies the top item before
/// the second-to-top item.
pub fn op_tuck(current_stack: &mut Vec<StackEntry>) -> (r: bool)
    ensures
        r == spec_op_tuck(old(current_stack)@).0,
        final(current_stack)@ == spec_op_tuck(old(current_stack)@).1,
{
    let len = current_stack.len();
    if len < 2 {
        return false;
    }
    let item = current_stack[len - 1].duplicate();
    current_stack.insert(len - 2, item);
    true
}

/// Pushes a new entry to the current stack. Always returns `true`.
pub fn push_entry_to_stack(stack_entry: StackEntry, current_stack: &mut Vec<StackEntry>) -> (r: bool)
    ensures
        r,
        final(current_stack)@ == old(current_stack)@.push(stack_entry),
{
    current_stack.push(stack_entry);
    true
}

/// Pushes a copy of an entry to the current stack. Always returns `true`.
pub fn push_entry_to_stack_ref(stack_entry: &StackEntry, current_stack: &mut Vec<StackEntry>) -> (r: bool)
    ensures
        r,
        final(current_stack)@ == old(current_stack)@.push(*stack_entry),
{
    current_stack.push(stack_entry.duplicate());
    true
}

} // verus!
