use script_ops::{
    op_2drop, op_2dup, op_2over, op_2rot, op_2swap, op_3dup, op_depth, op_drop, op_dup, op_ifdup,
    op_nip, op_over, op_pick, op_roll, op_rot, op_swap, op_tuck, push_entry_to_stack,
    push_entry_to_stack_ref, OpCodes, StackEntry,
};

fn nums(values: &[usize]) -> Vec<StackEntry> {
    values.iter().map(|v| StackEntry::Num(*v)).collect()
}

#[test]
fn test_2drop() {
    // op_2drop([1,2,3,4,5,6]) -> [1,2,3,4]
    let mut current_stack: Vec<StackEntry> = Vec::new();
    for i in 1..=6 {
        current_stack.push(StackEntry::Num(i));
    }
    let mut v: Vec<StackEntry> = Vec::new();
    for i in 1..=4 {
        v.push(StackEntry::Num(i));
    }
    op_2drop(&mut current_stack);
    assert_eq!(current_stack, v)
}

#[test]
fn test_2dup() {
    // op_2dup([1,2,3,4,5,6]) -> [1,2,3,4,5,6,5,6]
    let mut current_stack: Vec<StackEntry> = Vec::new();
    for i in 1..=6 {
        current_stack.push(StackEntry::Num(i));
    }
    let mut v: Vec<StackEntry> = Vec::new();
    for i in 1..=6 {
        v.push(StackEntry::Num(i));
    }
    v.push(StackEntry::Num(5));
    v.push(StackEntry::Num(6));
    op_2dup(&mut current_stack);
    assert_eq!(current_stack, v)
}

#[test]
fn test_3dup() {
    // op_3dup([1,2,3,4,5,6]) -> [1,2,3,4,5,6,4,5,6]
    let mut current_stack: Vec<StackEntry> = Vec::new();
    for i in 1..=6 {
        current_stack.push(StackEntry::Num(i));
    }
    let mut v: Vec<StackEntry> = Vec::new();
    for i in 1..=6 {
        v.push(StackEntry::Num(i));
    }
    v.push(StackEntry::Num(4));
    v.push(StackEntry::Num(5));
    v.push(StackEntry::Num(6));
    op_3dup(&mut current_stack);
    assert_eq!(current_stack, v)
}

#[test]
fn test_2over() {
    // op_2over([1,2,3,4,5,6]) -> [1,2,3,4,5,6,3,4]
    let mut current_stack: Vec<StackEntry> = Vec::new();
    for i in 1..=6 {
        current_stack.push(StackEntry::Num(i));
    }
    let mut v: Vec<StackEntry> = Vec::new();
    for i in 1..=6 {
        v.push(StackEntry::Num(i));
    }
    v.push(StackEntry::Num(3));
    v.push(StackEntry::Num(4));
    op_2over(&mut current_stack);
    assert_eq!(current_stack, v)
}

#[test]
fn test_2rot() {
    // op_2rot([1,2,3,4,5,6]) -> [3,4,5,6,1,2]
    let mut current_stack: Vec<StackEntry> = Vec::new();
    for i in 1..=6 {
        current_stack.push(StackEntry::Num(i));
    }
    let mut v: Vec<StackEntry> = Vec::new();
    for i in 3..=6 {
        v.push(StackEntry::Num(i));
    }
    v.push(StackEntry::Num(1));
    v.push(StackEntry::Num(2));
    op_2rot(&mut current_stack);
    assert_eq!(current_stack, v)
}

#[test]
fn test_2swap() {
    // op_2swap([1,2,3,4,5,6]) -> [1,2,5,6,3,4]
    let mut current_stack: Vec<StackEntry> = Vec::new();
    for i in 1..=6 {
        current_stack.push(StackEntry::Num(i));
    }
    let mut v: Vec<StackEntry> = Vec::new();
    for i in 1..=2 {
        v.push(StackEntry::Num(i));
    }
    v.push(StackEntry::Num(5));
    v.push(StackEntry::Num(6));
    v.push(StackEntry::Num(3));
    v.push(StackEntry::Num(4));
    op_2swap(&mut current_stack);
    assert_eq!(current_stack, v)
}

#[test]
fn test_ifdup() {
    // op_ifdup([1,2,3,4,5,6]) -> [1,2,3,4,5,6,6]
    let mut current_stack: Vec<StackEntry> = Vec::new();
    for i in 1..=6 {
        current_stack.push(StackEntry::Num(i));
    }
    let mut v: Vec<StackEntry> = Vec::new();
    for i in 1..=6 {
        v.push(StackEntry::Num(i));
    }
    v.push(StackEntry::Num(6));
    op_ifdup(&mut current_stack);
    assert_eq!(current_stack, v);
    // op_ifdup([1,2,3,4,5,6,0]) -> [1,2,3,4,5,6,0]
    let mut current_stack: Vec<StackEntry> = Vec::new();
    for i in 1..=6 {
        current_stack.push(StackEntry::Num(i));
    }
    current_stack.push(StackEntry::Num(0));
    let mut v: Vec<StackEntry> = Vec::new();
    for i in 1..=6 {
        v.push(StackEntry::Num(i));
    }
    v.push(StackEntry::Num(0));
    op_ifdup(&mut current_stack);
    assert_eq!(current_stack, v)
}

#[test]
fn test_depth() {
    // op_depth([1,1,1,1,1,1]) -> [1,1,1,1,1,1,6]
    let mut current_stack: Vec<StackEntry> = Vec::new();
    for _i in 1..=6 {
        current_stack.push(StackEntry::Num(1));
    }
    let mut v: Vec<StackEntry> = Vec::new();
    for _i in 1..=6 {
        v.push(StackEntry::Num(1));
    }
    v.push(StackEntry::Num(6));
    op_depth(&mut current_stack);
    assert_eq!(current_stack, v)
}

#[test]
fn test_drop() {
    // op_drop([1,2,3,4,5,6]) -> [1,2,3,4,5]
    let mut current_stack: Vec<StackEntry> = Vec::new();
    for i in 1..=6 {
        current_stack.push(StackEntry::Num(i));
    }
    let mut v: Vec<StackEntry> = Vec::new();
    for i in 1..=5 {
        v.push(StackEntry::Num(i));
    }
    op_drop(&mut current_stack);
    assert_eq!(current_stack, v)
}

#[test]
fn test_dup() {
    // op_dup([1,2,3,4,5,6]) -> [1,2,3,4,5,6,6]
    let mut current_stack: Vec<StackEntry> = Vec::new();
    for i in 1..=6 {
        current_stack.push(StackEntry::Num(i));
    }
    let mut v: Vec<StackEntry> = Vec::new();
    for i in 1..=6 {
        v.push(StackEntry::Num(i));
    }
    v.push(StackEntry::Num(6));
    op_dup(&mut current_stack);
    assert_eq!(current_stack, v)
}

#[test]
fn test_nip() {
    // op_nip([1,2,3,4,5,6]) -> [1,2,3,4,6]
    let mut current_stack: Vec<StackEntry> = Vec::new();
    for i in 1..=6 {
        current_stack.push(StackEntry::Num(i));
    }
    let mut v: Vec<StackEntry> = Vec::new();
    for i in 1..=4 {
        v.push(StackEntry::Num(i));
    }
    v.push(StackEntry::Num(6));
    op_nip(&mut current_stack);
    assert_eq!(current_stack, v)
}

#[test]
fn test_over() {
    // op_over([1,2,3,4,5,6]) -> [1,2,3,4,5,6,5]
    let mut current_stack: Vec<StackEntry> = Vec::new();
    for i in 1..=6 {
        current_stack.push(StackEntry::Num(i));
    }
    let mut v: Vec<StackEntry> = Vec::new();
    for i in 1..=6 {
        v.push(StackEntry::Num(i));
    }
    v.push(StackEntry::Num(5));
    op_over(&mut current_stack);
    assert_eq!(current_stack, v)
}

#[test]
fn test_pick() {
    // op_pick([1,2,3,4,5,6,2]) -> [1,2,3,4,5,6,4]
    let mut current_stack: Vec<StackEntry> = Vec::new();
    for i in 1..=6 {
        current_stack.push(StackEntry::Num(i));
    }
    current_stack.push(StackEntry::Num(2));
    let mut v: Vec<StackEntry> = Vec::new();
    for i in 1..=6 {
        v.push(StackEntry::Num(i));
    }
    v.push(StackEntry::Num(4));
    op_pick(&mut current_stack);
    assert_eq!(current_stack, v)
}

#[test]
fn test_roll() {
    // op_roll([1,2,3,4,5,6,2]) -> [1,2,3,5,6,4]
    let mut current_stack: Vec<StackEntry> = Vec::new();
    for i in 1..=6 {
        current_stack.push(StackEntry::Num(i));
    }
    current_stack.push(StackEntry::Num(2));
    let mut v: Vec<StackEntry> = Vec::new();
    for i in 1..=3 {
        v.push(StackEntry::Num(i));
    }
    v.push(StackEntry::Num(5));
    v.push(StackEntry::Num(6));
    v.push(StackEntry::Num(4));
    op_roll(&mut current_stack);
    assert_eq!(current_stack, v)
}

#[test]
fn test_rot() {
    // op_rot([1,2,3,4,5,6]) -> [1,2,3,5,6,4]
    let mut current_stack: Vec<StackEntry> = Vec::new();
    for i in 1..=6 {
        current_stack.push(StackEntry::Num(i));
    }
    let mut v: Vec<StackEntry> = Vec::new();
    for i in 1..=3 {
        v.push(StackEntry::Num(i));
    }
    v.push(StackEntry::Num(5));
    v.push(StackEntry::Num(6));
    v.push(StackEntry::Num(4));
    op_rot(&mut current_stack);
    assert_eq!(current_stack, v)
}

#[test]
fn test_swap() {
    // op_swap([1,2,3,4,5,6]) -> [1,2,3,4,6,5]
    let mut current_stack: Vec<StackEntry> = Vec::new();
    for i in 1..=6 {
        current_stack.push(StackEntry::Num(i));
    }
    let mut v: Vec<StackEntry> = Vec::new();
    for i in 1..=4 {
        v.push(StackEntry::Num(i));
    }
    v.push(StackEntry::Num(6));
    v.push(StackEntry::Num(5));
    op_swap(&mut current_stack);
    assert_eq!(current_stack, v)
}

#[test]
fn test_tuck() {
    // op_tuck([1,2,3,4,5,6]) -> [1,2,3,4,6,5,6]
    let mut current_stack: Vec<StackEntry> = Vec::new();
    for i in 1..=6 {
        current_stack.push(StackEntry::Num(i));
    }
    let mut v: Vec<StackEntry> = Vec::new();
    for i in 1..=4 {
        v.push(StackEntry::Num(i));
    }
    v.push(StackEntry::Num(6));
    v.push(StackEntry::Num(5));
    v.push(StackEntry::Num(6));
    op_tuck(&mut current_stack);
    assert_eq!(current_stack, v)
}

// ---- results and failures ----

#[test]
fn ops_report_success_on_a_deep_stack() {
    let ops: [fn(&mut Vec<StackEntry>) -> bool; 17] = [
        op_2drop, op_2dup, op_3dup, op_2over, op_2rot, op_2swap, op_depth, op_drop, op_dup,
        op_ifdup, op_nip, op_over, op_rot, op_swap, op_tuck, op_pick, op_roll,
    ];
    for op in ops.iter() {
        let mut s = nums(&[1, 2, 3, 4, 5, 6, 1]);
        assert!(op(&mut s));
    }
}

#[test]
fn ops_fail_and_keep_a_short_stack() {
    let cases: [(fn(&mut Vec<StackEntry>) -> bool, usize); 14] = [
        (op_2drop, 2),
        (op_2dup, 2),
        (op_3dup, 3),
        (op_2over, 4),
        (op_2rot, 6),
        (op_2swap, 4),
        (op_drop, 1),
        (op_dup, 1),
        (op_ifdup, 1),
        (op_nip, 2),
        (op_over, 2),
        (op_rot, 3),
        (op_swap, 2),
        (op_tuck, 2),
    ];
    for (op, needed) in cases.iter() {
        let short: Vec<usize> = (1..*needed).collect();
        let mut s = nums(&short);
        assert!(!op(&mut s));
        assert_eq!(s, nums(&short));
    }
}

#[test]
fn depth_of_empty_stack_is_zero() {
    let mut s: Vec<StackEntry> = Vec::new();
    assert!(op_depth(&mut s));
    assert_eq!(s, nums(&[0]));
}

#[test]
fn pick_fails_on_short_stack_without_popping() {
    let mut s = nums(&[0]);
    assert!(!op_pick(&mut s));
    assert_eq!(s, nums(&[0]));
}

#[test]
fn pick_fails_when_index_out_of_range_and_pops_it() {
    let mut s = nums(&[7, 8, 2]);
    assert!(!op_pick(&mut s));
    assert_eq!(s, nums(&[7, 8]));
}

#[test]
fn pick_fails_when_top_is_no_number_and_pops_it() {
    let mut s = nums(&[7, 8]);
    s.push(StackEntry::Op(OpCodes::OP_0));
    assert!(!op_pick(&mut s));
    assert_eq!(s, nums(&[7, 8]));
}

#[test]
fn pick_of_deepest_item() {
    let mut s = nums(&[7, 8, 9, 2]);
    assert!(op_pick(&mut s));
    assert_eq!(s, nums(&[7, 8, 9, 7]));
}

#[test]
fn roll_fails_when_index_out_of_range_and_pops_it() {
    let mut s = nums(&[7, 8, 5]);
    assert!(!op_roll(&mut s));
    assert_eq!(s, nums(&[7, 8]));
}

#[test]
fn roll_fails_when_top_is_no_number_and_pops_it() {
    let mut s = nums(&[7, 8]);
    s.push(StackEntry::Bytes("x".to_string()));
    assert!(!op_roll(&mut s));
    assert_eq!(s, nums(&[7, 8]));
}

#[test]
fn roll_of_deepest_item() {
    let mut s = nums(&[7, 8, 9, 2]);
    assert!(op_roll(&mut s));
    assert_eq!(s, nums(&[8, 9, 7]));
}

#[test]
fn ifdup_keeps_non_numbers() {
    let mut s = vec![StackEntry::Bytes("0".to_string())];
    assert!(op_ifdup(&mut s));
    assert_eq!(s, vec![StackEntry::Bytes("0".to_string()), StackEntry::Bytes("0".to_string())]);
}

#[test]
fn push_entries() {
    let mut s = nums(&[1]);
    assert!(push_entry_to_stack(StackEntry::PubKeyHash("ab".to_string()), &mut s));
    let e = StackEntry::Bytes("cd".to_string());
    assert!(push_entry_to_stack_ref(&e, &mut s));
    assert_eq!(
        s,
        vec![StackEntry::Num(1), StackEntry::PubKeyHash("ab".to_string()), StackEntry::Bytes("cd".to_string())]
    );
}

#[test]
fn duplicate_and_equals() {
    let entries = vec![
        StackEntry::Op(OpCodes::OP_DUP),
        StackEntry::Num(3),
        StackEntry::Bytes("b".to_string()),
        StackEntry::PubKeyHash("b".to_string()),
        StackEntry::PubKey(script_ops::PublicKey([1u8; 32])),
        StackEntry::Signature(script_ops::Signature([2u8; 64])),
    ];
    for (i, a) in entries.iter().enumerate() {
        assert_eq!(a.duplicate(), *a);
        for (j, b) in entries.iter().enumerate() {
            assert_eq!(a.equals(b), i == j);
        }
    }
    let mut key = [1u8; 32];
    key[31] = 0;
    assert!(!StackEntry::PubKey(script_ops::PublicKey([1u8; 32])).equals(&StackEntry::PubKey(script_ops::PublicKey(key))));
}
