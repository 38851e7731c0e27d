use array_manipulation::{ArrayAdd, ArrayRemove, FixedSequence};

#[test]
fn concat_then_truncate_round_trip() {
    let a = vec![1, 2, 3, 4];
    let b = vec![5, 6, 7];
    let joined = FixedSequence::from_vec(a.clone()).concat(FixedSequence::from_vec(b.clone()));
    assert_eq!(joined.len(), a.len() + b.len());
    let back_b = joined.truncate_start(a.len());
    assert_eq!(back_b.into_vec(), b);
    let joined_again =
        FixedSequence::from_vec(a.clone()).concat(FixedSequence::from_vec(b.clone()));
    let back_a = joined_again.truncate_end(b.len());
    assert_eq!(back_a.into_vec(), a);
}

#[test]
fn compose_keeps_operand_order() {
    let joined = FixedSequence::from_vec(vec![10, 20]).concat(FixedSequence::from_vec(vec![
        30, 40, 50,
    ]));
    assert_eq!(joined.into_vec(), vec![10, 20, 30, 40, 50]);
    let fronted = FixedSequence::from_vec(vec![10, 20])
        .concat_back(FixedSequence::from_vec(vec![30, 40, 50]));
    assert_eq!(fronted.into_vec(), vec![30, 40, 50, 10, 20]);
}

#[test]
fn truncate_keeps_survivor_order() {
    let kept_tail = FixedSequence::from_vec(vec![9, 8, 7, 6, 5]).truncate_start(2);
    assert_eq!(kept_tail.into_vec(), vec![7, 6, 5]);
    let kept_head = FixedSequence::from_vec(vec![9, 8, 7, 6, 5]).truncate_end(2);
    assert_eq!(kept_head.into_vec(), vec![9, 8, 7]);
}

#[test]
fn truncate_zero_keeps_content() {
    let from_start = FixedSequence::from_vec(vec![1, 2, 3]).truncate_start(0);
    assert_eq!(from_start.into_vec(), vec![1, 2, 3]);
    let from_end = FixedSequence::from_vec(vec![1, 2, 3]).truncate_end(0);
    assert_eq!(from_end.into_vec(), vec![1, 2, 3]);
}

#[test]
fn truncate_all_yields_empty() {
    let from_start = FixedSequence::from_vec(vec![1, 2, 3]).truncate_start(3);
    assert_eq!(from_start.len(), 0);
    let from_end = FixedSequence::from_vec(vec![1, 2, 3]).truncate_end(3);
    assert_eq!(from_end.into_vec(), Vec::<i32>::new());
}

#[test]
fn compose_onto_empty() {
    let empty: FixedSequence<i32> = FixedSequence::from_vec(Vec::new());
    let relabeled = empty.concat(FixedSequence::from_vec(vec![4, 5]));
    assert_eq!(relabeled.into_vec(), vec![4, 5]);
    let empty_again: FixedSequence<i32> = FixedSequence::from_vec(Vec::new());
    let single = empty_again.append(7);
    assert_eq!(single.into_vec(), vec![7]);
}

#[test]
fn sizes_after_each_operation() {
    assert_eq!(FixedSequence::from_vec(vec![1, 2, 3]).append(4).len(), 4);
    assert_eq!(FixedSequence::from_vec(vec![1, 2, 3]).append_back(0).len(), 4);
    assert_eq!(
        FixedSequence::from_vec(vec![1, 2, 3])
            .concat(FixedSequence::from_vec(vec![4, 5]))
            .len(),
        5
    );
    assert_eq!(
        FixedSequence::from_vec(vec![1, 2, 3])
            .concat_back(FixedSequence::from_vec(vec![4, 5]))
            .len(),
        5
    );
    assert_eq!(FixedSequence::from_vec(vec![1, 2, 3]).truncate_start(1).len(), 2);
    assert_eq!(FixedSequence::from_vec(vec![1, 2, 3]).truncate_end(1).len(), 2);
}
