use staged_builder::{build, Data};

#[test]
fn one_value_is_stored_as_it_is() {
    assert_eq!(build().aa(0).bb(0).cc(42).go().c, 42);
}

#[test]
fn k_values_are_summed() {
    let data = build().aa(1).bb(1).cc(2).cc(3).cc(5).cc(7).cc(11).go();
    assert_eq!(data.c, 2 + 3 + 5 + 7 + 11);
    assert_eq!(data, Data { a: 1, b: 1, c: 28 });
}

#[test]
fn a_loop_of_calls_sums_up() {
    let mut builder = build().aa(1).bb(2).cc(0);
    let mut expected = 0;
    let mut v = 1;
    while v <= 100 {
        builder = builder.cc(v);
        expected += v;
        v += 1;
    }
    assert_eq!(expected, 5050);
    assert_eq!(builder.go(), Data { a: 1, b: 2, c: 5050 });
}

#[test]
fn zero_counts_as_a_value() {
    let data = build().cc(0).aa(0).bb(0).go();
    assert_eq!(data, Data { a: 0, b: 0, c: 0 });
}

#[test]
fn adding_zero_changes_nothing() {
    let data = build().cc(9).cc(0).cc(0).aa(1).bb(2).go();
    assert_eq!(data, Data { a: 1, b: 2, c: 9 });
}

#[test]
fn the_sum_may_reach_the_largest_word() {
    let data = build().aa(usize::MAX).bb(usize::MAX).cc(usize::MAX - 5).cc(2).cc(3).go();
    assert_eq!(data, Data { a: usize::MAX, b: usize::MAX, c: usize::MAX });
}

#[test]
fn the_first_value_may_be_the_largest_word() {
    let data = build().cc(usize::MAX).cc(0).aa(1).bb(2).go();
    assert_eq!(data.c, usize::MAX);
}

#[test]
fn required_values_are_not_summed_with_anything() {
    let data = build().cc(5).aa(8).cc(5).bb(13).cc(5).go();
    assert_eq!(data.a, 8);
    assert_eq!(data.b, 13);
    assert_eq!(data.c, 15);
}
