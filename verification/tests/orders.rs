use staged_builder::{build, Allowed, Build, Data, Done, ToDo};

#[test]
fn a_then_b_then_c() {
    let data = build().aa(1).bb(2).cc(3).go();
    assert_eq!(data, Data { a: 1, b: 2, c: 3 });
}

#[test]
fn c_first_and_again_at_the_end() {
    let data = build().cc(1).aa(2).bb(3).cc(4).go();
    assert_eq!(data, Data { a: 2, b: 3, c: 5 });
}

#[test]
fn a_c_b() {
    let data = build().aa(1).cc(2).bb(3).go();
    assert_eq!(data, Data { a: 1, b: 3, c: 2 });
}

#[test]
fn b_a_c() {
    let data = build().bb(1).aa(2).cc(3).go();
    assert_eq!(data, Data { a: 2, b: 1, c: 3 });
}

#[test]
fn c_a_b() {
    let data = build().cc(1).aa(2).bb(3).go();
    assert_eq!(data, Data { a: 2, b: 3, c: 1 });
}

#[test]
fn b_c_a() {
    let data = build().bb(1).cc(2).aa(3).go();
    assert_eq!(data, Data { a: 3, b: 1, c: 2 });
}

#[test]
fn c_b_a() {
    let data = build().cc(1).bb(2).aa(3).go();
    assert_eq!(data, Data { a: 3, b: 2, c: 1 });
}

#[test]
fn c_b_a_c() {
    let data = build().cc(1).bb(2).aa(3).cc(4).go();
    assert_eq!(data, Data { a: 3, b: 2, c: 5 });
}

#[test]
fn every_order_of_the_same_calls_gives_the_same_data() {
    let expected = Data { a: 10, b: 20, c: 30 };
    assert_eq!(build().aa(10).bb(20).cc(30).go(), expected);
    assert_eq!(build().aa(10).cc(30).bb(20).go(), expected);
    assert_eq!(build().bb(20).aa(10).cc(30).go(), expected);
    assert_eq!(build().bb(20).cc(30).aa(10).go(), expected);
    assert_eq!(build().cc(30).aa(10).bb(20).go(), expected);
    assert_eq!(build().cc(30).bb(20).aa(10).go(), expected);
}

#[test]
fn accumulating_calls_may_stand_anywhere() {
    let expected = Data { a: 7, b: 9, c: 6 };
    assert_eq!(build().cc(1).cc(2).cc(3).aa(7).bb(9).go(), expected);
    assert_eq!(build().cc(3).aa(7).cc(2).bb(9).cc(1).go(), expected);
    assert_eq!(build().bb(9).cc(2).aa(7).cc(1).cc(3).go(), expected);
    assert_eq!(build().aa(7).bb(9).cc(3).cc(1).cc(2).go(), expected);
}

#[test]
fn the_type_follows_the_calls() {
    let start: Build<ToDo, ToDo, ToDo> = build();
    let a_set: Build<Done, ToDo, ToDo> = start.aa(1);
    let c_set: Build<Done, ToDo, Allowed> = a_set.cc(2);
    let c_again: Build<Done, ToDo, Allowed> = c_set.cc(3);
    let ready: Build<Done, Done, Allowed> = c_again.bb(4);
    assert_eq!(ready.go(), Data { a: 1, b: 4, c: 5 });
}

#[test]
fn the_default_type_is_the_new_builder() {
    let start: Build = build();
    assert_eq!(start.bb(5).aa(6).cc(7).go(), Data { a: 6, b: 5, c: 7 });
}

#[test]
fn builders_do_not_share_state() {
    let first = build().aa(1);
    let second = build().aa(100);
    let first = first.bb(2).cc(3);
    let second = second.cc(300).bb(200);
    assert_eq!(first.go(), Data { a: 1, b: 2, c: 3 });
    assert_eq!(second.go(), Data { a: 100, b: 200, c: 300 });
}
