use staged_builder::{build, Data};

#[test]
fn go_twice_gives_equal_data() {
    let ready = build().aa(1).bb(2).cc(3);
    let first = ready.go();
    let second = ready.go();
    assert_eq!(first, second);
    assert_eq!(first, Data { a: 1, b: 2, c: 3 });
}

#[test]
fn go_many_times_gives_equal_data() {
    let ready = build().cc(4).bb(5).aa(6).cc(7);
    let first = ready.go();
    let mut n = 0;
    while n < 10 {
        assert_eq!(ready.go(), first);
        n += 1;
    }
    assert_eq!(first, Data { a: 6, b: 5, c: 11 });
}

#[test]
fn a_finalized_builder_still_accumulates() {
    let ready = build().aa(1).bb(2).cc(3);
    let before = ready.go();
    let ready = ready.cc(10);
    let after = ready.go();
    assert_eq!(before, Data { a: 1, b: 2, c: 3 });
    assert_eq!(after, Data { a: 1, b: 2, c: 13 });
    assert_ne!(before, after);
    assert_eq!(ready.go(), after);
}

#[test]
fn the_data_handed_out_is_a_snapshot() {
    let ready = build().aa(1).bb(2).cc(3);
    let mut snapshot = ready.go();
    snapshot.a = 100;
    snapshot.c = 300;
    assert_eq!(ready.go(), Data { a: 1, b: 2, c: 3 });
}

#[test]
fn new_data_is_all_zero() {
    let data = Data::new();
    assert_eq!(data, Data { a: 0, b: 0, c: 0 });
    assert_eq!(data.a, 0);
    assert_eq!(data.b, 0);
    assert_eq!(data.c, 0);
}

#[test]
fn data_compares_field_by_field() {
    let data = build().aa(1).bb(2).cc(3).go();
    assert_ne!(data, Data { a: 0, b: 2, c: 3 });
    assert_ne!(data, Data { a: 1, b: 0, c: 3 });
    assert_ne!(data, Data { a: 1, b: 2, c: 0 });
    let copy = data;
    assert_eq!(copy, data);
    assert_eq!(format!("{:?}", data), "Data { a: 1, b: 2, c: 3 }");
}
