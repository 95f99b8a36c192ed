use std::rc::Rc;

use generic_array_struct::builder::Builder;
use generic_array_struct::record::Record;

#[test]
fn start_has_no_field_set() {
    let builder: Builder<u8, 3> = Builder::start();
    assert!(!builder.is_set(0));
    assert!(!builder.is_set(1));
    assert!(!builder.is_set(2));
    assert!(!builder.is_complete());
}

#[test]
fn occupancy_is_the_set_of_indices_touched() {
    let builder: Builder<u8, 4> = Builder::start().set_field(2, 20).set_field(0, 10);
    assert!(builder.is_set(0));
    assert!(!builder.is_set(1));
    assert!(builder.is_set(2));
    assert!(!builder.is_set(3));
    assert!(!builder.is_complete());
    let builder = builder.set_field(3, 30);
    assert!(!builder.is_complete());
    let builder = builder.set_field(1, 40);
    assert!(builder.is_complete());
}

#[test]
fn finalize_returns_what_was_written_where_it_was_written() {
    let builder: Builder<u8, 3> = Builder::start().set_field(2, 3).set_field(0, 1).set_field(1, 2);
    assert!(builder.is_complete());
    assert_eq!(builder.finalize(), Record([1, 2, 3]));
}

#[test]
fn finalize_moves_the_values_without_copying_them() {
    let handles = [Rc::new(0u8), Rc::new(1u8), Rc::new(2u8)];
    let builder: Builder<Rc<u8>, 3> = Builder::start()
        .set_field(1, handles[1].clone())
        .set_field(2, handles[2].clone())
        .set_field(0, handles[0].clone());
    let record = builder.finalize();
    for index in 0..3 {
        assert!(Rc::ptr_eq(record.get(index), &handles[index]));
        assert_eq!(Rc::strong_count(&handles[index]), 2);
    }
    drop(record);
    for handle in &handles {
        assert_eq!(Rc::strong_count(handle), 1);
    }
}

#[test]
fn builder_of_no_fields_is_complete_at_once() {
    let builder: Builder<u8, 0> = Builder::start();
    assert!(builder.is_complete());
    assert_eq!(builder.finalize(), Record([]));
}

#[test]
fn assert_const_colors() {
    let white: Record<u8, 3> =
        Builder::start().set_field(0, 255).set_field(1, 255).set_field(2, 255).finalize();
    let red: Record<u8, 3> =
        Builder::start().set_field(0, 255).set_field(1, 0).set_field(2, 0).finalize();
    let green: Record<u8, 3> =
        Builder::start().set_field(0, 0).set_field(1, 255).set_field(2, 0).finalize();
    let blue: Record<u8, 3> =
        Builder::start().set_field(0, 0).set_field(1, 0).set_field(2, 255).finalize();
    let black: Record<u8, 3> =
        Builder::start().set_field(2, 0).set_field(1, 0).set_field(0, 0).finalize();
    assert_eq!(white.0, [255, 255, 255]);
    assert_eq!(red.0, [255, 0, 0]);
    assert_eq!(green.0, [0, 255, 0]);
    assert_eq!(blue.0, [0, 0, 255]);
    assert_eq!(black.0, [0, 0, 0]);
}

#[test]
fn mem_safety_forget_builder() {
    let a: Record<Vec<i32>, 3> =
        Builder::start().set_field(0, vec![1]).set_field(1, vec![2]).set_field(2, vec![3]).finalize();
    assert_eq!(a.0, [vec![1], vec![2], vec![3]]);
}

#[test]
fn mem_safety_drop_builder() {
    let r = Rc::new(1);
    let a: Builder<Rc<i32>, 3> = Builder::start().set_field(0, r.clone()).set_field(1, r.clone());
    assert_eq!(Rc::strong_count(&r), 3);
    drop(a);
    assert_eq!(Rc::strong_count(&r), 1);
}

#[test]
fn dropping_after_k_of_n_fields_releases_exactly_k() {
    for k in 0..=3usize {
        let handles = [Rc::new(0u8), Rc::new(1u8), Rc::new(2u8)];
        let mut builder: Builder<Rc<u8>, 3> = Builder::start();
        for index in 0..k {
            builder = builder.set_field(index, handles[index].clone());
        }
        for index in 0..3 {
            assert_eq!(Rc::strong_count(&handles[index]), if index < k { 2 } else { 1 });
        }
        drop(builder);
        for handle in &handles {
            assert_eq!(Rc::strong_count(handle), 1);
        }
    }
}

#[test]
fn abandon_after_k_of_n_fields_releases_exactly_k() {
    for k in 0..=3usize {
        let handles = [Rc::new(0u8), Rc::new(1u8), Rc::new(2u8)];
        let mut builder: Builder<Rc<u8>, 3> = Builder::start();
        // set the last k fields, so that the occupied cells are no prefix
        for index in (3 - k)..3 {
            builder = builder.set_field(index, handles[index].clone());
        }
        assert_eq!(builder.abandon(), k);
        for handle in &handles {
            assert_eq!(Rc::strong_count(handle), 1);
        }
    }
}

#[test]
fn clone_builder() {
    let full_r: Builder<u8, 3> = Builder::start().set_field(0, 255u8);
    let yellow = full_r.clone().set_field(1, 255).set_field(2, 0).finalize();
    let purple = full_r.set_field(1, 0).set_field(2, 255).finalize();
    assert_eq!(yellow.0, [255, 255, 0]);
    assert_eq!(purple.0, [255, 0, 255]);
}

#[test]
fn clone_copies_only_the_occupied_cells() {
    let handle = Rc::new(7u8);
    let first: Builder<Rc<u8>, 3> = Builder::start().set_field(1, handle.clone());
    let copy = first.clone();
    assert_eq!(Rc::strong_count(&handle), 3);
    assert!(!copy.is_set(0));
    assert!(copy.is_set(1));
    assert!(!copy.is_set(2));
    drop(first);
    assert_eq!(Rc::strong_count(&handle), 2);
    assert_eq!(copy.abandon(), 1);
    assert_eq!(Rc::strong_count(&handle), 1);
}
