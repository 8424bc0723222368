use extendr_api::ownership::{Ownership, EXTRA_PRESERVATION_SIZE, INITIAL_PRESERVATION_SIZE};

fn run_basic_test() {
    let mut own = Ownership::new();
    assert!(own.check_objects());

    // Two distinct R objects, known by their addresses.
    let sexp1: usize = 0x5610_0000_1000;
    let sexp2: usize = 0x5610_0000_2000;

    own.protect(sexp1);
    assert!(own.check_objects());
    assert_eq!(own.ref_count(sexp1), 1);
    assert_eq!(own.ref_count(sexp2), 0);

    own.protect(sexp1);
    assert!(own.check_objects());
    assert_eq!(own.ref_count(sexp1), 2);
    assert_eq!(own.ref_count(sexp2), 0);

    own.unprotect(sexp1);
    assert!(own.check_objects());
    assert_eq!(own.ref_count(sexp1), 1);
    assert_eq!(own.ref_count(sexp2), 0);

    own.unprotect(sexp1);
    assert!(own.check_objects());
    assert_eq!(own.ref_count(sexp1), 0);
    assert_eq!(own.ref_count(sexp2), 0);

    own.protect(sexp2);
    assert!(own.check_objects());
    assert_eq!(own.ref_count(sexp1), 0);
    assert_eq!(own.ref_count(sexp2), 1);

    own.protect(sexp1);
    assert!(own.check_objects());
    assert_eq!(own.ref_count(sexp1), 1);
    assert_eq!(own.ref_count(sexp2), 1);
}

fn run_collection_test() {
    let mut own = Ownership::new();
    assert!(own.check_objects());

    // Force a garbage collect.
    let test_size = INITIAL_PRESERVATION_SIZE + EXTRA_PRESERVATION_SIZE * 5;

    // Make some test objects.
    let sexps: Vec<usize> = (0..test_size).map(|i| 0x7f00_0000_0000 + 32 * i).collect();

    for (i, sexp) in sexps.iter().enumerate() {
        own.protect(*sexp);
        if i % 2 == 0 {
            own.unprotect(*sexp);
        }
    }

    assert!(own.check_objects());
    own.garbage_collect();
    assert!(own.check_objects());
}

#[test]
fn ownership_basic_test() {
    run_basic_test();
}

#[test]
fn ownership_collection_test() {
    run_collection_test();
}

#[test]
fn test_basic_test() {
    run_basic_test();
}

#[test]
fn test_collection_test() {
    run_collection_test();
}

#[test]
fn protect_fills_slots_in_order_and_reuses_them() {
    let mut own = Ownership::new();
    let a: usize = 0x1000;
    let b: usize = 0x2000;
    let pa = own.protect(a);
    let pb = own.protect(b);
    assert!(!pa.collected && !pb.collected);
    assert_eq!((pa.index, pb.index), (0, 1));
    assert_eq!(own.slot(0), Some(a));
    assert_eq!(own.slot(1), Some(b));
    assert_eq!(own.unprotect(a), Some(0));
    assert_eq!(own.slot(0), None);
    assert!(own.is_tracked(a));
    // A protection after the count dropped to zero fills the old slot again.
    let again = own.protect(a);
    assert_eq!(again.index, 0);
    assert_eq!(own.slot(0), Some(a));
    // Taking two protections and dropping one leaves the slot filled.
    own.protect(b);
    assert_eq!(own.unprotect(b), None);
    assert_eq!(own.ref_count(b), 1);
}

#[test]
fn unprotect_undoes_protect() {
    let mut own = Ownership::new();
    let a: usize = 0x1000;
    own.protect(a);
    let before = own.ref_count(a);
    own.protect(a);
    own.unprotect(a);
    assert_eq!(own.ref_count(a), before);
    assert!(own.check_objects());
}

#[test]
fn full_vector_is_rebuilt_with_live_objects_first() {
    let mut own = Ownership::new();
    for i in 0..INITIAL_PRESERVATION_SIZE {
        own.protect(0x10_0000 + 8 * i);
    }
    for i in 0..INITIAL_PRESERVATION_SIZE / 2 {
        own.unprotect(0x10_0000 + 8 * i);
    }
    assert_eq!(own.max_index(), INITIAL_PRESERVATION_SIZE);
    let p = own.protect(0x9);
    assert!(p.collected);
    assert_eq!(own.max_index(), INITIAL_PRESERVATION_SIZE * 2 + EXTRA_PRESERVATION_SIZE);
    // The live half moved to the front; the new object follows them.
    assert_eq!(p.index, INITIAL_PRESERVATION_SIZE / 2);
    assert!(!own.is_tracked(0x10_0000));
    assert_eq!(own.ref_count(0x10_0000 + 8 * (INITIAL_PRESERVATION_SIZE - 1)), 1);
    assert!(own.check_objects());
}
