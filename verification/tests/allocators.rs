use extendr_api::ralloc::{align_up, RAllocator, Request};
use extendr_api::rawalloc::{Placement, RAllocator as RawAllocator};

#[test]
fn align_up_rounds_to_multiples() {
    assert_eq!(align_up(0, 8), 0);
    assert_eq!(align_up(1, 8), 8);
    assert_eq!(align_up(8, 8), 8);
    assert_eq!(align_up(9, 16), 16);
    assert_eq!(align_up(0x1001, 1), 0x1001);
    assert_eq!(align_up(0x1001, 4096), 0x2000);
}

#[test]
fn transient_requests() {
    let a = RAllocator;
    assert_eq!(a.request(0, 16), Request::Dangling(16));
    assert_eq!(a.request(10, 8), Request::Bytes(17));
    assert_eq!(a.request(1, 1), Request::Bytes(1));
    assert_eq!(a.request(usize::MAX, 2), Request::TooLarge);
    assert_eq!(a.request(usize::MAX, 1), Request::Bytes(usize::MAX));
}

#[test]
fn transient_block_fits_in_request() {
    let a = RAllocator;
    let (size, align) = (10usize, 8usize);
    let total = match a.request(size, align) {
        Request::Bytes(t) => t,
        _ => panic!("expected a byte count"),
    };
    for base in 1000usize..1016 {
        let block = a.place(base, align);
        assert_eq!(block % align, 0);
        assert!(base <= block && block + size <= base + total);
    }
}

#[test]
fn preserved_requests() {
    let a = RawAllocator;
    assert_eq!(a.request(0, 8, 16), Request::Dangling(8));
    assert_eq!(a.request(10, 8, 16), Request::Bytes(33));
    assert_eq!(a.request(usize::MAX - 20, 8, 16), Request::TooLarge);
    assert_eq!(a.request(usize::MAX - 6, 8, 0), Request::TooLarge);
}

#[test]
fn preserved_placement_keeps_header_before_block() {
    let a = RawAllocator;
    let p = a.place(1000, 8, 16);
    assert_eq!(p, Placement { block: 1016, header: 1000, offset: 16 });
    let p = a.place(1001, 64, 16);
    assert_eq!(p, Placement { block: 1024, header: 1008, offset: 23 });
    assert_eq!(a.header_of(p.block, 16), p.header);
    // Offsets are kept in 16 bits.
    let p = a.place(0, 0x2_0000, 16);
    assert_eq!(p.block, 0x2_0000);
    assert_eq!(p.offset, 0);
}
