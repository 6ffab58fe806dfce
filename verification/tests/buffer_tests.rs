use cess_ffi::buffer::Buf;
use cess_ffi::heap::Heap;

#[test]
fn wrap_and_read_back() {
    let mut h = Heap::new();
    let b = Buf::wrap(&mut h, vec![10u8, 20, 30]);
    assert_ne!(b.ptr, 0);
    assert_eq!(b.len, 3);
    assert_eq!(h.read(b.ptr).as_slice(), &[10u8, 20, 30]);
    assert_eq!(h.live_allocations(), 1);
    Buf::release(&mut h, b);
    assert_eq!(h.live_allocations(), 0);
    assert!(!h.is_live(b.ptr));
}

#[test]
fn duplicate_is_independent_of_source_release() {
    let mut h = Heap::new();
    let e = Buf::wrap(&mut h, vec![1u8, 2, 3, 4]);
    let e2 = Buf::duplicate(&mut h, &e);
    assert_ne!(e2.ptr, e.ptr);
    assert_eq!(e2.len, e.len);
    assert_eq!(h.read(e2.ptr).as_slice(), &[1u8, 2, 3, 4]);
    Buf::release(&mut h, e);
    // releasing the source does not affect reads of the duplicate
    assert!(h.is_live(e2.ptr));
    assert_eq!(h.read(e2.ptr).as_slice(), &[1u8, 2, 3, 4]);
    Buf::release(&mut h, e2);
    assert_eq!(h.live_allocations(), 0);
}

#[test]
fn source_is_independent_of_duplicate_release() {
    let mut h = Heap::new();
    let e = Buf::wrap(&mut h, vec![7u8, 8]);
    let e2 = Buf::duplicate(&mut h, &e);
    Buf::release(&mut h, e2);
    // releasing the duplicate does not affect reads of the source
    assert!(h.is_live(e.ptr));
    assert_eq!(h.read(e.ptr).as_slice(), &[7u8, 8]);
    Buf::release(&mut h, e);
    assert_eq!(h.live_allocations(), 0);
}

#[test]
fn zero_length_envelope_is_null_and_noop() {
    let mut h = Heap::new();
    let b = Buf::wrap(&mut h, Vec::new());
    assert_eq!(b.ptr, 0);
    assert_eq!(b.len, 0);
    assert_eq!(h.live_allocations(), 0);
    let d = Buf::duplicate(&mut h, &b);
    assert_eq!(d.ptr, 0);
    assert_eq!(d.len, 0);
    assert_eq!(h.live_allocations(), 0);
    Buf::release(&mut h, b);
    Buf::release(&mut h, d);
    assert_eq!(h.live_allocations(), 0);
}

#[test]
fn wrap_c_string_appends_terminator() {
    let mut h = Heap::new();
    let b = Buf::wrap_c_string(&mut h, &vec![b'h', b'i']);
    assert_ne!(b.ptr, 0);
    assert_eq!(b.len, 3);
    assert_eq!(h.read(b.ptr).as_slice(), &[b'h', b'i', 0u8]);
    Buf::release(&mut h, b);
    assert_eq!(h.live_allocations(), 0);
}

#[test]
fn wrap_c_string_of_empty_message_is_not_null() {
    let mut h = Heap::new();
    let b = Buf::wrap_c_string(&mut h, &Vec::new());
    assert_ne!(b.ptr, 0);
    assert_eq!(b.len, 1);
    assert_eq!(h.read(b.ptr).as_slice(), &[0u8]);
    Buf::release(&mut h, b);
    assert_eq!(h.live_allocations(), 0);
}

#[test]
fn wrapped_buffers_get_distinct_handles() {
    let mut h = Heap::new();
    let a = Buf::wrap(&mut h, vec![1u8]);
    let b = Buf::wrap(&mut h, vec![1u8]);
    assert_ne!(a.ptr, b.ptr);
    assert_eq!(h.live_allocations(), 2);
    Buf::release(&mut h, a);
    Buf::release(&mut h, b);
    assert_eq!(h.live_allocations(), 0);
}
