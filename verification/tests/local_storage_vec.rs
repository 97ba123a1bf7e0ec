use workbook::local_storage_vec::LocalStorageVec;

#[test]
fn test_new() {
    let vec: LocalStorageVec<usize, 10> = LocalStorageVec::new();
    assert!(matches!(vec, LocalStorageVec::Stack { buf: _, len: 0 }));
}

#[test]
fn test_len() {
    let vec: LocalStorageVec<_, 3> = LocalStorageVec::from([0, 1, 2]);
    assert_eq!(vec.len(), 3);
    let vec: LocalStorageVec<_, 2> = LocalStorageVec::from([0, 1, 2]);
    assert_eq!(vec.len(), 3);
}

#[test]
fn test_push() {
    let mut vec: LocalStorageVec<_, 128> = LocalStorageVec::new();
    for value in 0..128 {
        vec.push(value);
    }
    assert!(matches!(vec, LocalStorageVec::Stack { len: 128, .. }));

    for value in 128..256 {
        vec.push(value);
    }
    assert!(matches!(vec, LocalStorageVec::Heap(v) if v.len() == 256))
}

#[test]
fn test_pop() {
    let mut vec: LocalStorageVec<_, 128> = LocalStorageVec::from([0; 128]);
    for _ in 0..128 {
        assert_eq!(vec.pop(), Some(0))
    }
    assert_eq!(vec.pop(), None);

    let mut vec: LocalStorageVec<_, 128> = LocalStorageVec::from([0; 256]);
    for _ in 0..256 {
        assert_eq!(vec.pop(), Some(0))
    }
    assert_eq!(vec.pop(), None);
}

#[test]
fn test_from_array() {
    let vec: LocalStorageVec<usize, 10> = LocalStorageVec::from([1, 2, 3]);
    assert!(matches!(vec, LocalStorageVec::Stack { .. }));

    let vec: LocalStorageVec<usize, 2> = LocalStorageVec::from([1, 2, 3]);
    assert!(matches!(vec, LocalStorageVec::Heap(_)));
}

#[test]
fn test_index() {
    let vec: LocalStorageVec<i32, 10> = LocalStorageVec::from([0, 1, 2, 3, 4, 5]);
    assert_eq!(vec[1], 1);
    assert_eq!(vec[0..2], [0, 1]);
    assert_eq!(vec[1..3], [1, 2]);
}

#[test]
fn push_at_capacity_moves_to_heap_and_keeps_order() {
    let mut vec: LocalStorageVec<u32, 3> = LocalStorageVec::new();
    vec.push(7);
    vec.push(8);
    vec.push(9);
    assert!(matches!(vec, LocalStorageVec::Stack { len: 3, .. }));
    assert_eq!(vec[0..3], [7, 8, 9]);
    vec.push(10);
    assert!(matches!(&vec, LocalStorageVec::Heap(v) if v.len() == 4));
    assert_eq!(vec.len(), 4);
    assert_eq!(vec[0..4], [7, 8, 9, 10]);
}

#[test]
fn pop_at_boundary_moves_back_inline_once() {
    let mut vec: LocalStorageVec<u32, 3> = LocalStorageVec::from([1, 2, 3, 4, 5]);
    assert!(matches!(vec, LocalStorageVec::Heap(_)));
    assert_eq!(vec.pop(), Some(5));
    assert!(matches!(vec, LocalStorageVec::Heap(_)));
    assert_eq!(vec.pop(), Some(4));
    assert!(matches!(vec, LocalStorageVec::Stack { len: 3, .. }));
    assert_eq!(vec[0..3], [1, 2, 3]);
    assert_eq!(vec.pop(), Some(3));
    assert!(matches!(vec, LocalStorageVec::Stack { len: 2, .. }));
    assert_eq!(vec.pop(), Some(2));
    assert_eq!(vec.pop(), Some(1));
    assert!(matches!(vec, LocalStorageVec::Stack { len: 0, .. }));
    assert_eq!(vec.pop(), None);
    assert!(matches!(vec, LocalStorageVec::Stack { len: 0, .. }));
    assert_eq!(vec.len(), 0);
}

#[test]
fn pops_return_pushes_in_reverse_across_the_boundary() {
    let mut vec: LocalStorageVec<i64, 4> = LocalStorageVec::new();
    for value in 0..9 {
        vec.push(value * 10);
    }
    for value in (0..9).rev() {
        assert_eq!(vec.len(), (value + 1) as usize);
        assert_eq!(vec.pop(), Some(value * 10));
    }
    assert_eq!(vec.pop(), None);
    assert_eq!(vec.len(), 0);
}

#[test]
fn reads_agree_between_inline_and_heap() {
    let inline: LocalStorageVec<u8, 8> = LocalStorageVec::from([3, 1, 4, 1, 5]);
    let heap: LocalStorageVec<u8, 2> = LocalStorageVec::from([3, 1, 4, 1, 5]);
    assert!(matches!(inline, LocalStorageVec::Stack { len: 5, .. }));
    assert!(matches!(heap, LocalStorageVec::Heap(_)));
    for i in 0..5 {
        assert_eq!(inline[i], heap[i]);
    }
    for lo in 0..=5 {
        for hi in lo..=5 {
            assert_eq!(inline[lo..hi], heap[lo..hi]);
        }
    }
    assert_eq!(inline[1..4], [1, 4, 1]);
}

#[test]
fn from_array_pads_inline_slots_with_defaults() {
    let vec: LocalStorageVec<u16, 5> = LocalStorageVec::from([9, 8]);
    match vec {
        LocalStorageVec::Stack { buf, len } => {
            assert_eq!(len, 2);
            assert_eq!(buf, [9, 8, 0, 0, 0]);
        }
        LocalStorageVec::Heap(_) => panic!("two elements fit in five slots"),
    }
    let vec: LocalStorageVec<u16, 2> = LocalStorageVec::from([9, 8]);
    assert!(matches!(vec, LocalStorageVec::Stack { buf: [9, 8], len: 2 }));
    let vec: LocalStorageVec<u16, 1> = LocalStorageVec::from([9, 8]);
    assert!(matches!(&vec, LocalStorageVec::Heap(v) if v == &vec![9, 8]));
    let vec: LocalStorageVec<u16, 4> = LocalStorageVec::from_array([6]);
    assert!(matches!(vec, LocalStorageVec::Stack { buf: [6, 0, 0, 0], len: 1 }));
}

#[test]
fn zero_capacity_goes_to_heap_on_first_push() {
    let mut vec: LocalStorageVec<u8, 0> = LocalStorageVec::new();
    assert!(matches!(vec, LocalStorageVec::Stack { len: 0, .. }));
    assert_eq!(vec.pop(), None);
    vec.push(1);
    assert!(matches!(&vec, LocalStorageVec::Heap(v) if v.len() == 1));
    assert_eq!(vec.pop(), Some(1));
    assert!(matches!(vec, LocalStorageVec::Stack { len: 0, .. }));
}
