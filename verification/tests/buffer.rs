use magnetic::buffer::{Buffer, DynamicBuffer, StaticBuffer};

fn test_at<B: Buffer<i32>>(buf: &mut B) {
    let size = buf.size();
    for i in 0..size {
        buf.put_at(i, i as i32);
    }
    for i in 0..size {
        // logical index i and i + size resolve to the same slot
        assert_eq!(*buf.at(i), Some(i as i32));
        assert_eq!(*buf.at(size + i), Some(i as i32));
        // neighbouring logical indices resolve to distinct slots
        assert_ne!(*buf.at(i), *buf.at(i + 1));
    }
    // taking through a wrapped index empties the underlying slot
    let first = buf.take_at(size);
    assert_eq!(first, Some(0));
    assert_eq!(*buf.at(0), None);
    assert_eq!(*buf.at(1), Some(1));
}

#[test]
fn bad_buf() {
    assert!(StaticBuffer::<u8, 0>::new().is_err());
}

#[test]
fn static_buf() {
    let mut buf = StaticBuffer::<i32, 3>::new().unwrap();
    assert_eq!(buf.size(), 3);
    test_at(&mut buf);
}

#[test]
fn bad_dynamic_buf() {
    assert!(DynamicBuffer::<u8>::new(0).is_err());
}

#[test]
fn dynamic_buf() {
    let mut buf = DynamicBuffer::<i32>::new(3).unwrap();
    assert_eq!(buf.size(), 3);
    test_at(&mut buf);
}
