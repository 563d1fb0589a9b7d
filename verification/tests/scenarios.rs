use bbqueue::{BBQueue, Error};

fn cursors<const N: usize>(q: &BBQueue<'_, N>) -> (usize, usize, usize) {
    (q.track().write(), q.track().read(), q.track().last())
}

#[test]
fn grant_commit_read_release() {
    let mut storage = [0u8; 8];
    let mut q = BBQueue::new(&mut storage);

    let g = q.grant(4).unwrap();
    assert_eq!((g.offset(), g.len()), (0, 4));
    g.buf(&mut q).copy_from_slice(b"ABCD");
    q.commit(4, g);

    let r = q.read().unwrap();
    assert_eq!((r.offset(), r.len()), (0, 4));
    assert_eq!(r.buf(&q), b"ABCD");
    q.release(4, r);

    assert_eq!(cursors(&q), (4, 4, 8));
}

#[test]
fn second_read_is_refused_then_grant_wraps() {
    let mut storage = [0u8; 8];
    let mut q = BBQueue::new(&mut storage);

    let g = q.grant(4).unwrap();
    g.buf(&mut q).copy_from_slice(b"ABCD");
    q.commit(4, g);
    let r = q.read().unwrap();
    q.release(4, r);

    let g = q.grant(4).unwrap();
    assert_eq!((g.offset(), g.len()), (4, 4));
    g.buf(&mut q).copy_from_slice(b"EFGH");
    q.commit(4, g);

    let r = q.read().unwrap();
    assert_eq!((r.offset(), r.len()), (4, 4));
    assert_eq!(r.buf(&q), b"EFGH");

    assert_eq!(q.read(), Err(Error::GrantInProgress));
    assert!(q.track().read_in_progress());

    q.release(4, r);
    assert_eq!(cursors(&q), (8, 8, 8));
    assert!(!q.track().read_in_progress());

    let g = q.grant(1).unwrap();
    assert_eq!((g.offset(), g.len()), (0, 1));
}

#[test]
fn append_is_preferred_to_wrapping() {
    let mut storage = [0u8; 8];
    let mut q = BBQueue::new(&mut storage);

    let g = q.grant(5).unwrap();
    g.buf(&mut q).copy_from_slice(b"abcde");
    q.commit(5, g);
    let r = q.read().unwrap();
    assert_eq!(r.buf(&q), b"abcde");
    q.release(3, r);
    assert_eq!(cursors(&q), (5, 3, 8));

    // 5 + 4 > 8, and wrapping needs 4 < 3
    assert_eq!(q.grant(4), Err(Error::InsufficientSize));
    assert_eq!(cursors(&q), (5, 3, 8));
    assert_eq!(q.track().reserve(), 5);

    // 5 + 2 <= 8: the grant is appended, the queue stays linear
    let g = q.grant(2).unwrap();
    assert_eq!((g.offset(), g.len()), (5, 2));
    assert_eq!(q.track().reserve(), 7);
    g.buf(&mut q).copy_from_slice(b"XY");
    q.commit(2, g);
    assert_eq!(cursors(&q), (7, 3, 8));

    let r = q.read().unwrap();
    assert_eq!((r.offset(), r.len()), (3, 4));
    assert_eq!(r.buf(&q), b"deXY");
}

#[test]
fn inversion_moves_last_and_reader_follows() {
    let mut storage = [0u8; 8];
    let mut q = BBQueue::new(&mut storage);

    let g = q.grant(7).unwrap();
    g.buf(&mut q).copy_from_slice(b"abcdefg");
    q.commit(7, g);
    let r = q.read().unwrap();
    assert_eq!(r.buf(&q), b"abcdefg");
    q.release(3, r);
    assert_eq!(cursors(&q), (7, 3, 8));

    // 7 + 4 > 8, and wrapping needs 4 < 3
    assert_eq!(q.grant(4), Err(Error::InsufficientSize));

    // 7 + 2 > 8 and 2 < 3: the grant wraps to the front
    let g = q.grant(2).unwrap();
    assert_eq!((g.offset(), g.len()), (0, 2));
    assert_eq!(q.track().reserve(), 2);
    assert_eq!(cursors(&q), (7, 3, 8));
    g.buf(&mut q).copy_from_slice(b"XY");
    q.commit(2, g);
    assert_eq!(cursors(&q), (2, 3, 7));

    // the tail that was committed before the writer wrapped
    let r = q.read().unwrap();
    assert_eq!((r.offset(), r.len()), (3, 4));
    assert_eq!(r.buf(&q), b"defg");
    q.release(4, r);
    assert_eq!(cursors(&q), (2, 7, 7));

    // read == last and write < read: the reader starts over at the front
    let r = q.read().unwrap();
    assert_eq!(cursors(&q), (2, 0, 8));
    assert_eq!((r.offset(), r.len()), (0, 2));
    assert_eq!(r.buf(&q), b"XY");
    q.release(2, r);
    assert_eq!(cursors(&q), (2, 2, 8));
}

#[test]
fn grant_max_takes_what_is_there() {
    let mut storage = [0u8; 8];
    let mut q = BBQueue::new(&mut storage);

    let g = q.grant_max(100).unwrap();
    assert_eq!((g.offset(), g.len()), (0, 8));
    assert_eq!(q.track().reserve(), 8);
    q.commit(3, g);
    assert_eq!(q.track().reserve(), 3);
    assert_eq!(q.track().write(), 3);
    assert_eq!(cursors(&q), (3, 0, 8));
}

#[test]
fn bytes_land_in_the_storage() {
    let mut storage = [0u8; 8];
    {
        let mut q = BBQueue::new(&mut storage);
        let g = q.grant(3).unwrap();
        let bytes = g.buf(&mut q);
        assert_eq!(bytes.len(), 3);
        bytes[0] = 1;
        bytes[1] = 2;
        bytes[2] = 3;
        q.commit(2, g);
        let r = q.read().unwrap();
        assert_eq!(r.buf(&q), &[1, 2]);
        q.release(2, r);
    }
    assert_eq!(storage, [1, 2, 3, 0, 0, 0, 0, 0]);
}
