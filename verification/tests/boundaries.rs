use bbqueue::{BBQueue, Error};

fn cursors<const N: usize>(q: &BBQueue<'_, N>) -> (usize, usize, usize, usize) {
    (q.track().write(), q.track().read(), q.track().last(), q.track().reserve())
}

/// Commits `n` bytes, each equal to `byte`.
fn push<const N: usize>(q: &mut BBQueue<'_, N>, n: usize, byte: u8) {
    let g = q.grant(n).unwrap();
    g.buf(q).fill(byte);
    q.commit(n, g);
}

/// Reads and releases `n` bytes.
fn pop<const N: usize>(q: &mut BBQueue<'_, N>, n: usize) {
    let r = q.read().unwrap();
    assert!(n <= r.len());
    q.release(n, r);
}

#[test]
fn grant_of_nothing_is_refused() {
    let mut storage = [0u8; 8];
    let mut q = BBQueue::new(&mut storage);
    assert_eq!(q.grant(0), Err(Error::InsufficientSize));
    assert_eq!(q.grant_max(0), Err(Error::InsufficientSize));
    assert_eq!(cursors(&q), (0, 0, 8, 0));

    push(&mut q, 3, 7);
    assert_eq!(q.grant(0), Err(Error::InsufficientSize));
    assert_eq!(q.grant_max(0), Err(Error::InsufficientSize));
    assert_eq!(cursors(&q), (3, 0, 8, 3));
}

#[test]
fn grant_of_nothing_while_granted_is_in_progress() {
    let mut storage = [0u8; 8];
    let mut q = BBQueue::new(&mut storage);
    let g = q.grant(2).unwrap();
    assert_eq!(q.grant(0), Err(Error::GrantInProgress));
    assert_eq!(q.grant_max(0), Err(Error::GrantInProgress));
    q.commit(2, g);
    assert_eq!(q.grant(0), Err(Error::InsufficientSize));
}

#[test]
fn whole_capacity_fills_the_queue() {
    let mut storage = [0u8; 8];
    let mut q = BBQueue::new(&mut storage);

    let g = q.grant(8).unwrap();
    assert_eq!((g.offset(), g.len()), (0, 8));
    g.buf(&mut q).copy_from_slice(b"01234567");
    q.commit(8, g);
    assert_eq!(cursors(&q), (8, 0, 8, 8));

    assert_eq!(q.grant(1), Err(Error::InsufficientSize));
    assert_eq!(q.grant_max(1), Err(Error::InsufficientSize));
    assert_eq!(q.grant(8), Err(Error::InsufficientSize));

    // one byte released: a wrapped grant would have to end before offset 1
    pop(&mut q, 1);
    assert_eq!(q.grant(1), Err(Error::InsufficientSize));
    assert_eq!(q.grant_max(8), Err(Error::InsufficientSize));

    // a second byte released: one byte fits at the front
    pop(&mut q, 1);
    assert_eq!(q.grant(2), Err(Error::InsufficientSize));
    let g = q.grant(1).unwrap();
    assert_eq!((g.offset(), g.len()), (0, 1));
}

#[test]
fn capacity_of_one_more_than_fits() {
    let mut storage = [0u8; 8];
    let mut q = BBQueue::new(&mut storage);
    assert_eq!(q.grant(9), Err(Error::InsufficientSize));
    assert_eq!(q.grant(usize::MAX), Err(Error::InsufficientSize));
    let g = q.grant_max(usize::MAX).unwrap();
    assert_eq!((g.offset(), g.len()), (0, 8));
}

#[test]
fn whole_capacity_needs_the_reader_at_zero() {
    let mut storage = [0u8; 8];
    let mut q = BBQueue::new(&mut storage);
    push(&mut q, 8, 1);
    pop(&mut q, 8);
    assert_eq!(cursors(&q), (8, 8, 8, 8));

    // read > 0: the whole capacity cannot be had in one piece
    assert_eq!(q.grant(8), Err(Error::InsufficientSize));
    // one byte less fits at the front
    let g = q.grant(7).unwrap();
    assert_eq!((g.offset(), g.len()), (0, 7));
    q.commit(7, g);
    // write was at the capacity: last stays where it is
    assert_eq!(cursors(&q), (7, 8, 8, 7));
}

#[test]
fn writer_at_the_end_reader_at_zero() {
    let mut storage = [0u8; 8];
    let mut q = BBQueue::new(&mut storage);
    push(&mut q, 5, 1);
    push(&mut q, 3, 2);
    assert_eq!(cursors(&q), (8, 0, 8, 8));
    assert_eq!(q.grant(1), Err(Error::InsufficientSize));
    assert_eq!(q.grant_max(1), Err(Error::InsufficientSize));
    assert_eq!(q.grant_max(8), Err(Error::InsufficientSize));
    assert_eq!(cursors(&q), (8, 0, 8, 8));

    let r = q.read().unwrap();
    assert_eq!(r.buf(&q), &[1, 1, 1, 1, 1, 2, 2, 2]);
    // while the read grant is out nothing is released
    assert_eq!(q.grant(1), Err(Error::InsufficientSize));
    q.release(4, r);
    let g = q.grant_max(8).unwrap();
    assert_eq!((g.offset(), g.len()), (0, 3));
}

#[test]
fn drained_inversion_is_linear_again() {
    let mut storage = [0u8; 8];
    let mut q = BBQueue::new(&mut storage);
    push(&mut q, 6, 1);
    pop(&mut q, 4);
    push(&mut q, 3, 2);
    assert_eq!(cursors(&q), (3, 4, 6, 3));

    pop(&mut q, 2);
    assert_eq!(cursors(&q), (3, 6, 6, 3));

    let r = q.read().unwrap();
    assert_eq!(cursors(&q), (3, 0, 8, 3));
    assert_eq!(r.buf(&q), &[2, 2, 2]);
    q.release(3, r);
    assert_eq!(cursors(&q), (3, 3, 8, 3));
    assert!(!q.track().read_in_progress());
    assert_eq!(q.read(), Err(Error::InsufficientSize));

    // as on a fresh queue, everything after `write` can be granted
    let g = q.grant_max(8).unwrap();
    assert_eq!((g.offset(), g.len()), (3, 5));
}

#[test]
fn inverted_grant_stops_one_short_of_read() {
    let mut storage = [0u8; 8];
    let mut q = BBQueue::new(&mut storage);
    push(&mut q, 8, 1);
    pop(&mut q, 5);
    push(&mut q, 1, 2);
    assert_eq!(cursors(&q), (1, 5, 8, 1));

    // four bytes lie between write and read; only three can be granted
    assert_eq!(q.grant(4), Err(Error::InsufficientSize));
    let g = q.grant_max(4).unwrap();
    assert_eq!((g.offset(), g.len()), (1, 3));
    q.commit(3, g);
    assert_eq!(cursors(&q), (4, 5, 8, 4));

    assert_eq!(q.grant(1), Err(Error::InsufficientSize));
    assert_eq!(q.grant_max(1), Err(Error::InsufficientSize));
}

#[test]
fn commit_of_nothing_from_a_wrapped_grant() {
    let mut storage = [0u8; 8];
    let mut q = BBQueue::new(&mut storage);
    push(&mut q, 7, 1);
    pop(&mut q, 3);
    let g = q.grant(2).unwrap();
    assert_eq!(g.offset(), 0);
    q.commit(0, g);
    assert_eq!(cursors(&q), (0, 3, 7, 0));

    pop(&mut q, 4);
    assert_eq!(cursors(&q), (0, 7, 7, 0));

    // nothing is pending; the first read rewinds, the second changes nothing
    assert_eq!(q.read(), Err(Error::InsufficientSize));
    assert_eq!(cursors(&q), (0, 0, 8, 0));
    assert_eq!(q.read(), Err(Error::InsufficientSize));
    assert_eq!(cursors(&q), (0, 0, 8, 0));
}

#[test]
fn queue_without_storage() {
    let mut storage = [0u8; 0];
    let mut q = BBQueue::new(&mut storage);
    assert_eq!(q.capacity(), 0);
    assert_eq!(q.grant(1), Err(Error::InsufficientSize));
    assert_eq!(q.grant_max(1), Err(Error::InsufficientSize));
    assert_eq!(q.read(), Err(Error::InsufficientSize));
}
