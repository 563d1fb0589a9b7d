//! What holds of every queue, and of every step a queue takes.
//!
//! The executable operations in [`crate::queue`] prove their contracts from
//! the step lemmas here; the remaining lemmas state consequences that relate
//! several operations.

use crate::error::Error;
use crate::state::{Region, State, Step};
use vstd::prelude::*;

verus! {

/// A queue on which nothing has happened is valid, holds no byte, and has no
/// grant outstanding.
pub proof fn fresh_is_valid(data: Seq<u8>)
    ensures
        State::fresh(data).inv(),
        State::fresh(data).pending() == Seq::<u8>::empty(),
        State::fresh(data).write_grant() is None,
        !State::fresh(data).read_in_progress,
{
    let s = State::fresh(data);
    assert(s.pending() =~= Seq::<u8>::empty());
    assert(s.consumed + s.pending() =~= s.produced);
}

/// In a valid queue `read`, `last` and `write` lie within the storage with
/// `read <= last`; outside inversion `last` is the capacity; inside it
/// `write` lies strictly below `read`.
pub proof fn cursors_in_bounds(s: State)
    requires
        s.inv(),
    ensures
        0 <= s.read <= s.last <= s.capacity,
        0 <= s.write <= s.capacity,
        s.write >= s.read ==> s.last == s.capacity,
        s.inverted() ==> s.write < s.read <= s.last && s.write != s.read,
        s.reserve <= s.capacity,
{
}

/// `reserve` equals `write` exactly when no write grant is outstanding. An
/// outstanding grant is not empty, ends at `reserve`, and lies within the
/// storage; it starts at `write`, or at offset 0 when it has wrapped.
/// `reserve` is below `write` only while a wrapped grant is outstanding.
pub proof fn reserve_marks_write_grant(s: State)
    requires
        s.inv(),
    ensures
        s.reserve == s.write <==> s.write_grant() is None,
        s.write_grant() matches Some(g) ==> ({
            &&& g.len >= 1
            &&& g.end() == s.reserve
            &&& g.end() <= s.capacity
            &&& g.start == s.write || (g.start == 0 && s.read <= s.write <= s.last)
        }),
        s.reserve < s.write <==> (s.write_grant() matches Some(g) && g.start == 0 && g.start
            != s.write),
{
}

/// The number of committed bytes not yet released is `write - read` outside
/// inversion and `(last - read) + write` inside it.
pub proof fn pending_count(s: State)
    requires
        s.inv(),
    ensures
        s.pending().len() == if s.inverted() {
            (s.last - s.read) + s.write
        } else {
            s.write - s.read
        },
{
}

/// Every byte committed so far has either been released or is still
/// pending, in the order of commitment: nothing is lost, repeated or
/// reordered. Once the queue is drained, what was released is what was
/// committed.
pub proof fn stream_is_preserved(s: State)
    requires
        s.inv(),
    ensures
        s.produced == s.consumed + s.pending(),
        s.pending().len() == 0 ==> s.produced == s.consumed,
{
    if s.pending().len() == 0 {
        assert(s.consumed + s.pending() =~= s.consumed);
    }
}

/// A successful exact grant has the size asked for, lies within the storage,
/// starts at `write` or wraps to offset 0, and leaves a valid queue whose
/// outstanding write grant it is. The pending bytes are untouched.
pub proof fn grant_step(s: State, sz: nat)
    requires
        s.inv(),
        s.grant_result(sz) is Ok,
    ensures
        ({
            let g = s.grant_result(sz)->Ok_0;
            &&& g.len == sz
            &&& sz >= 1
            &&& g.end() <= s.capacity
            &&& g.start == s.write || (g.start == 0 && s.write <= s.last <= s.capacity)
            &&& s.reserved(g).inv()
            &&& s.reserved(g).write_grant() == Some(g)
            &&& s.reserved(g).pending() == s.pending()
        }),
{
}

/// A successful up-to-size grant holds at least one byte and at most the
/// size asked for, lies within the storage, and leaves a valid queue whose
/// outstanding write grant it is. The pending bytes are untouched.
pub proof fn grant_max_step(s: State, sz: nat)
    requires
        s.inv(),
        s.grant_max_result(sz) is Ok,
    ensures
        ({
            let g = s.grant_max_result(sz)->Ok_0;
            &&& 1 <= g.len <= sz
            &&& g.end() <= s.capacity
            &&& g.start == s.write || (g.start == 0 && s.write <= s.last <= s.capacity)
            &&& s.reserved(g).inv()
            &&& s.reserved(g).write_grant() == Some(g)
            &&& s.reserved(g).pending() == s.pending()
        }),
{
}

/// An up-to-size grant that holds fewer bytes than were asked for has taken
/// all the room there is in one piece: it ends at the end of the storage
/// when it was appended to a linear queue, and one byte short of `read`
/// otherwise.
pub proof fn grant_max_takes_all_the_room(s: State, sz: nat)
    requires
        s.inv(),
        s.grant_max_result(sz) is Ok,
        s.grant_max_result(sz)->Ok_0.len < sz,
    ensures
        ({
            let g = s.grant_max_result(sz)->Ok_0;
            if g.start == s.write && !s.inverted() {
                g.end() == s.capacity
            } else {
                g.end() + 1 == s.read
            }
        }),
{
}

/// Writing into the granted region leaves a valid queue with the same
/// pending bytes: the region holds no committed byte. A read grant that is
/// outstanding stays so, and its bytes are as they were.
pub proof fn region_write_step(s: State, bytes: Seq<u8>)
    requires
        s.inv(),
        s.write_grant() is Some,
        bytes.len() == s.write_grant()->0.len,
    ensures
        ({
            let g = s.write_grant()->0;
            let t = s.with_region(g, bytes);
            &&& t.inv()
            &&& t.pending() == s.pending()
            &&& t.write_grant() == Some(g)
            &&& t.data.subrange(g.start as int, g.end() as int) == bytes
            &&& forall|r: Region|
                s.admits_read(r) ==> #[trigger] t.admits_read(r) && t.data.subrange(
                    r.start as int,
                    r.end() as int,
                ) == s.data.subrange(r.start as int, r.end() as int)
        }),
{
    let g = s.write_grant()->0;
    let t = s.with_region(g, bytes);
    assert(t.data.len() == s.capacity);
    assert(t.pending() =~= s.pending());
    assert(t.data.subrange(g.start as int, g.end() as int) =~= bytes);
    assert forall|r: Region| s.admits_read(r) implies #[trigger] t.admits_read(r)
        && t.data.subrange(r.start as int, r.end() as int) == s.data.subrange(
        r.start as int,
        r.end() as int,
    ) by {
        assert(t.data.subrange(r.start as int, r.end() as int) =~= s.data.subrange(
            r.start as int,
            r.end() as int,
        ));
    }
}

/// Committing the first `used` bytes of the outstanding write grant leaves
/// a valid queue with no write grant outstanding, in which exactly those
/// bytes have been appended to the pending bytes. A read grant that is
/// outstanding stays so.
pub proof fn commit_step(s: State, used: nat)
    requires
        s.inv(),
        s.write_grant() is Some,
        used <= s.write_grant()->0.len,
    ensures
        ({
            let g = s.write_grant()->0;
            let t = s.committed(used);
            let fresh_bytes = s.data.subrange(g.start as int, (g.start + used) as int);
            &&& t.inv()
            &&& t.write_grant() is None
            &&& t.pending() == s.pending() + fresh_bytes
            &&& t.produced == s.produced + fresh_bytes
            &&& t.consumed == s.consumed
            &&& forall|r: Region| s.admits_read(r) ==> #[trigger] t.admits_read(r)
        }),
{
    let g = s.write_grant()->0;
    let t = s.committed(used);
    let fresh_bytes = s.data.subrange(g.start as int, (g.start + used) as int);
    assert(t.pending() =~= s.pending() + fresh_bytes);
    assert(t.consumed + t.pending() =~= t.produced);
}

/// A read leaves a valid queue with the same pending bytes. It succeeds
/// exactly when no read grant is outstanding and some byte is pending; the
/// region it grants is not empty, lies within the storage, and holds the
/// oldest pending bytes in order: all of them outside inversion.
pub proof fn read_step(s: State)
    requires
        s.inv(),
    ensures
        s.after_read().inv(),
        s.after_read().pending() == s.pending(),
        s.after_read().write_grant() == s.write_grant(),
        s.read_result() is Ok <==> !s.read_in_progress && s.pending().len() > 0,
        s.read_result() matches Ok(r) ==> ({
            let t = s.after_read();
            &&& t.admits_read(r)
            &&& r == t.readable()
            &&& 1 <= r.len <= s.pending().len()
            &&& r.end() <= s.capacity
            &&& t.data.subrange(r.start as int, r.end() as int) == s.pending().subrange(
                0,
                r.len as int,
            )
            &&& !t.inverted() ==> r.len == s.pending().len()
        }),
{
    let t = s.after_read();
    assert(s.rewound().pending() =~= s.pending());
    assert(t.pending() =~= s.pending());
    if let Ok(r) = s.read_result() {
        assert(t.data.subrange(r.start as int, r.end() as int) =~= s.pending().subrange(
            0,
            r.len as int,
        ));
    }
}

/// Releasing the first `used` bytes of a read grant leaves a valid queue
/// with no read grant outstanding, in which exactly those bytes have left
/// the front of the pending bytes.
pub proof fn release_step(s: State, r: Region, used: nat)
    requires
        s.inv(),
        s.admits_read(r),
        used <= r.len,
    ensures
        ({
            let t = s.released(used);
            &&& t.inv()
            &&& !t.read_in_progress
            &&& t.pending() == s.pending().subrange(used as int, s.pending().len() as int)
            &&& t.consumed == s.consumed + s.pending().subrange(0, used as int)
            &&& t.produced == s.produced
            &&& t.write_grant() == s.write_grant()
        }),
{
    let t = s.released(used);
    assert(t.pending() =~= s.pending().subrange(used as int, s.pending().len() as int));
    assert(s.data.subrange(s.read as int, (s.read + used) as int) =~= s.pending().subrange(
        0,
        used as int,
    ));
    assert(t.consumed + t.pending() =~= s.consumed + s.pending());
}

/// Giving out the handles changes nothing but the flag that records it.
pub proof fn split_step(s: State)
    requires
        s.inv(),
    ensures
        s.split_up().inv(),
        s.split_up().pending() == s.pending(),
{
}

/// Every step that a caller may take leaves a valid queue.
pub proof fn step_keeps_queue_valid(s: State, step: Step)
    requires
        s.inv(),
        s.allows(step),
    ensures
        s.step(step).inv(),
{
    match step {
        Step::Grant(sz) => {
            if s.grant_result(sz) is Ok {
                grant_step(s, sz);
            }
        },
        Step::GrantMax(sz) => {
            if s.grant_max_result(sz) is Ok {
                grant_max_step(s, sz);
            }
        },
        Step::Fill(bytes) => {
            region_write_step(s, bytes);
        },
        Step::Commit(used) => {
            commit_step(s, used);
        },
        Step::Read => {
            read_step(s);
        },
        Step::Release(region, used) => {
            release_step(s, region, used);
        },
        Step::Split => {},
    }
}

/// Whatever a caller does, in whatever order, the queue stays valid: after
/// any run of steps from a valid queue, the cursors are in bounds and in
/// order, and every byte committed during the run has been released or is
/// still pending, in the order of commitment.
pub proof fn every_run_keeps_queue_valid(s: State, steps: Seq<Step>)
    requires
        s.inv(),
        s.allows_all(steps),
    ensures
        s.run(steps).inv(),
        s.run(steps).produced == s.run(steps).consumed + s.run(steps).pending(),
    decreases steps.len(),
{
    if steps.len() > 0 {
        step_keeps_queue_valid(s, steps[0]);
        every_run_keeps_queue_valid(s.step(steps[0]), steps.drop_first());
    }
}

/// From a fresh queue, once a run of steps has drained the queue, the bytes
/// released during the run are the bytes committed during it: none lost,
/// none repeated, none out of order.
pub proof fn drained_run_returns_every_byte(data: Seq<u8>, steps: Seq<Step>)
    requires
        State::fresh(data).allows_all(steps),
        State::fresh(data).run(steps).pending().len() == 0,
    ensures
        State::fresh(data).run(steps).consumed == State::fresh(data).run(steps).produced,
{
    fresh_is_valid(data);
    every_run_keeps_queue_valid(State::fresh(data), steps);
    stream_is_preserved(State::fresh(data).run(steps));
}

/// The region granted for writing and a region granted for reading never
/// share a byte.
pub proof fn grants_never_overlap(s: State, r: Region)
    requires
        s.inv(),
        s.write_grant() is Some,
        s.admits_read(r),
    ensures
        s.write_grant()->0.disjoint(r),
{
}

/// The writing side never changes `read`, the read flag or what was
/// released; the reading side never changes `write`, `reserve`, the storage
/// or what was committed.
pub proof fn sides_keep_apart(s: State, region: Region, used: nat, bytes: Seq<u8>)
    ensures
        s.reserved(region).same_reader_part(s),
        s.with_region(region, bytes).same_reader_part(s),
        s.committed(used).same_reader_part(s),
        s.after_read().same_writer_part(s),
        s.released(used).same_writer_part(s),
{
}

/// `last` is the one cursor that both sides move, and never at the same
/// time. A commit moves it only outside inversion, back from the capacity
/// to the old `write`, and the queue is inverted afterwards. A read moves
/// it only inside inversion, forward to the capacity, and the queue is
/// linear afterwards.
pub proof fn last_moves_one_way_at_a_time(s: State, used: nat)
    requires
        s.inv(),
    ensures
        s.write_grant() is Some && used <= s.write_grant()->0.len ==> ({
            let t = s.committed(used);
            ||| t.last == s.last
            ||| !s.inverted() && s.last == s.capacity && t.last == s.write && t.inverted()
        }),
        ({
            let t = s.after_read();
            ||| t.last == s.last
            ||| s.inverted() && t.last == s.capacity && !t.inverted()
        }),
        s.released(used).last == s.last,
{
}

/// Of two grants asked for in a row, with no commit in between, the second
/// is refused with `GrantInProgress`, whichever of the two kinds each is and
/// whatever its size. Of two reads in a row, with no release in between,
/// the second is refused the same way.
pub proof fn second_grant_is_refused(s: State, first: nat, second: nat)
    requires
        s.inv(),
    ensures
        s.grant_result(first) is Ok ==> ({
            let t = s.after_grant(first);
            &&& t.grant_result(second) == Err::<Region, Error>(Error::GrantInProgress)
            &&& t.grant_max_result(second) == Err::<Region, Error>(Error::GrantInProgress)
            &&& t.after_grant(second) == t
            &&& t.after_grant_max(second) == t
        }),
        s.grant_max_result(first) is Ok ==> ({
            let t = s.after_grant_max(first);
            &&& t.grant_result(second) == Err::<Region, Error>(Error::GrantInProgress)
            &&& t.grant_max_result(second) == Err::<Region, Error>(Error::GrantInProgress)
            &&& t.after_grant(second) == t
            &&& t.after_grant_max(second) == t
        }),
        s.read_result() is Ok ==> ({
            let t = s.after_read();
            &&& t.read_result() == Err::<Region, Error>(Error::GrantInProgress)
            &&& t.after_read() == t
        }),
{
    if s.grant_result(first) is Ok {
        grant_step(s, first);
    }
    if s.grant_max_result(first) is Ok {
        grant_max_step(s, first);
    }
    read_step(s);
}

/// A read on a queue that holds no pending byte is refused with
/// `InsufficientSize`, and so is the next one. The pending bytes stay
/// empty, and a second read changes nothing that the first left behind.
/// Unless the reader stood at the end of a used-up tail, the first read
/// changes nothing either.
pub proof fn empty_read_is_idempotent(s: State)
    requires
        s.inv(),
        !s.read_in_progress,
        s.pending().len() == 0,
    ensures
        s.read_result() == Err::<Region, Error>(Error::InsufficientSize),
        s.after_read().read_result() == Err::<Region, Error>(Error::InsufficientSize),
        s.after_read().after_read() == s.after_read(),
        s.after_read().pending().len() == 0,
        !s.drained_tail() ==> s.after_read() == s,
{
    read_step(s);
    read_step(s.after_read());
}

/// A grant of no bytes is never given: with no write grant outstanding it is
/// refused with `InsufficientSize`.
pub proof fn empty_grant_is_refused(s: State)
    ensures
        s.grant_result(0) is Err,
        s.grant_max_result(0) is Err,
        s.write_grant() is None ==> s.grant_result(0) == Err::<Region, Error>(
            Error::InsufficientSize,
        ) && s.grant_max_result(0) == Err::<Region, Error>(Error::InsufficientSize),
{
}

/// On a fresh queue a grant of the whole capacity succeeds at offset 0.
/// Once all of it is committed the storage is full: as long as nothing has
/// been released, every grant is refused with `InsufficientSize`.
pub proof fn whole_capacity_fills_queue(data: Seq<u8>, sz: nat)
    requires
        data.len() > 0,
    ensures
        ({
            let whole = Region { start: 0, len: data.len() };
            let full = State::fresh(data).reserved(whole).committed(data.len());
            &&& State::fresh(data).grant_result(data.len()) == Ok::<Region, Error>(whole)
            &&& full.inv()
            &&& full.write == data.len()
            &&& full.read == 0
            &&& full.pending() == data
            &&& full.grant_result(sz) == Err::<Region, Error>(Error::InsufficientSize)
            &&& full.grant_max_result(sz) == Err::<Region, Error>(Error::InsufficientSize)
        }),
{
    let fresh = State::fresh(data);
    let whole = Region { start: 0, len: data.len() };
    fresh_is_valid(data);
    grant_step(fresh, data.len());
    commit_step(fresh.reserved(whole), data.len());
    let full = fresh.reserved(whole).committed(data.len());
    assert(full.pending() =~= data);
}

/// Once the reader has moved off offset 0, a grant of the whole capacity
/// cannot fit in one piece, whatever has been released.
pub proof fn whole_capacity_needs_read_at_zero(s: State)
    requires
        s.inv(),
        s.write_grant() is None,
        s.read > 0,
    ensures
        s.grant_result(s.capacity) == Err::<Region, Error>(Error::InsufficientSize),
{
}

/// With the writer at the end of the storage and the reader still at offset
/// 0 there is no room to wrap: every grant is refused with
/// `InsufficientSize`.
pub proof fn full_queue_refuses_grants(s: State, sz: nat)
    requires
        s.inv(),
        s.write_grant() is None,
        s.write == s.capacity,
        s.read == 0,
    ensures
        s.grant_result(sz) == Err::<Region, Error>(Error::InsufficientSize),
        s.grant_max_result(sz) == Err::<Region, Error>(Error::InsufficientSize),
{
}

/// With the writer at the end of the storage, a grant wraps to offset 0 as
/// soon as the reader has left more than its size free at the front.
pub proof fn grant_wraps_when_front_is_free(s: State, sz: nat)
    requires
        s.inv(),
        s.write_grant() is None,
        s.write == s.capacity,
        0 < sz < s.read,
    ensures
        s.grant_result(sz) == Ok::<Region, Error>(Region { start: 0, len: sz }),
{
}

/// While the queue is inverted no grant, however much of it is committed,
/// lets `write` catch up with `read`: the queue stays inverted, so an empty
/// queue and a full one are never confused.
pub proof fn inversion_keeps_write_below_read(s: State, used: nat)
    requires
        s.inv(),
        s.inverted(),
        s.write_grant() is Some,
        used <= s.write_grant()->0.len,
    ensures
        s.committed(used).inverted(),
        s.committed(used).write < s.committed(used).read,
{
}

/// When the reader has used up the tail of an inverted queue, its next read
/// starts over at offset 0 and restores `last`: the queue is linear again.
/// The read exposes everything the writer has committed at the front, and
/// releasing all of it leaves a linear, empty queue.
pub proof fn drained_inversion_returns_to_linear(s: State)
    requires
        s.inv(),
        s.drained_tail(),
        !s.read_in_progress,
    ensures
        s.after_read().read == 0,
        s.after_read().last == s.capacity,
        !s.after_read().inverted(),
        s.write > 0 ==> s.read_result() == Ok::<Region, Error>(
            Region { start: 0, len: s.write },
        ),
        s.write > 0 ==> ({
            let t = s.after_read().released(s.write);
            &&& t.inv()
            &&& t.read == t.write
            &&& t.last == t.capacity
            &&& !t.read_in_progress
            &&& t.pending().len() == 0
        }),
        s.write == 0 ==> ({
            let t = s.after_read();
            &&& t.read == t.write
            &&& t.last == t.capacity
            &&& !t.read_in_progress
            &&& t.pending().len() == 0
        }),
{
    read_step(s);
    if s.write > 0 {
        release_step(s.after_read(), Region { start: 0, len: s.write }, s.write);
    }
}

} // verus!
