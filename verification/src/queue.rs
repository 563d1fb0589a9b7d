//! The executable queue, its cursor record and its grant tokens.

use crate::error::Error;
use crate::handles::{Consumer, Producer};
use crate::laws::{
    commit_step, fresh_is_valid, grant_max_step, grant_step, read_step, region_write_step,
    release_step, reserve_marks_write_grant,
};
use crate::state::{smaller, Cursors, Region, State};
use vstd::prelude::*;

verus! {

/// The cursors of a queue.
#[derive(Debug)]
pub struct Track {
    /// Where the next committed byte will be written.
    write: usize,
    /// Where the next byte will be read from.
    read: usize,
    /// While the queue is inverted, the end of the readable bytes; the
    /// capacity otherwise. The writer moves it back when it wraps, the
    /// reader moves it forward again when it has used up the tail.
    last: usize,
    /// The end of the bytes that the writer may write to but has not
    /// committed yet.
    reserve: usize,
    /// Is there an active read grant?
    read_in_progress: bool,
}

impl View for Track {
    type V = Cursors;

    closed spec fn view(&self) -> Cursors {
        Cursors {
            write: self.write as nat,
            read: self.read as nat,
            last: self.last as nat,
            reserve: self.reserve as nat,
            read_in_progress: self.read_in_progress,
        }
    }
}

impl Track {
    /// The cursors of an empty queue over `sz` bytes.
    pub fn new(sz: usize) -> (t: Track)
        ensures
            t@ == (Cursors {
                write: 0,
                read: 0,
                last: sz as nat,
                reserve: 0,
                read_in_progress: false,
            }),
    {
        Track { write: 0, read: 0, last: sz, reserve: 0, read_in_progress: false }
    }

    /// Where the next committed byte will be written.
    pub fn write(&self) -> (offset: usize)
        ensures
            offset == self@.write,
    {
        self.write
    }

    /// Where the next byte will be read from.
    pub fn read(&self) -> (offset: usize)
        ensures
            offset == self@.read,
    {
        self.read
    }

    /// The end of the readable bytes while inverted; the capacity otherwise.
    pub fn last(&self) -> (offset: usize)
        ensures
            offset == self@.last,
    {
        self.last
    }

    /// The end of the outstanding write grant.
    pub fn reserve(&self) -> (offset: usize)
        ensures
            offset == self@.reserve,
    {
        self.reserve
    }

    /// Is there an active read grant?
    pub fn read_in_progress(&self) -> (active: bool)
        ensures
            active == self@.read_in_progress,
    {
        self.read_in_progress
    }
}

/// The right to fill one contiguous region of the storage. It is handed
/// back, once, by `commit`.
#[derive(Debug, PartialEq, Eq)]
pub struct GrantW {
    start: usize,
    len: usize,
}

/// The right to look at one contiguous region of committed bytes. It is
/// handed back, once, by `release`.
#[derive(Debug, PartialEq, Eq)]
pub struct GrantR {
    start: usize,
    len: usize,
}

impl View for GrantW {
    type V = Region;

    closed spec fn view(&self) -> Region {
        Region { start: self.start as nat, len: self.len as nat }
    }
}

impl View for GrantR {
    type V = Region;

    closed spec fn view(&self) -> Region {
        Region { start: self.start as nat, len: self.len as nat }
    }
}

/// The region behind the answer to a request for a write grant.
pub open spec fn write_region(answer: Result<GrantW, Error>) -> Result<Region, Error> {
    match answer {
        Ok(grant) => Ok(grant@),
        Err(e) => Err(e),
    }
}

/// The region behind the answer to a request for a read grant.
pub open spec fn read_region(answer: Result<GrantR, Error>) -> Result<Region, Error> {
    match answer {
        Ok(grant) => Ok(grant@),
        Err(e) => Err(e),
    }
}

/// The `len` bytes of `whole` from offset `start`, for writing.
fn subslice_mut<'s>(whole: &'s mut [u8], start: usize, len: usize) -> (part: &'s mut [u8])
    requires
        start + len <= old(whole)@.len(),
    ensures
        part@ == old(whole)@.subrange(start as int, start + len),
        final(whole)@ == old(whole)@.subrange(0, start as int) + final(part)@ + old(
            whole,
        )@.subrange(start + len, old(whole)@.len() as int),
        final(whole)@.len() == old(whole)@.len() ==> final(part)@.len() == len,
{
    let (_, tail) = whole.split_at_mut(start);
    let (part, _) = tail.split_at_mut(len);
    part
}

/// The smaller of the room that is left and the size asked for.
fn at_most(room: usize, sz: usize) -> (len: usize)
    ensures
        len == smaller(room as nat, sz as nat),
{
    if room <= sz {
        room
    } else {
        sz
    }
}

/// A bipartite queue over `N` bytes of storage that the caller lends it.
pub struct BBQueue<'a, const N: usize> {
    buf: &'a mut [u8; N],
    is_split: bool,
    trk: Track,
    produced: Ghost<Seq<u8>>,
    consumed: Ghost<Seq<u8>>,
}

impl<'a, const N: usize> View for BBQueue<'a, N> {
    type V = State;

    closed spec fn view(&self) -> State {
        State {
            capacity: N as nat,
            write: self.trk.write as nat,
            read: self.trk.read as nat,
            last: self.trk.last as nat,
            reserve: self.trk.reserve as nat,
            read_in_progress: self.trk.read_in_progress,
            split: self.is_split,
            data: self.buf@,
            produced: self.produced@,
            consumed: self.consumed@,
        }
    }
}

impl GrantW {
    /// The offset of the first byte of the region.
    pub fn offset(&self) -> (offset: usize)
        ensures
            offset == self@.start,
    {
        self.start
    }

    /// The number of bytes in the region.
    pub fn len(&self) -> (len: usize)
        ensures
            len == self@.len,
    {
        self.len
    }

    /// The granted bytes, as one slice of the storage of the queue that
    /// gave the grant. What the caller leaves in the slice is what the
    /// storage holds afterwards; nothing else changes.
    pub fn buf<'q, 'a, const N: usize>(&self, bbq: &'q mut BBQueue<'a, N>) -> (bytes: &'q mut [u8])
        requires
            old(bbq).wf(),
            old(bbq)@.write_grant() == Some(self@),
        ensures
            bytes@ == old(bbq)@.data.subrange(self@.start as int, self@.end() as int),
            final(bbq)@.data.len() == N,
            final(bytes)@.len() == self@.len,
            final(bbq)@ == old(bbq)@.with_region(self@, final(bytes)@),
            final(bbq).wf(),
            final(bbq)@.pending() == old(bbq)@.pending(),
    {
        proof {
            reserve_marks_write_grant(bbq@);
            // whatever the caller writes, as long as it has the length of the region
            assert forall|written: Seq<u8>| written.len() == self@.len implies ({
                &&& (#[trigger] bbq@.with_region(self@, written)).inv()
                &&& bbq@.with_region(self@, written).pending() == bbq@.pending()
            }) by {
                region_write_step(bbq@, written);
            }
        }
        subslice_mut(bbq.buf, self.start, self.len)
    }
}

impl GrantR {
    /// The offset of the first byte of the region.
    pub fn offset(&self) -> (offset: usize)
        ensures
            offset == self@.start,
    {
        self.start
    }

    /// The number of bytes in the region.
    pub fn len(&self) -> (len: usize)
        ensures
            len == self@.len,
    {
        self.len
    }

    /// The granted bytes, as one slice of the storage of the queue that
    /// gave the grant.
    pub fn buf<'q, 'a, const N: usize>(&self, bbq: &'q BBQueue<'a, N>) -> (bytes: &'q [u8])
        requires
            bbq.wf(),
            bbq@.admits_read(self@),
        ensures
            bytes@ == bbq@.data.subrange(self@.start as int, self@.end() as int),
    {
        vstd::slice::slice_subrange(bbq.buf.as_slice(), self.start, self.start + self.len)
    }
}

impl<'a, const N: usize> BBQueue<'a, N> {
    /// The queue is valid, over `N` bytes.
    pub open spec fn wf(&self) -> bool {
        &&& self@.inv()
        &&& self@.capacity == N
    }

    /// An empty queue over the storage `buf`.
    pub fn new(buf: &'a mut [u8; N]) -> (bbq: Self)
        ensures
            bbq.wf(),
            bbq@ == State::fresh(old(buf)@),
    {
        proof {
            fresh_is_valid(buf@);
        }
        BBQueue {
            trk: Track::new(N),
            buf,
            is_split: false,
            produced: Ghost(Seq::empty()),
            consumed: Ghost(Seq::empty()),
        }
    }

    /// The number of bytes of storage.
    pub fn capacity(&self) -> (n: usize)
        ensures
            n == N,
            n == self@.capacity,
    {
        N
    }

    /// The cursors.
    pub fn track(&self) -> (trk: &Track)
        ensures
            trk@ == self@.cursors(),
    {
        &self.trk
    }

    /// Have the handles been given out?
    pub fn is_split(&self) -> (split: bool)
        ensures
            split == self@.split,
    {
        self.is_split
    }

    /// Is `grant` the write grant that this queue has outstanding?
    pub fn holds_write_grant(&self, grant: &GrantW) -> (held: bool)
        ensures
            held == (self@.write_grant() == Some(grant@)),
    {
        let write = self.trk.write;
        let reserve = self.trk.reserve;
        if reserve == write {
            false
        } else if reserve > write {
            grant.start == write && grant.len == reserve - write
        } else {
            grant.start == 0 && grant.len == reserve
        }
    }

    /// Can `grant` be the read grant that this queue has outstanding?
    pub fn holds_read_grant(&self, grant: &GrantR) -> (held: bool)
        requires
            self.wf(),
        ensures
            held == self@.admits_read(grant@),
    {
        let read = self.trk.read;
        let end = if self.trk.write < read {
            self.trk.last
        } else {
            self.trk.write
        };
        let readable = end - read;
        self.trk.read_in_progress && grant.start == read && 0 < grant.len && grant.len <= readable
    }

    /// Request a writable, contiguous section of memory of exactly `sz`
    /// bytes. If no such section is available, or `sz` is 0, an error is
    /// returned and the queue is unchanged.
    pub fn grant(&mut self, sz: usize) -> (answer: Result<GrantW, Error>)
        requires
            old(self).wf(),
        ensures
            final(self).wf(),
            write_region(answer) == old(self)@.grant_result(sz as nat),
            final(self)@ == old(self)@.after_grant(sz as nat),
            answer matches Ok(grant) ==> ({
                &&& grant@.len == sz
                &&& grant@.end() <= N
                &&& final(self)@.write_grant() == Some(grant@)
            }),
    {
        let write = self.trk.write;

        if self.trk.reserve != write {
            // A grant is outstanding: no other until it has been committed
            return Err(Error::GrantInProgress);
        }
        if sz == 0 {
            return Err(Error::InsufficientSize);
        }
        let read = self.trk.read;
        let max = N;

        let already_inverted = write < read;

        let start = if already_inverted {
            // The grant has to end strictly before `read`: were `write` to
            // reach `read` while inverted, a full queue would look like an
            // empty one.
            if sz < read - write {
                write
            } else {
                return Err(Error::InsufficientSize);
            }
        } else {
            if sz <= max - write {
                // There is room at the end
                write
            } else {
                // There is none: wrap to the front, if the grant ends
                // strictly before `read` there
                if sz < read {
                    0
                } else {
                    return Err(Error::InsufficientSize);
                }
            }
        };

        proof {
            grant_step(self@, sz as nat);
        }
        self.trk.reserve = start + sz;

        Ok(GrantW { start, len: sz })
    }

    /// Request a writable, contiguous section of memory of up to `sz`
    /// bytes. If fewer than `sz` bytes, but at least one, can be had in one
    /// piece, the grant is for those. If no space is available for writing,
    /// or `sz` is 0, an error is returned and the queue is unchanged.
    pub fn grant_max(&mut self, sz: usize) -> (answer: Result<GrantW, Error>)
        requires
            old(self).wf(),
        ensures
            final(self).wf(),
            write_region(answer) == old(self)@.grant_max_result(sz as nat),
            final(self)@ == old(self)@.after_grant_max(sz as nat),
            answer matches Ok(grant) ==> ({
                &&& 1 <= grant@.len <= sz
                &&& grant@.end() <= N
                &&& final(self)@.write_grant() == Some(grant@)
            }),
    {
        let write = self.trk.write;

        if self.trk.reserve != write {
            // A grant is outstanding: no other until it has been committed
            return Err(Error::GrantInProgress);
        }
        if sz == 0 {
            return Err(Error::InsufficientSize);
        }
        let read = self.trk.read;
        let max = N;

        let already_inverted = write < read;

        let (start, len) = if already_inverted {
            // One byte before `read` stays free, so that `write` never
            // reaches `read` while inverted
            let remain = read - write - 1;

            if remain != 0 {
                (write, at_most(remain, sz))
            } else {
                return Err(Error::InsufficientSize);
            }
        } else {
            if write != max {
                // Some room, or all of it, is left at the end
                (write, at_most(max - write, sz))
            } else {
                // The end is reached: wrap to the front, where the grant
                // has to end strictly before `read`
                if read > 1 {
                    (0, at_most(read - 1, sz))
                } else {
                    return Err(Error::InsufficientSize);
                }
            }
        };

        proof {
            grant_max_step(self@, sz as nat);
        }
        self.trk.reserve = start + len;

        Ok(GrantW { start, len })
    }

    /// Finalizes a writable grant given by `grant()` or `grant_max()`: its
    /// first `used` bytes become available to `read()`, the rest of the
    /// region is given up.
    pub fn commit(&mut self, used: usize, grant: GrantW)
        requires
            old(self).wf(),
            old(self)@.write_grant() == Some(grant@),
            used <= grant@.len,
        ensures
            final(self).wf(),
            final(self)@ == old(self)@.committed(used as nat),
            final(self)@.write_grant() is None,
            final(self)@.pending() == old(self)@.pending() + old(self)@.data.subrange(
                grant@.start as int,
                grant@.start + used,
            ),
    {
        proof {
            reserve_marks_write_grant(self@);
            commit_step(self@, used as nat);
        }
        let len = grant.len;
        let write = self.trk.write;
        self.trk.reserve = self.trk.reserve - (len - used);

        if (self.trk.reserve < write) && (write != N) {
            // The grant had wrapped to the front: `last` moves back to the
            // end of what was committed before
            self.trk.last = write;
        }
        self.produced = Ghost(
            self.produced@ + self.buf@.subrange(grant.start as int, grant.start + used),
        );

        // From here on the bytes can be read
        self.trk.write = self.trk.reserve;
    }

    /// Obtains a contiguous slice of committed bytes. This may not be all
    /// the committed bytes, if the writer has wrapped around: the rest is
    /// available after these have been released.
    pub fn read(&mut self) -> (answer: Result<GrantR, Error>)
        requires
            old(self).wf(),
        ensures
            final(self).wf(),
            read_region(answer) == old(self)@.read_result(),
            final(self)@ == old(self)@.after_read(),
            final(self)@.pending() == old(self)@.pending(),
            answer is Ok <==> !old(self)@.read_in_progress && old(self)@.pending().len() > 0,
            answer matches Ok(grant) ==> ({
                &&& final(self)@.admits_read(grant@)
                &&& 1 <= grant@.len <= old(self)@.pending().len()
                &&& grant@.end() <= N
                &&& final(self)@.data.subrange(grant@.start as int, grant@.end() as int) == old(
                    self,
                )@.pending().subrange(0, grant@.len as int)
            }),
    {
        proof {
            read_step(self@);
        }
        if self.trk.read_in_progress {
            return Err(Error::GrantInProgress);
        }
        let write = self.trk.write;
        let mut last = self.trk.last;
        let mut read = self.trk.read;
        let max = N;

        if (read == last) && (write < read) {
            // The tail has been used up: start over at the front, and put
            // `last` back at the end of the storage
            read = 0;
            self.trk.read = 0;
            if last != max {
                self.trk.last = max;
                last = max;
            }
        }
        let end = if write < read {
            // Inverted: the readable bytes end at `last`
            last
        } else {
            // Linear: they end at `write`
            write
        };
        let sz = end - read;

        if sz == 0 {
            return Err(Error::InsufficientSize);
        }
        self.trk.read_in_progress = true;

        Ok(GrantR { start: read, len: sz })
    }

    /// Release the first `used` bytes of a read grant, allowing the space
    /// to be used by later writes. The rest of the region stays committed.
    pub fn release(&mut self, used: usize, grant: GrantR)
        requires
            old(self).wf(),
            old(self)@.admits_read(grant@),
            used <= grant@.len,
        ensures
            final(self).wf(),
            final(self)@ == old(self)@.released(used as nat),
            !final(self)@.read_in_progress,
            final(self)@.pending() == old(self)@.pending().subrange(
                used as int,
                old(self)@.pending().len() as int,
            ),
    {
        proof {
            release_step(self@, grant@, used as nat);
        }
        self.consumed = Ghost(
            self.consumed@ + self.buf@.subrange(self.trk.read as int, self.trk.read + used),
        );
        self.trk.read = self.trk.read + used;
        self.trk.read_in_progress = false;
    }

    /// Gives out the two handles, one for the writing side and one for the
    /// reading side. It can be done once.
    pub fn split(&mut self) -> (handles: (Producer, Consumer))
        requires
            old(self).wf(),
            !old(self)@.split,
        ensures
            final(self).wf(),
            final(self)@ == old(self)@.split_up(),
    {
        self.is_split = true;
        crate::handles::pair()
    }
}

} // verus!
