//! The mathematical value of a queue, and the steps that change it.

use crate::error::Error;
use vstd::prelude::*;

verus! {

/// `len` bytes of the backing storage, starting at offset `start`.
pub struct Region {
    pub start: nat,
    pub len: nat,
}

impl Region {
    /// The offset one past the last byte.
    pub open spec fn end(self) -> nat {
        self.start + self.len
    }

    /// True when the two regions share no offset.
    pub open spec fn disjoint(self, other: Region) -> bool {
        self.end() <= other.start || other.end() <= self.start
    }
}

/// The value of the cursor record.
pub struct Cursors {
    pub write: nat,
    pub read: nat,
    pub last: nat,
    pub reserve: nat,
    pub read_in_progress: bool,
}

/// The value of a queue.
pub struct State {
    /// Number of bytes of backing storage.
    pub capacity: nat,
    /// Offset at which the next committed byte will land.
    pub write: nat,
    /// Offset of the next byte to be read.
    pub read: nat,
    /// End of the readable bytes while inverted; the capacity otherwise.
    pub last: nat,
    /// End of the outstanding write grant; equal to `write` when there is none.
    pub reserve: nat,
    /// True while a read grant is outstanding.
    pub read_in_progress: bool,
    /// True once the handles have been given out.
    pub split: bool,
    /// The backing storage.
    pub data: Seq<u8>,
    /// Every byte committed so far, in order.
    pub produced: Seq<u8>,
    /// Every byte released so far, in order.
    pub consumed: Seq<u8>,
}

/// One operation on a queue, as a caller can ask for it.
pub enum Step {
    /// `grant` of exactly so many bytes.
    Grant(nat),
    /// `grant_max` of up to so many bytes.
    GrantMax(nat),
    /// The holder of the write grant leaves these bytes in its region.
    Fill(Seq<u8>),
    /// `commit` of the first so many bytes of the write grant.
    Commit(nat),
    /// `read`.
    Read,
    /// `release` of the first so many bytes of the read grant for the region.
    Release(Region, nat),
    /// `split`.
    Split,
}

/// The smaller of two naturals.
pub open spec fn smaller(a: nat, b: nat) -> nat {
    if a <= b {
        a
    } else {
        b
    }
}

impl State {
    /// A queue over `data` on which nothing has happened yet.
    pub open spec fn fresh(data: Seq<u8>) -> State {
        State {
            capacity: data.len(),
            write: 0,
            read: 0,
            last: data.len(),
            reserve: 0,
            read_in_progress: false,
            split: false,
            data,
            produced: Seq::empty(),
            consumed: Seq::empty(),
        }
    }

    /// The cursor record alone.
    pub open spec fn cursors(self) -> Cursors {
        Cursors {
            write: self.write,
            read: self.read,
            last: self.last,
            reserve: self.reserve,
            read_in_progress: self.read_in_progress,
        }
    }

    /// The writer has wrapped to the front and now lies before the reader.
    pub open spec fn inverted(self) -> bool {
        self.write < self.read
    }

    /// The committed bytes that have not been released, oldest first.
    pub open spec fn pending(self) -> Seq<u8> {
        if self.inverted() {
            self.data.subrange(self.read as int, self.last as int) + self.data.subrange(
                0,
                self.write as int,
            )
        } else {
            self.data.subrange(self.read as int, self.write as int)
        }
    }

    /// The region of the outstanding write grant, if there is one. A grant
    /// made by appending starts at `write`; one that wraps to the front
    /// starts at offset 0 and ends before `write`.
    pub open spec fn write_grant(self) -> Option<Region> {
        if self.reserve == self.write {
            None
        } else if self.reserve > self.write {
            Some(Region { start: self.write, len: (self.reserve - self.write) as nat })
        } else {
            Some(Region { start: 0, len: self.reserve })
        }
    }

    /// The cursors lie in the storage and in the order the layout demands.
    pub open spec fn cursors_ordered(self) -> bool {
        &&& self.read <= self.last <= self.capacity
        &&& self.write <= self.capacity
        &&& !self.inverted() ==> self.last == self.capacity
    }

    /// The reserved space never reaches a committed byte: while inverted it
    /// ends strictly before `read`; a wrapped grant ends strictly before
    /// `read` too.
    pub open spec fn reserve_placed(self) -> bool {
        ||| self.reserve == self.write
        ||| self.write < self.reserve && if self.inverted() {
            self.reserve < self.read
        } else {
            self.reserve <= self.capacity
        }
        ||| 0 < self.reserve < self.read && self.read <= self.write
    }

    /// What holds of every queue between any two steps.
    pub open spec fn inv(self) -> bool {
        &&& self.data.len() == self.capacity
        &&& self.cursors_ordered()
        &&& self.reserve_placed()
        &&& self.produced == self.consumed + self.pending()
    }

    /// Where a grant of exactly `sz` bytes would start, if it fits.
    pub open spec fn exact_start(self, sz: nat) -> Option<nat> {
        if sz == 0 {
            None
        } else if self.inverted() {
            if self.write + sz < self.read {
                Some(self.write)
            } else {
                None
            }
        } else if self.write + sz <= self.capacity {
            Some(self.write)
        } else if sz < self.read {
            Some(0nat)
        } else {
            None
        }
    }

    /// What `grant(sz)` answers.
    pub open spec fn grant_result(self, sz: nat) -> Result<Region, Error> {
        if self.reserve != self.write {
            Err(Error::GrantInProgress)
        } else {
            match self.exact_start(sz) {
                Some(start) => Ok(Region { start, len: sz }),
                None => Err(Error::InsufficientSize),
            }
        }
    }

    /// The largest region of at most `sz` bytes that can be granted, if any
    /// byte can.
    pub open spec fn max_region(self, sz: nat) -> Option<Region> {
        if sz == 0 {
            None
        } else if self.inverted() {
            if self.read - self.write > 1 {
                Some(
                    Region {
                        start: self.write,
                        len: smaller((self.read - self.write - 1) as nat, sz),
                    },
                )
            } else {
                None
            }
        } else if self.write != self.capacity {
            Some(
                Region { start: self.write, len: smaller((self.capacity - self.write) as nat, sz) },
            )
        } else if self.read > 1 {
            Some(Region { start: 0, len: smaller((self.read - 1) as nat, sz) })
        } else {
            None
        }
    }

    /// What `grant_max(sz)` answers.
    pub open spec fn grant_max_result(self, sz: nat) -> Result<Region, Error> {
        if self.reserve != self.write {
            Err(Error::GrantInProgress)
        } else {
            match self.max_region(sz) {
                Some(region) => Ok(region),
                None => Err(Error::InsufficientSize),
            }
        }
    }

    /// The queue after `region` has been granted for writing.
    pub open spec fn reserved(self, region: Region) -> State {
        State { reserve: region.end(), ..self }
    }

    /// The queue after `grant(sz)`: the region is reserved where one was
    /// granted, and nothing changes where none was.
    pub open spec fn after_grant(self, sz: nat) -> State {
        match self.grant_result(sz) {
            Ok(region) => self.reserved(region),
            Err(_) => self,
        }
    }

    /// The queue after `grant_max(sz)`: the region is reserved where one was
    /// granted, and nothing changes where none was.
    pub open spec fn after_grant_max(self, sz: nat) -> State {
        match self.grant_max_result(sz) {
            Ok(region) => self.reserved(region),
            Err(_) => self,
        }
    }

    /// The queue after the bytes of `region` have been replaced by `bytes`.
    pub open spec fn with_region(self, region: Region, bytes: Seq<u8>) -> State {
        State {
            data: self.data.subrange(0, region.start as int) + bytes + self.data.subrange(
                region.end() as int,
                self.capacity as int,
            ),
            ..self
        }
    }

    /// The queue after the first `used` bytes of the outstanding write grant
    /// have been committed. Where the grant had wrapped to the front and
    /// bytes remain between `write` and the capacity, `last` moves back to
    /// the old `write`.
    pub open spec fn committed(self, used: nat) -> State
        recommends
            self.write_grant() is Some,
    {
        let start = self.write_grant()->0.start;
        let end = start + used;
        State {
            write: end,
            reserve: end,
            last: if end < self.write && self.write != self.capacity {
                self.write
            } else {
                self.last
            },
            produced: self.produced + self.data.subrange(start as int, end as int),
            ..self
        }
    }

    /// The reader has used up the bytes before `last` while inverted: its
    /// next step starts over at offset 0.
    pub open spec fn drained_tail(self) -> bool {
        self.read == self.last && self.inverted()
    }

    /// The queue with `read` back at 0 and `last` at the capacity where the
    /// reader has used up the tail; the queue itself otherwise.
    pub open spec fn rewound(self) -> State {
        if self.drained_tail() {
            State { read: 0, last: self.capacity, ..self }
        } else {
            self
        }
    }

    /// The contiguous committed bytes that start at `read`.
    pub open spec fn readable(self) -> Region {
        Region {
            start: self.read,
            len: if self.inverted() {
                (self.last - self.read) as nat
            } else {
                (self.write - self.read) as nat
            },
        }
    }

    /// What `read()` answers.
    pub open spec fn read_result(self) -> Result<Region, Error> {
        if self.read_in_progress {
            Err(Error::GrantInProgress)
        } else if self.rewound().readable().len == 0 {
            Err(Error::InsufficientSize)
        } else {
            Ok(self.rewound().readable())
        }
    }

    /// The queue after `read()`.
    pub open spec fn after_read(self) -> State {
        if self.read_in_progress {
            self
        } else {
            State { read_in_progress: self.rewound().readable().len != 0, ..self.rewound() }
        }
    }

    /// `region` can be the outstanding read grant: it starts at `read` and
    /// holds committed bytes only.
    pub open spec fn admits_read(self, region: Region) -> bool {
        &&& self.read_in_progress
        &&& region.start == self.read
        &&& 0 < region.len <= self.readable().len
    }

    /// The queue after the first `used` bytes of the outstanding read grant
    /// have been released.
    pub open spec fn released(self, used: nat) -> State {
        State {
            read: self.read + used,
            read_in_progress: false,
            consumed: self.consumed + self.data.subrange(
                self.read as int,
                (self.read + used) as int,
            ),
            ..self
        }
    }

    /// What only the writing side changes is the same in both queues.
    pub open spec fn same_writer_part(self, other: State) -> bool {
        &&& self.write == other.write
        &&& self.reserve == other.reserve
        &&& self.data == other.data
        &&& self.produced == other.produced
    }

    /// What only the reading side changes is the same in both queues.
    pub open spec fn same_reader_part(self, other: State) -> bool {
        &&& self.read == other.read
        &&& self.read_in_progress == other.read_in_progress
        &&& self.consumed == other.consumed
    }

    /// The queue after the handles have been given out.
    pub open spec fn split_up(self) -> State {
        State { split: true, ..self }
    }

    /// The caller may take `step`: it holds the grant that the step hands
    /// back or writes to, and stays within it. Asking for a grant is always
    /// allowed.
    pub open spec fn allows(self, step: Step) -> bool {
        match step {
            Step::Grant(_) | Step::GrantMax(_) | Step::Read => true,
            Step::Fill(bytes) => self.write_grant() matches Some(g) && bytes.len() == g.len,
            Step::Commit(used) => self.write_grant() matches Some(g) && used <= g.len,
            Step::Release(region, used) => self.admits_read(region) && used <= region.len,
            Step::Split => !self.split,
        }
    }

    /// The queue after `step`.
    pub open spec fn step(self, step: Step) -> State {
        match step {
            Step::Grant(sz) => self.after_grant(sz),
            Step::GrantMax(sz) => self.after_grant_max(sz),
            Step::Fill(bytes) => self.with_region(self.write_grant()->0, bytes),
            Step::Commit(used) => self.committed(used),
            Step::Read => self.after_read(),
            Step::Release(_, used) => self.released(used),
            Step::Split => self.split_up(),
        }
    }

    /// The caller may take the steps one after the other.
    pub open spec fn allows_all(self, steps: Seq<Step>) -> bool
        decreases steps.len(),
    {
        steps.len() == 0 || (self.allows(steps[0]) && self.step(steps[0]).allows_all(
            steps.drop_first(),
        ))
    }

    /// The queue after the steps, taken one after the other.
    pub open spec fn run(self, steps: Seq<Step>) -> State
        decreases steps.len(),
    {
        if steps.len() == 0 {
            self
        } else {
            self.step(steps[0]).run(steps.drop_first())
        }
    }
}

} // verus!
