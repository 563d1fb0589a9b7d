//! The two sides of a queue: a handle that can only write and a handle that
//! can only read.
//!
//! A handle is a capability, not a pointer: each operation is told which
//! queue to work on. What one side does never changes what belongs to the
//! other side.

use crate::error::Error;
use crate::queue::{read_region, write_region, BBQueue, GrantR, GrantW};
use vstd::prelude::*;

verus! {

/// The writing side of a queue: it grants and commits, and never touches
/// `read`.
pub struct Producer {
    token: (),
}

/// The reading side of a queue: it reads and releases, and never touches
/// `write` or `reserve`.
pub struct Consumer {
    token: (),
}

/// The two handles of one queue.
pub(crate) fn pair() -> (Producer, Consumer) {
    (Producer { token: () }, Consumer { token: () })
}

impl Producer {
    /// Request a writable, contiguous section of memory of exactly `sz`
    /// bytes. If no such section is available, or `sz` is 0, an error is
    /// returned and the queue is unchanged.
    pub fn grant<'a, const N: usize>(
        &mut self,
        bbq: &mut BBQueue<'a, N>,
        sz: usize,
    ) -> (answer: Result<GrantW, Error>)
        requires
            old(bbq).wf(),
        ensures
            final(bbq).wf(),
            write_region(answer) == old(bbq)@.grant_result(sz as nat),
            final(bbq)@ == old(bbq)@.after_grant(sz as nat),
            answer matches Ok(grant) ==> ({
                &&& grant@.len == sz
                &&& grant@.end() <= N
                &&& final(bbq)@.write_grant() == Some(grant@)
            }),
            final(bbq)@.same_reader_part(old(bbq)@),
    {
        bbq.grant(sz)
    }

    /// Request a writable, contiguous section of memory of up to `sz`
    /// bytes. If fewer than `sz` bytes, but at least one, can be had in one
    /// piece, the grant is for those. If no space is available for writing,
    /// or `sz` is 0, an error is returned and the queue is unchanged.
    pub fn grant_max<'a, const N: usize>(
        &mut self,
        bbq: &mut BBQueue<'a, N>,
        sz: usize,
    ) -> (answer: Result<GrantW, Error>)
        requires
            old(bbq).wf(),
        ensures
            final(bbq).wf(),
            write_region(answer) == old(bbq)@.grant_max_result(sz as nat),
            final(bbq)@ == old(bbq)@.after_grant_max(sz as nat),
            answer matches Ok(grant) ==> ({
                &&& 1 <= grant@.len <= sz
                &&& grant@.end() <= N
                &&& final(bbq)@.write_grant() == Some(grant@)
            }),
            final(bbq)@.same_reader_part(old(bbq)@),
    {
        bbq.grant_max(sz)
    }

    /// Finalizes a writable grant given by `grant()` or `grant_max()`: its
    /// first `used` bytes become available to the reading side, the rest of
    /// the region is given up.
    pub fn commit<'a, const N: usize>(
        &mut self,
        bbq: &mut BBQueue<'a, N>,
        used: usize,
        grant: GrantW,
    )
        requires
            old(bbq).wf(),
            old(bbq)@.write_grant() == Some(grant@),
            used <= grant@.len,
        ensures
            final(bbq).wf(),
            final(bbq)@ == old(bbq)@.committed(used as nat),
            final(bbq)@.write_grant() is None,
            final(bbq)@.pending() == old(bbq)@.pending() + old(bbq)@.data.subrange(
                grant@.start as int,
                grant@.start + used,
            ),
            final(bbq)@.same_reader_part(old(bbq)@),
    {
        bbq.commit(used, grant)
    }
}

impl Consumer {
    /// Obtains a contiguous slice of committed bytes. This may not be all
    /// the committed bytes, if the writer has wrapped around: the rest is
    /// available after these have been released.
    pub fn read<'a, const N: usize>(&mut self, bbq: &mut BBQueue<'a, N>) -> (answer: Result<
        GrantR,
        Error,
    >)
        requires
            old(bbq).wf(),
        ensures
            final(bbq).wf(),
            read_region(answer) == old(bbq)@.read_result(),
            final(bbq)@ == old(bbq)@.after_read(),
            final(bbq)@.pending() == old(bbq)@.pending(),
            answer is Ok <==> !old(bbq)@.read_in_progress && old(bbq)@.pending().len() > 0,
            answer matches Ok(grant) ==> ({
                &&& final(bbq)@.admits_read(grant@)
                &&& 1 <= grant@.len <= old(bbq)@.pending().len()
                &&& grant@.end() <= N
                &&& final(bbq)@.data.subrange(grant@.start as int, grant@.end() as int) == old(
                    bbq,
                )@.pending().subrange(0, grant@.len as int)
            }),
            final(bbq)@.same_writer_part(old(bbq)@),
    {
        bbq.read()
    }

    /// Release the first `used` bytes of a read grant, allowing the space
    /// to be used by later writes. The rest of the region stays committed.
    pub fn release<'a, const N: usize>(
        &mut self,
        bbq: &mut BBQueue<'a, N>,
        used: usize,
        grant: GrantR,
    )
        requires
            old(bbq).wf(),
            old(bbq)@.admits_read(grant@),
            used <= grant@.len,
        ensures
            final(bbq).wf(),
            final(bbq)@ == old(bbq)@.released(used as nat),
            !final(bbq)@.read_in_progress,
            final(bbq)@.pending() == old(bbq)@.pending().subrange(
                used as int,
                old(bbq)@.pending().len() as int,
            ),
            final(bbq)@.same_writer_part(old(bbq)@),
    {
        bbq.release(used, grant)
    }
}

} // verus!
