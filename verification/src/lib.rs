//! A bipartite byte queue: a fixed array of bytes that hands out contiguous
//! regions, one for writing and one for reading, so that framed data never
//! has to be put together again across a wrap.
//!
//! The writer asks for a region ([`BBQueue::grant`], [`BBQueue::grant_max`]),
//! fills it in place ([`GrantW::buf`]) and commits what it has used
//! ([`BBQueue::commit`]). The reader asks for the committed bytes
//! ([`BBQueue::read`]), looks at them in place ([`GrantR::buf`]) and releases
//! what it has used ([`BBQueue::release`]). When the writer runs out of room
//! at the end of the array it starts over at the front: the queue is then
//! *inverted* until the reader has followed it there.
//!
//! ```text
//! let mut storage = [0u8; 8];
//! let mut bbq = BBQueue::new(&mut storage);
//! let grant = bbq.grant(4)?;
//! grant.buf(&mut bbq).copy_from_slice(b"abcd");
//! bbq.commit(4, grant);
//! let grant = bbq.read()?;
//! assert_eq!(grant.buf(&bbq), b"abcd");
//! bbq.release(4, grant);
//! ```
//!
//! The queue is described twice. [`State`] is its mathematical value: the
//! cursors, the flags, the stored bytes, and the bytes that have passed
//! through. [`BBQueue`] is the executable queue; each of its operations
//! states the `State` it leaves behind. What holds of every `State`, and of
//! every step, is proved in [`laws`].
//!
//! A grant is a token: it names its region, and the queue it came from
//! lends the bytes. `commit`, `release` and the two `buf` ask that the token
//! is the one the queue has outstanding; a caller that cannot know this
//! statically asks [`BBQueue::holds_write_grant`] or
//! [`BBQueue::holds_read_grant`] first.
//!
//! Every operation has the queue to itself for as long as it runs: the
//! cursors are plain integers.

pub mod error;
pub mod handles;
pub mod laws;
pub mod queue;
pub mod state;

pub use error::Error;
pub use handles::{Consumer, Producer};
pub use queue::{BBQueue, GrantR, GrantW, Track};
pub use state::{Cursors, Region, State, Step};
