//! Per-channel serial buffers. Channel 1 (program stdout) is the only
//! defined channel: a bounded output buffer drained into protocol events
//! and a bounded input buffer filled by the frontend.
//!
//! Reads consume the *most recently written* byte of the input buffer
//! (last-in, first-out): the read cursor rewinds over the byte it just
//! looked at, and that order is part of this subsystem's contract.

use vstd::assert_seqs_equal;
use vstd::prelude::*;

use crate::protocol::{Event, SerialData};

verus! {

/// Capacity of the channel-1 output buffer.
pub const STDOUT_CAPACITY: usize = 2048;

/// Capacity of the channel-1 input buffer.
pub const STDIN_CAPACITY: usize = 4096;

/// How a serial operation can fail.
#[derive(Debug, Clone, Copy, PartialEq, Eq, Structural)]
pub enum SerialError {
    /// The channel is not a defined serial channel.
    InvalidChannel,
    /// A write did not fit into the buffer in full.
    BufferOverflow,
    /// A read found no buffered data.
    NoData,
}

/// The serial subsystem: the two bounded buffers of channel 1.
pub struct Serial {
    pub stdout_buffer: Vec<u8>,
    pub stdin_buffer: Vec<u8>,
}

impl Serial {
    /// Both buffers hold no more than their capacity.
    pub open spec fn wf(&self) -> bool {
        &&& self.stdout_buffer@.len() <= STDOUT_CAPACITY
        &&& self.stdin_buffer@.len() <= STDIN_CAPACITY
    }

    /// The bytes written to channel 1 and not yet flushed.
    pub open spec fn out_view(&self) -> Seq<u8> {
        self.stdout_buffer@
    }

    /// The bytes buffered for reading on channel 1 and not yet consumed.
    pub open spec fn in_view(&self) -> Seq<u8> {
        self.stdin_buffer@
    }

    pub fn new() -> (r: Serial)
        ensures
            r.wf(),
            r.out_view() == Seq::<u8>::empty(),
            r.in_view() == Seq::<u8>::empty(),
    {
        Serial { stdout_buffer: Vec::new(), stdin_buffer: Vec::new() }
    }

    /// Append to the output buffer as many bytes as fit and return how
    /// many that was: the lesser of the write's length and the free room.
    pub fn write(&mut self, channel: u32, buffer: &[u8]) -> (r: Result<usize, SerialError>)
        requires
            old(self).wf(),
        ensures
            final(self).wf(),
            final(self).in_view() == old(self).in_view(),
            channel != 1 ==> r == Err::<usize, SerialError>(SerialError::InvalidChannel)
                && final(self).out_view() == old(self).out_view(),
            channel == 1 ==> {
                let free = STDOUT_CAPACITY - old(self).out_view().len();
                let n = if buffer@.len() <= free {
                    buffer@.len() as int
                } else {
                    free
                };
                &&& r == Ok::<usize, SerialError>(n as usize)
                &&& final(self).out_view() == old(self).out_view() + buffer@.subrange(0, n)
            },
    {
        if channel != 1 {
            return Err(SerialError::InvalidChannel);
        }
        let free = STDOUT_CAPACITY - self.stdout_buffer.len();
        let n = if buffer.len() <= free {
            buffer.len()
        } else {
            free
        };
        let mut i: usize = 0;
        while i < n
            invariant
                i <= n,
                n <= buffer@.len(),
                self.stdout_buffer@ == old(self).stdout_buffer@ + buffer@.subrange(0, i as int),
                n + old(self).stdout_buffer@.len() <= STDOUT_CAPACITY,
                self.stdin_buffer@ == old(self).stdin_buffer@,
            decreases n - i,
        {
            self.stdout_buffer.push(buffer[i]);
            proof {
                assert_seqs_equal!(
                    self.stdout_buffer@,
                    old(self).stdout_buffer@ + buffer@.subrange(0, i + 1)
                );
            }
            i = i + 1;
        }
        Ok(n)
    }

    /// Write the whole buffer to the output buffer, or fail. On overflow
    /// the part that fit stays written before the failure is reported.
    pub fn write_all(&mut self, channel: u32, buffer: &[u8]) -> (r: Result<(), SerialError>)
        requires
            old(self).wf(),
        ensures
            final(self).wf(),
            final(self).in_view() == old(self).in_view(),
            channel != 1 ==> r == Err::<(), SerialError>(SerialError::InvalidChannel)
                && final(self).out_view() == old(self).out_view(),
            channel == 1 && old(self).out_view().len() + buffer@.len() <= STDOUT_CAPACITY ==> r
                == Ok::<(), SerialError>(()) && final(self).out_view() == old(self).out_view()
                + buffer@,
            channel == 1 && old(self).out_view().len() + buffer@.len() > STDOUT_CAPACITY ==> r
                == Err::<(), SerialError>(SerialError::BufferOverflow) && final(self).out_view()
                == old(self).out_view() + buffer@.subrange(
                0,
                STDOUT_CAPACITY - old(self).out_view().len(),
            ),
    {
        if channel != 1 {
            return Err(SerialError::InvalidChannel);
        }
        let fits = buffer.len() <= STDOUT_CAPACITY - self.stdout_buffer.len();
        let _ = self.write(channel, buffer)?;
        proof {
            if buffer@.len() <= STDOUT_CAPACITY - old(self).out_view().len() {
                assert_seqs_equal!(buffer@.subrange(0, buffer@.len() as int), buffer@);
            }
        }
        if fits {
            Ok(())
        } else {
            Err(SerialError::BufferOverflow)
        }
    }

    /// Append frontend-supplied data to the input buffer, or fail when it
    /// does not all fit; the part that fit stays buffered.
    pub fn buffer_input(&mut self, channel: u32, buffer: &[u8]) -> (r: Result<(), SerialError>)
        requires
            old(self).wf(),
        ensures
            final(self).wf(),
            final(self).out_view() == old(self).out_view(),
            channel != 1 ==> r == Err::<(), SerialError>(SerialError::InvalidChannel)
                && final(self).in_view() == old(self).in_view(),
            channel == 1 && old(self).in_view().len() + buffer@.len() <= STDIN_CAPACITY ==> r
                == Ok::<(), SerialError>(()) && final(self).in_view() == old(self).in_view()
                + buffer@,
            channel == 1 && old(self).in_view().len() + buffer@.len() > STDIN_CAPACITY ==> r
                == Err::<(), SerialError>(SerialError::BufferOverflow) && final(self).in_view()
                == old(self).in_view() + buffer@.subrange(
                0,
                STDIN_CAPACITY - old(self).in_view().len(),
            ),
    {
        if channel != 1 {
            return Err(SerialError::InvalidChannel);
        }
        let free = STDIN_CAPACITY - self.stdin_buffer.len();
        let n = if buffer.len() <= free {
            buffer.len()
        } else {
            free
        };
        let mut i: usize = 0;
        while i < n
            invariant
                i <= n,
                n <= buffer@.len(),
                self.stdin_buffer@ == old(self).stdin_buffer@ + buffer@.subrange(0, i as int),
                n + old(self).stdin_buffer@.len() <= STDIN_CAPACITY,
                self.stdout_buffer@ == old(self).stdout_buffer@,
            decreases n - i,
        {
            self.stdin_buffer.push(buffer[i]);
            proof {
                assert_seqs_equal!(
                    self.stdin_buffer@,
                    old(self).stdin_buffer@ + buffer@.subrange(0, i + 1)
                );
            }
            i = i + 1;
        }
        if n == buffer.len() {
            proof {
                assert_seqs_equal!(buffer@.subrange(0, buffer@.len() as int), buffer@);
            }
            Ok(())
        } else {
            Err(SerialError::BufferOverflow)
        }
    }

    /// Read and consume the most recently buffered input byte.
    pub fn read_byte(&mut self, channel: u32) -> (r: Result<u8, SerialError>)
        requires
            old(self).wf(),
        ensures
            final(self).wf(),
            final(self).out_view() == old(self).out_view(),
            channel != 1 ==> r == Err::<u8, SerialError>(SerialError::InvalidChannel)
                && final(self).in_view() == old(self).in_view(),
            channel == 1 && old(self).in_view().len() == 0 ==> r == Err::<u8, SerialError>(
                SerialError::NoData,
            ) && final(self).in_view() == old(self).in_view(),
            channel == 1 && old(self).in_view().len() > 0 ==> r == Ok::<u8, SerialError>(
                old(self).in_view().last(),
            ) && final(self).in_view() == old(self).in_view().drop_last(),
    {
        if channel != 1 {
            return Err(SerialError::InvalidChannel);
        }
        match self.stdin_buffer.pop() {
            Some(b) => Ok(b),
            None => Err(SerialError::NoData),
        }
    }

    /// Read the most recently buffered input byte without consuming it.
    pub fn peek_byte(&self, channel: u32) -> (r: Result<u8, SerialError>)
        ensures
            channel != 1 ==> r == Err::<u8, SerialError>(SerialError::InvalidChannel),
            channel == 1 && self.in_view().len() == 0 ==> r == Err::<u8, SerialError>(
                SerialError::NoData,
            ),
            channel == 1 && self.in_view().len() > 0 ==> r == Ok::<u8, SerialError>(
                self.in_view().last(),
            ),
    {
        if channel != 1 {
            return Err(SerialError::InvalidChannel);
        }
        if self.stdin_buffer.len() == 0 {
            return Err(SerialError::NoData);
        }
        Ok(self.stdin_buffer[self.stdin_buffer.len() - 1])
    }

    /// The free room in the output buffer.
    pub fn num_free_bytes(&self, channel: u32) -> (r: Result<usize, SerialError>)
        requires
            self.wf(),
        ensures
            channel != 1 ==> r == Err::<usize, SerialError>(SerialError::InvalidChannel),
            channel == 1 ==> r == Ok::<usize, SerialError>(
                (STDOUT_CAPACITY - self.out_view().len()) as usize,
            ),
    {
        if channel != 1 {
            return Err(SerialError::InvalidChannel);
        }
        Ok(STDOUT_CAPACITY - self.stdout_buffer.len())
    }

    /// Drain the output buffer into one `Serial` event, or nothing when
    /// it is empty. The event's payload carries the drained bytes.
    pub fn flush(&mut self) -> (r: Option<Event>)
        requires
            old(self).wf(),
        ensures
            final(self).wf(),
            final(self).in_view() == old(self).in_view(),
            final(self).out_view() == Seq::<u8>::empty(),
            old(self).out_view().len() == 0 ==> r is None,
            old(self).out_view().len() > 0 ==> {
                &&& r matches Some(ev)
                &&& ev matches Event::Serial(sd)
                &&& sd.channel == 1
                &&& sd.data@ == crate::protocol::base64_of(old(self).out_view())
            },
    {
        if self.stdout_buffer.len() == 0 {
            return None;
        }
        let mut drained: Vec<u8> = Vec::new();
        core::mem::swap(&mut drained, &mut self.stdout_buffer);
        Some(Event::Serial(SerialData { channel: 1, data: crate::protocol::base64_encode(drained.as_slice()) }))
    }
}

/// A write of `B` to channel 1 returns exactly `min(len(B), free)` and
/// appends exactly that many bytes; the free room afterwards is the
/// capacity less the new cursor. This restates the `ensures` of
/// [`Serial::write`] as one law over the buffer contents.
pub proof fn lemma_serial_write_bound(pre: Serial, post: Serial, b: Seq<u8>, r: Result<
    usize,
    SerialError,
>)
    requires
        pre.wf(),
        post.wf(),
        // the transition `write(1, b)` makes, as its contract states it
        post.in_view() == pre.in_view(),
        r == Ok::<usize, SerialError>(
            if b.len() <= STDOUT_CAPACITY - pre.out_view().len() {
                b.len() as usize
            } else {
                (STDOUT_CAPACITY - pre.out_view().len()) as usize
            },
        ),
        post.out_view() == pre.out_view() + b.subrange(
            0,
            if b.len() <= STDOUT_CAPACITY - pre.out_view().len() {
                b.len() as int
            } else {
                STDOUT_CAPACITY - pre.out_view().len()
            },
        ),
    ensures
        r matches Ok(n) && n == vstd::math::min(b.len() as int, STDOUT_CAPACITY - pre.out_view().len()),
        post.out_view().len() == pre.out_view().len() + vstd::math::min(
            b.len() as int,
            STDOUT_CAPACITY - pre.out_view().len(),
        ),
        STDOUT_CAPACITY - post.out_view().len() == STDOUT_CAPACITY - pre.out_view().len()
            - vstd::math::min(b.len() as int, STDOUT_CAPACITY - pre.out_view().len()),
{
}

} // verus!
