//! The receiving side of a stream, whose chunks are as large as the browser makes them.

use bytes::{Bytes, BytesMut};
use vstd::prelude::*;

use crate::buffer;

verus! {

/// The receiving side of a stream: what was received beyond what was asked for waits here.
pub struct RecvStream {
    buffer: BytesMut,
}

impl View for RecvStream {
    type V = Seq<u8>;

    closed spec fn view(&self) -> Seq<u8> {
        buffer::bytes_mut_of(self.buffer)
    }
}

/// What a read comes to.
pub enum ReadStep {
    /// This chunk was received before.
    Return(Bytes),
    /// Read from the browser, and hand the outcome to [`RecvStream::received`].
    Read,
}

/// The first `max` bytes, or all if there are no more.
pub open spec fn front(data: Seq<u8>, max: usize) -> Seq<u8> {
    if data.len() > max {
        data.take(max as int)
    } else {
        data
    }
}

/// What comes after the first `max` bytes.
pub open spec fn back(data: Seq<u8>, max: usize) -> Seq<u8> {
    if data.len() > max {
        data.skip(max as int)
    } else {
        Seq::empty()
    }
}

impl RecvStream {
    /// Nothing was received yet.
    pub fn new() -> (r: RecvStream)
        ensures
            r@ == Seq::<u8>::empty(),
    {
        RecvStream { buffer: buffer::bytes_mut_new() }
    }

    /// The next chunk, of `max` bytes at the most, if something was received before.
    pub fn read_chunk(&mut self, max: usize) -> (r: ReadStep)
        ensures
            if old(self)@.len() > 0 {
                &&& r matches ReadStep::Return(chunk) && buffer::bytes_of(chunk) == front(
                    old(self)@,
                    max,
                )
                &&& final(self)@ == back(old(self)@, max)
            } else {
                r == ReadStep::Read && final(self)@ == old(self)@
            },
    {
        let len: usize = buffer::bytes_mut_len(&self.buffer);
        if len == 0 {
            return ReadStep::Read;
        }
        let size: usize = if max < len {
            max
        } else {
            len
        };
        let chunk = buffer::bytes_mut_freeze(buffer::bytes_mut_split_to(&mut self.buffer, size));
        assert(buffer::bytes_of(chunk) =~= front(old(self)@, max));
        assert(self@ =~= back(old(self)@, max));
        ReadStep::Return(chunk)
    }

    /// The next chunk, of `max` bytes at the most, of what was received from the browser; nothing
    /// at the end of the stream. What comes after it is kept for the next read.
    pub fn received(&mut self, data: Option<Vec<u8>>, max: usize) -> (r: Option<Bytes>)
        requires
            old(self)@.len() == 0,
        ensures
            match data {
                Some(data) => {
                    &&& r matches Some(chunk) && buffer::bytes_of(chunk) == front(data@, max)
                    &&& final(self)@ == back(data@, max)
                },
                None => r is None && final(self)@ == old(self)@,
            },
    {
        let mut chunk = match data {
            Some(data) => buffer::bytes_from_vec(data),
            None => return None,
        };
        let ghost all = buffer::bytes_of(chunk);
        if buffer::bytes_len(&chunk) > max {
            // The chunk is too big; add the tail to the buffer for next read.
            let tail = buffer::bytes_split_off(&mut chunk, max);
            buffer::bytes_mut_extend(&mut self.buffer, buffer::bytes_slice(&tail));
            assert(self@ =~= back(all, max));
        }
        assert(self@ =~= back(all, max));
        Some(chunk)
    }
}

/// A read neither loses nor doubles a byte: what it returns and what it keeps is what there was,
/// in order, and it returns no more than was asked for.
pub proof fn read_keeps_all_bytes(data: Seq<u8>, max: usize)
    ensures
        front(data, max) + back(data, max) == data,
        front(data, max).len() <= max,
{
    assert(front(data, max) + back(data, max) =~= data);
}

/// What was received before is read before anything else: as much of it as is asked for, from the
/// front, and what comes after it stays. Only without anything left is the browser asked.
pub proof fn rest_is_read_first(stream: &mut RecvStream, max: usize, step: ReadStep)
    requires
        call_ensures(RecvStream::read_chunk, (stream, max), step),
    ensures
        step is Read <==> old(stream)@.len() == 0,
        step matches ReadStep::Return(chunk) ==> {
            let bytes = buffer::bytes_of(chunk);
            &&& bytes + final(stream)@ == old(stream)@
            &&& bytes.len() <= max
            &&& bytes.len() == max || final(stream)@.len() == 0
        },
        step is Read ==> final(stream)@ == old(stream)@,
{
    assert(front(old(stream)@, max) + back(old(stream)@, max) =~= old(stream)@);
}

/// What the browser gives is read from the front, as much of it as is asked for, and what comes
/// after it waits for the next read: nothing is lost. The end of the stream is passed on.
pub proof fn received_chunk_is_read_or_kept(
    stream: &mut RecvStream,
    data: Option<Vec<u8>>,
    max: usize,
    read: Option<Bytes>,
    new: RecvStream,
)
    requires
        old(stream)@.len() == 0,
        call_ensures(RecvStream::received, (stream, data, max), read),
        call_ensures(RecvStream::new, (), new),
    ensures
        read is None <==> data is None,
        data is Some ==> {
            let bytes = buffer::bytes_of(read->0);
            &&& bytes + final(stream)@ == data->0@
            &&& bytes.len() <= max
            &&& bytes.len() == max || final(stream)@.len() == 0
        },
        data is None ==> final(stream)@.len() == 0,
        new@.len() == 0,
{
    if let Some(bytes) = data {
        assert(front(bytes@, max) + back(bytes@, max) =~= bytes@);
    }
}

} // verus!
