//! A seekable stream over bytes in memory.
use vstd::prelude::*;
use crate::cstring::is_c_text;
use crate::custom_streams::{CloseStream, SeekFrom, SeekableStream, Stream};

verus! {

/// The text of the error for a seek to before the start of the stream, or
/// to a position that does not fit.
pub const INVALID_SEEK: &'static str = "invalid seek to a negative or overflowing position";

/// The text of the seek error is fit for a C string.
pub proof fn lemma_invalid_seek_is_c_text()
    ensures
        is_c_text(INVALID_SEEK@),
{
    reveal_strlit("invalid seek to a negative or overflowing position");
    let text = INVALID_SEEK@;
    assert(vstd::utf8::is_ascii_chars(text));
    vstd::utf8::is_ascii_chars_encode_utf8(text);
}

/// A stream that reads from bytes in memory, from a position that seeks
/// can move anywhere, also past the end, where reads give nothing.
pub struct MemoryStream {
    data: Vec<u8>,
    pos: u64,
}

/// The position that a seek gives in a stream of `len` bytes at `pos`, or
/// `None` where it would lie before the start or not fit.
pub open spec fn seek_target(len: nat, pos: u64, to: SeekFrom) -> Option<u64> {
    let target: int = match to {
        SeekFrom::Start(p) => p as int,
        SeekFrom::End(offset) => len + offset,
        SeekFrom::Current(offset) => pos + offset,
    };
    if 0 <= target <= u64::MAX {
        Some(target as u64)
    } else {
        None
    }
}

/// How many bytes a read of at most `requested` gives in a stream of `len`
/// bytes at `pos`.
pub open spec fn read_count(len: nat, pos: u64, requested: usize) -> nat {
    if pos >= len {
        0
    } else if requested <= len - pos {
        requested as nat
    } else {
        (len - pos) as nat
    }
}

/// The bytes that a read of at most `requested` gives in a stream over
/// `bytes` at `pos`: those from the position on, as many as are asked for or
/// as are left.
pub open spec fn read_bytes(bytes: Seq<u8>, pos: u64, requested: usize) -> Seq<u8> {
    if pos >= bytes.len() {
        Seq::empty()
    } else {
        bytes.subrange(pos as int, pos + read_count(bytes.len(), pos, requested))
    }
}

impl MemoryStream {
    /// The bytes of the stream.
    pub closed spec fn bytes(&self) -> Seq<u8> {
        self.data@
    }

    /// The position that the next read starts at.
    pub closed spec fn position(&self) -> u64 {
        self.pos
    }

    /// A stream over `data`, at its start.
    pub fn new(data: Vec<u8>) -> (r: MemoryStream)
        ensures
            r.bytes() == data@,
            r.position() == 0,
    {
        MemoryStream { data, pos: 0 }
    }

    /// The position that the next read starts at.
    pub fn stream_position(&self) -> (r: u64)
        ensures
            r == self.position(),
    {
        self.pos
    }

    /// The bytes of the stream, given back.
    pub fn into_inner(self) -> (r: Vec<u8>)
        ensures
            r@ == self.bytes(),
    {
        self.data
    }

    fn offset_from(base: u64, offset: i64) -> (r: Option<u64>)
        ensures
            r == if 0 <= base + offset <= u64::MAX {
                Some((base + offset) as u64)
            } else {
                None
            },
    {
        if offset >= 0 {
            base.checked_add(offset as u64)
        } else {
            let back: u64 = if offset == i64::MIN {
                0x8000_0000_0000_0000u64
            } else {
                (-offset) as u64
            };
            base.checked_sub(back)
        }
    }
}

impl CloseStream for MemoryStream {
    /// Closing a stream over memory does nothing and cannot fail.
    fn close(&mut self) -> (r: Result<(), String>)
        ensures
            r is Ok,
            *final(self) == *old(self),
    {
        Ok(())
    }
}

impl Stream for MemoryStream {
    /// Reads the bytes from the position on, as many as are asked for or as
    /// are left, and moves the position behind them. It cannot fail.
    fn read(&mut self, requested: usize) -> (r: Result<Vec<u8>, String>)
        ensures
            final(self).bytes() == old(self).bytes(),
            r matches Ok(bytes) && bytes@ == read_bytes(
                old(self).bytes(),
                old(self).position(),
                requested,
            ),
            final(self).position() == old(self).position() + read_count(
                old(self).bytes().len(),
                old(self).position(),
                requested,
            ),
    {
        let len = self.data.len();
        let mut out: Vec<u8> = Vec::new();
        if self.pos >= len as u64 {
            return Ok(out);
        }
        let start: usize = self.pos as usize;
        let count: usize = if requested <= len - start {
            requested
        } else {
            len - start
        };
        let mut i: usize = 0;
        while i < count
            invariant
                i <= count,
                start + count <= len,
                len == self.data@.len(),
                self.data@ == old(self).data@,
                out@ == self.data@.subrange(start as int, start + i),
            decreases count - i,
        {
            out.push(self.data[start + i]);
            proof {
                assert(self.data@.subrange(start as int, start + i + 1) =~= self.data@.subrange(
                    start as int,
                    start + i,
                ).push(self.data@[start + i]));
            }
            i += 1;
        }
        self.pos = (start + count) as u64;
        Ok(out)
    }
}

impl SeekableStream for MemoryStream {
    /// Moves the position. A target before the start of the stream, or one
    /// that does not fit, is an error and leaves the position alone.
    fn seek(&mut self, pos: SeekFrom) -> (r: Result<u64, String>)
        ensures
            final(self).bytes() == old(self).bytes(),
            match seek_target(old(self).bytes().len(), old(self).position(), pos) {
                Some(target) => r == Ok::<u64, String>(target) && final(self).position()
                    == target,
                None => r matches Err(text) && text@ == INVALID_SEEK@ && final(self).position()
                    == old(self).position(),
            },
    {
        let target = match pos {
            SeekFrom::Start(p) => Some(p),
            SeekFrom::End(offset) => Self::offset_from(self.data.len() as u64, offset),
            SeekFrom::Current(offset) => Self::offset_from(self.pos, offset),
        };
        match target {
            Some(t) => {
                self.pos = t;
                Ok(t)
            },
            None => {
                proof {
                    lemma_invalid_seek_is_c_text();
                }
                Err(INVALID_SEEK.to_owned())
            },
        }
    }
}

} // verus!
