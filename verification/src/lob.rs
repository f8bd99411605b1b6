//! Large objects.
//!
//! A temporary LOB is kept here as the bytes that were written to it. Offsets count
//! from one, as the database counts them.
use crate::enums::ODPIOracleTypeNum;
use crate::error::{ErrorKind, Info as ErrorInfo, Operation, Reason};
use crate::handle::HandleRef;
use vstd::prelude::*;

verus! {

/// A large object as a mathematical value.
pub struct LobView {
    /// The reference to the native LOB.
    pub handle: HandleRef,
    /// The database type of the LOB.
    pub lob_type: ODPIOracleTypeNum,
    /// The number of bytes that are best read or written at once.
    pub chunk_size: u32,
    /// The most bytes that a character of the LOB takes; one for a binary LOB.
    pub char_width: u32,
    /// Whether the LOB was opened and not closed since.
    pub open: bool,
    /// The content of the LOB.
    pub data: Seq<u8>,
}

/// The content `data` after `buf` was written from the place `start` on, counted from
/// zero: what stood there is overwritten, and what reaches beyond the end is appended.
pub open spec fn written(data: Seq<u8>, start: int, buf: Seq<u8>) -> Seq<u8> {
    data.take(start) + buf + (if start + buf.len() < data.len() {
        data.skip(start + buf.len())
    } else {
        Seq::empty()
    })
}

/// The part of `data` that a read of `length` bytes from the place `start` on, counted
/// from zero, yields: the bytes that there are, up to `length` of them.
pub open spec fn read(data: Seq<u8>, start: int, length: int) -> Seq<u8> {
    if start >= data.len() {
        Seq::empty()
    } else if start + length <= data.len() {
        data.subrange(start, start + length)
    } else {
        data.skip(start)
    }
}

/// A large object.
#[derive(Debug)]
pub struct Lob {
    handle: HandleRef,
    lob_type: ODPIOracleTypeNum,
    chunk_size: u32,
    char_width: u32,
    open: bool,
    data: Vec<u8>,
}

impl View for Lob {
    type V = LobView;

    closed spec fn view(&self) -> LobView {
        LobView {
            handle: self.handle,
            lob_type: self.lob_type,
            chunk_size: self.chunk_size,
            char_width: self.char_width,
            open: self.open,
            data: self.data@,
        }
    }
}

impl Lob {
    /// The empty LOB of the type `lob_type` for the native handle `inner`.
    pub fn new(inner: u64, lob_type: ODPIOracleTypeNum, chunk_size: u32, char_width: u32) -> (l:
        Lob)
        ensures
            l@ == (LobView {
                handle: HandleRef::minted(inner),
                lob_type,
                chunk_size,
                char_width,
                open: false,
                data: Seq::empty(),
            }),
            inner != 0 ==> l@.handle.spec_is_live(),
    {
        Lob {
            handle: HandleRef::new(inner),
            lob_type,
            chunk_size,
            char_width,
            open: false,
            data: Vec::new(),
        }
    }

    /// Whether the LOB can be used: a native handle is bound, no close has ended the
    /// use, and a reference is held.
    pub fn is_live(&self) -> (r: bool)
        ensures
            r == self@.handle.spec_is_live(),
    {
        self.handle.is_live()
    }

    /// The native handle of the LOB.
    pub fn inner(&self) -> (r: u64)
        ensures
            r == self@.handle.spec_inner(),
    {
        self.handle.inner()
    }

    /// Adds a reference to the LOB. `reply` is the answer of the native library. Refused
    /// are, in this order, a reference to what is not live, a count that cannot grow, and a
    /// call that failed.
    pub fn add_ref(&mut self, reply: Result<(), ErrorInfo>) -> (r: Result<(), ErrorKind>)
        ensures
            (final(self)@.handle, r) == old(self)@.handle.after_add_ref(
                Operation::LobAddRef,
                reply,
            ),
            final(self)@ == (LobView { handle: final(self)@.handle, ..old(self)@ }),
    {
        self.handle.add_ref(Operation::LobAddRef, reply)
    }

    /// Releases a reference to the LOB. `reply` is the answer of the native library. With
    /// the last release the use of the LOB ends: nothing is accepted any more, a further
    /// release included. Refused are a release where no reference is held, and a call that
    /// failed.
    pub fn release(&mut self, reply: Result<(), ErrorInfo>) -> (r: Result<(), ErrorKind>)
        ensures
            (final(self)@.handle, r) == old(self)@.handle.after_release(
                Operation::LobRelease,
                reply,
            ),
            final(self)@ == (LobView { handle: final(self)@.handle, ..old(self)@ }),
    {
        self.handle.release(Operation::LobRelease, reply)
    }

    /// Opens the LOB, so that several writes are handled as one. Refused are a LOB that
    /// is not live, and one that is open.
    pub fn open_resource(&mut self) -> (r: Result<(), ErrorKind>)
        ensures
            !old(self)@.handle.spec_is_live() ==> r == Err::<(), ErrorKind>(
                ErrorKind::InvalidArgument { reason: Reason::HandleNotLive },
            ),
            old(self)@.handle.spec_is_live() && old(self)@.open ==> r == Err::<(), ErrorKind>(
                ErrorKind::InvalidArgument { reason: Reason::ResourceNotOpen },
            ),
            old(self)@.handle.spec_is_live() && !old(self)@.open ==> r == Ok::<(), ErrorKind>(())
                && final(self)@ == (LobView { open: true, ..old(self)@ }),
            r is Err ==> final(self)@ == old(self)@,
    {
        if !self.handle.is_live() {
            return Err(ErrorKind::InvalidArgument { reason: Reason::HandleNotLive });
        }
        if self.open {
            return Err(ErrorKind::InvalidArgument { reason: Reason::ResourceNotOpen });
        }
        self.open = true;
        Ok(())
    }

    /// Closes the LOB that was opened. Refused are a LOB that is not live, and one that
    /// is not open.
    pub fn close_resource(&mut self) -> (r: Result<(), ErrorKind>)
        ensures
            !old(self)@.handle.spec_is_live() ==> r == Err::<(), ErrorKind>(
                ErrorKind::InvalidArgument { reason: Reason::HandleNotLive },
            ),
            old(self)@.handle.spec_is_live() && !old(self)@.open ==> r == Err::<(), ErrorKind>(
                ErrorKind::InvalidArgument { reason: Reason::ResourceNotOpen },
            ),
            old(self)@.handle.spec_is_live() && old(self)@.open ==> r == Ok::<(), ErrorKind>(())
                && final(self)@ == (LobView { open: false, ..old(self)@ }),
            r is Err ==> final(self)@ == old(self)@,
    {
        if !self.handle.is_live() {
            return Err(ErrorKind::InvalidArgument { reason: Reason::HandleNotLive });
        }
        if !self.open {
            return Err(ErrorKind::InvalidArgument { reason: Reason::ResourceNotOpen });
        }
        self.open = false;
        Ok(())
    }

    /// Whether the LOB was opened and not closed since.
    pub fn get_is_resource_open(&self) -> (r: Result<bool, ErrorKind>)
        ensures
            self@.handle.spec_is_live() ==> r == Ok::<bool, ErrorKind>(self@.open),
            !self@.handle.spec_is_live() ==> r == Err::<bool, ErrorKind>(
                ErrorKind::InvalidArgument { reason: Reason::HandleNotLive },
            ),
    {
        if !self.handle.is_live() {
            return Err(ErrorKind::InvalidArgument { reason: Reason::HandleNotLive });
        }
        Ok(self.open)
    }

    /// The number of bytes that are best read or written at once.
    pub fn get_chunk_size(&self) -> (r: Result<u32, ErrorKind>)
        ensures
            self@.handle.spec_is_live() ==> r == Ok::<u32, ErrorKind>(self@.chunk_size),
            !self@.handle.spec_is_live() ==> r == Err::<u32, ErrorKind>(
                ErrorKind::InvalidArgument { reason: Reason::HandleNotLive },
            ),
    {
        if !self.handle.is_live() {
            return Err(ErrorKind::InvalidArgument { reason: Reason::HandleNotLive });
        }
        Ok(self.chunk_size)
    }

    /// The number of bytes that a buffer needs for `size_in_chars` characters of the
    /// LOB: that number for a binary LOB, and for a character LOB that number times the
    /// most bytes that a character takes. Refused are a LOB that is not live, and a
    /// number of bytes beyond 64 bits.
    pub fn get_buffer_size(&self, size_in_chars: u64) -> (r: Result<u64, ErrorKind>)
        ensures
            !self@.handle.spec_is_live() ==> r == Err::<u64, ErrorKind>(
                ErrorKind::InvalidArgument { reason: Reason::HandleNotLive },
            ),
            self@.handle.spec_is_live() ==> (if self@.lob_type == ODPIOracleTypeNum::Clob
                || self@.lob_type == ODPIOracleTypeNum::NClob {
                if size_in_chars * self@.char_width <= u64::MAX {
                    r == Ok::<u64, ErrorKind>((size_in_chars * self@.char_width) as u64)
                } else {
                    r == Err::<u64, ErrorKind>(
                        ErrorKind::InvalidArgument { reason: Reason::ValueTooLarge },
                    )
                }
            } else {
                r == Ok::<u64, ErrorKind>(size_in_chars)
            }),
    {
        if !self.handle.is_live() {
            return Err(ErrorKind::InvalidArgument { reason: Reason::HandleNotLive });
        }
        match self.lob_type {
            ODPIOracleTypeNum::Clob | ODPIOracleTypeNum::NClob => {
                match size_in_chars.checked_mul(self.char_width as u64) {
                    Some(n) => Ok(n),
                    None => Err(ErrorKind::InvalidArgument { reason: Reason::ValueTooLarge }),
                }
            },
            _ => Ok(size_in_chars),
        }
    }

    /// The number of bytes in the LOB.
    pub fn get_size(&self) -> (r: Result<u64, ErrorKind>)
        ensures
            self@.handle.spec_is_live() ==> r == Ok::<u64, ErrorKind>(self@.data.len() as u64),
            !self@.handle.spec_is_live() ==> r == Err::<u64, ErrorKind>(
                ErrorKind::InvalidArgument { reason: Reason::HandleNotLive },
            ),
    {
        if !self.handle.is_live() {
            return Err(ErrorKind::InvalidArgument { reason: Reason::HandleNotLive });
        }
        Ok(self.data.len() as u64)
    }

    /// Writes `buffer` into the LOB from `offset` on; the first byte of the LOB has the
    /// offset one. What stood there is overwritten, and what reaches beyond the end
    /// makes the LOB longer. Refused are, in this order, a LOB that is not live, the
    /// offset zero, an offset that leaves a gap after the end of the LOB, and a write
    /// that would make the LOB longer than the machine can address.
    pub fn write_bytes(&mut self, buffer: &Vec<u8>, offset: u64) -> (r: Result<(), ErrorKind>)
        ensures
            !old(self)@.handle.spec_is_live() ==> r == Err::<(), ErrorKind>(
                ErrorKind::InvalidArgument { reason: Reason::HandleNotLive },
            ),
            old(self)@.handle.spec_is_live() && (offset == 0 || offset - 1 > old(self)@.data.len())
                ==> r == Err::<(), ErrorKind>(
                ErrorKind::InvalidArgument { reason: Reason::IndexOutOfRange },
            ),
            old(self)@.handle.spec_is_live() && 1 <= offset <= old(self)@.data.len() + 1 ==> (
            if offset - 1 + buffer@.len() <= usize::MAX {
                r == Ok::<(), ErrorKind>(()) && final(self)@ == (LobView {
                    data: written(old(self)@.data, offset - 1, buffer@),
                    ..old(self)@
                })
            } else {
                r == Err::<(), ErrorKind>(
                    ErrorKind::InvalidArgument { reason: Reason::ValueTooLarge },
                )
            }),
            r is Err ==> final(self)@ == old(self)@,
    {
        if !self.handle.is_live() {
            return Err(ErrorKind::InvalidArgument { reason: Reason::HandleNotLive });
        }
        if offset == 0 || offset - 1 > self.data.len() as u64 {
            return Err(ErrorKind::InvalidArgument { reason: Reason::IndexOutOfRange });
        }
        let start: usize = (offset - 1) as usize;
        if buffer.len() > usize::MAX - start {
            return Err(ErrorKind::InvalidArgument { reason: Reason::ValueTooLarge });
        }
        let ghost before = self.data@;
        let mut j: usize = 0;
        while j < buffer.len()
            invariant
                j <= buffer.len(),
                start <= before.len(),
                start + buffer.len() <= usize::MAX,
                self.handle == old(self).handle,
                self.lob_type == old(self).lob_type,
                self.chunk_size == old(self).chunk_size,
                self.char_width == old(self).char_width,
                self.open == old(self).open,
                self.data@.len() == (if start + j > before.len() {
                    start + j
                } else {
                    before.len() as int
                }),
                forall|k: int|
                    0 <= k < self.data@.len() ==> #[trigger] self.data@[k] == (if start <= k < start
                        + j {
                        buffer@[k - start]
                    } else {
                        before[k]
                    }),
            decreases buffer.len() - j,
        {
            if start + j < self.data.len() {
                self.data.set(start + j, buffer[j]);
            } else {
                self.data.push(buffer[j]);
            }
            j = j + 1;
        }
        assert(self.data@ =~= written(before, start as int, buffer@));
        Ok(())
    }

    /// Reads up to `length` bytes of the LOB from `offset` on; the first byte of the
    /// LOB has the offset one. The result holds the bytes that there are, so it is
    /// shorter than `length` at the end of the LOB and empty beyond it. Refused are a
    /// LOB that is not live, and the offset zero.
    pub fn read_bytes(&self, offset: u64, length: u64) -> (r: Result<Vec<u8>, ErrorKind>)
        ensures
            !self@.handle.spec_is_live() ==> r matches Err(
                ErrorKind::InvalidArgument { reason: Reason::HandleNotLive },
            ),
            self@.handle.spec_is_live() && offset == 0 ==> r matches Err(
                ErrorKind::InvalidArgument { reason: Reason::IndexOutOfRange },
            ),
            self@.handle.spec_is_live() && offset != 0 ==> (r matches Ok(v) && v@ == read(
                self@.data,
                offset - 1,
                length as int,
            )),
    {
        if !self.handle.is_live() {
            return Err(ErrorKind::InvalidArgument { reason: Reason::HandleNotLive });
        }
        if offset == 0 {
            return Err(ErrorKind::InvalidArgument { reason: Reason::IndexOutOfRange });
        }
        let mut out: Vec<u8> = Vec::new();
        if offset - 1 >= self.data.len() as u64 {
            assert(out@ =~= read(self@.data, offset - 1, length as int));
            return Ok(out);
        }
        let start: usize = (offset - 1) as usize;
        let end: usize = if length <= (self.data.len() - start) as u64 {
            start + length as usize
        } else {
            self.data.len()
        };
        let mut i: usize = start;
        while i < end
            invariant
                start <= i <= end <= self.data.len(),
                out@ == self.data@.subrange(start as int, i as int),
            decreases end - i,
        {
            out.push(self.data[i]);
            assert(self.data@.subrange(start as int, i + 1) =~= self.data@.subrange(
                start as int,
                i as int,
            ).push(self.data@[i as int]));
            i = i + 1;
        }
        assert(out@ =~= read(self@.data, offset - 1, length as int));
        Ok(out)
    }

    /// Shortens the LOB to `new_size` bytes. Refused are a LOB that is not live, and a
    /// size above that of the LOB.
    pub fn trim(&mut self, new_size: u64) -> (r: Result<(), ErrorKind>)
        ensures
            !old(self)@.handle.spec_is_live() ==> r == Err::<(), ErrorKind>(
                ErrorKind::InvalidArgument { reason: Reason::HandleNotLive },
            ),
            old(self)@.handle.spec_is_live() && new_size > old(self)@.data.len() ==> r == Err::<
                (),
                ErrorKind,
            >(ErrorKind::InvalidArgument { reason: Reason::IndexOutOfRange }),
            old(self)@.handle.spec_is_live() && new_size <= old(self)@.data.len() ==> r == Ok::<
                (),
                ErrorKind,
            >(()) && final(self)@ == (LobView {
                data: old(self)@.data.take(new_size as int),
                ..old(self)@
            }),
            r is Err ==> final(self)@ == old(self)@,
    {
        if !self.handle.is_live() {
            return Err(ErrorKind::InvalidArgument { reason: Reason::HandleNotLive });
        }
        if new_size > self.data.len() as u64 {
            return Err(ErrorKind::InvalidArgument { reason: Reason::IndexOutOfRange });
        }
        self.data.truncate(new_size as usize);
        Ok(())
    }

    /// What was written to a LOB is read back from the place it was written to.
    pub proof fn lemma_read_back(data: Seq<u8>, start: int, buf: Seq<u8>)
        requires
            0 <= start <= data.len(),
        ensures
            read(written(data, start, buf), start, buf.len() as int) == buf,
            written(data, start, buf).len() == (if start + buf.len() > data.len() {
                start + buf.len()
            } else {
                data.len() as int
            }),
    {
        assert(read(written(data, start, buf), start, buf.len() as int) =~= buf);
    }
}

} // verus!
