//! Row identifiers.
use crate::error::{ErrorKind, Info as ErrorInfo, Operation, Reason};
use crate::handle::HandleRef;
use crate::util::{optional_text, ODPIStr};
use vstd::prelude::*;

verus! {

/// A row identifier as a mathematical value.
pub struct RowidView {
    /// The reference to the native row identifier.
    pub handle: HandleRef,
    /// The identifier as the native library hands it over; `None` is its null pointer.
    pub value: Option<Seq<u8>>,
}

/// The identifier of a row of a table.
#[derive(Debug)]
pub struct Rowid {
    handle: HandleRef,
    value: ODPIStr,
}

impl View for Rowid {
    type V = RowidView;

    closed spec fn view(&self) -> RowidView {
        RowidView { handle: self.handle, value: self.value@ }
    }
}

impl Rowid {
    /// The row identifier for the native handle `inner`, with the text that the native
    /// library handed over.
    pub fn new(inner: u64, value: ODPIStr) -> (r: Rowid)
        ensures
            r@ == (RowidView { handle: HandleRef::minted(inner), value: value@ }),
            inner != 0 ==> r@.handle.spec_is_live(),
    {
        Rowid { handle: HandleRef::new(inner), value }
    }

    /// Whether the row identifier can be used: a native handle is bound, no close has
    /// ended the use, and a reference is held.
    pub fn is_live(&self) -> (r: bool)
        ensures
            r == self@.handle.spec_is_live(),
    {
        self.handle.is_live()
    }

    /// The native handle of the row identifier.
    pub fn inner(&self) -> (r: u64)
        ensures
            r == self@.handle.spec_inner(),
    {
        self.handle.inner()
    }

    /// Adds a reference to the row identifier. `reply` is the answer of the native library.
    /// Refused are, in this order, a reference to what is not live, a count that cannot
    /// grow, and a call that failed.
    pub fn add_ref(&mut self, reply: Result<(), ErrorInfo>) -> (r: Result<(), ErrorKind>)
        ensures
            (final(self)@.handle, r) == old(self)@.handle.after_add_ref(
                Operation::RowidAddRef,
                reply,
            ),
            final(self)@ == (RowidView { handle: final(self)@.handle, ..old(self)@ }),
    {
        self.handle.add_ref(Operation::RowidAddRef, reply)
    }

    /// Releases a reference to the row identifier. `reply` is the answer of the native
    /// library. With the last release the use of the row identifier ends: nothing is
    /// accepted any more, a further release included. Refused are a release where no
    /// reference is held, and a call that failed.
    pub fn release(&mut self, reply: Result<(), ErrorInfo>) -> (r: Result<(), ErrorKind>)
        ensures
            (final(self)@.handle, r) == old(self)@.handle.after_release(
                Operation::RowidRelease,
                reply,
            ),
            final(self)@ == (RowidView { handle: final(self)@.handle, ..old(self)@ }),
    {
        self.handle.release(Operation::RowidRelease, reply)
    }

    /// The row identifier as text: empty where the native library handed over a null
    /// pointer, and with a replacement character for every sequence of bytes that is
    /// no valid UTF-8.
    pub fn get_string_value(&self) -> (r: Result<String, ErrorKind>)
        ensures
            self@.handle.spec_is_live() ==> (r matches Ok(s) && s@ == optional_text(self@.value)),
            !self@.handle.spec_is_live() ==> r matches Err(
                ErrorKind::InvalidArgument { reason: Reason::HandleNotLive },
            ),
    {
        if !self.handle.is_live() {
            return Err(ErrorKind::InvalidArgument { reason: Reason::HandleNotLive });
        }
        Ok(self.value.into_string())
    }
}

} // verus!
