//! The attributes of object types.
use crate::error::{ErrorKind, Info as ErrorInfo, Operation, Reason};
use crate::handle::HandleRef;
use crate::structs::ODPIObjectAttrInfo;
use vstd::prelude::*;

verus! {

/// An attribute of an object type as a mathematical value.
pub struct ObjectAttrView {
    /// The reference to the native attribute.
    pub handle: HandleRef,
    /// The native handle of the object type that the attribute belongs to.
    pub owner: u64,
    /// The place of the attribute among the attributes of its type, from zero.
    pub index: u16,
    /// What is known of the attribute.
    pub info: ODPIObjectAttrInfo,
}

/// An attribute of an object type. It holds references of its own, apart from those to
/// its type.
#[derive(Debug)]
pub struct ObjectAttr {
    handle: HandleRef,
    owner: u64,
    index: u16,
    info: ODPIObjectAttrInfo,
}

impl View for ObjectAttr {
    type V = ObjectAttrView;

    closed spec fn view(&self) -> ObjectAttrView {
        ObjectAttrView {
            handle: self.handle,
            owner: self.owner,
            index: self.index,
            info: self.info,
        }
    }
}

impl ObjectAttr {
    /// The attribute with the native handle `inner`, at the place `index` among the
    /// attributes of the type with the native handle `owner`.
    pub fn new(inner: u64, owner: u64, index: u16, info: ODPIObjectAttrInfo) -> (a: ObjectAttr)
        ensures
            a@ == (ObjectAttrView { handle: HandleRef::minted(inner), owner, index, info }),
            inner != 0 ==> a@.handle.spec_is_live(),
    {
        ObjectAttr { handle: HandleRef::new(inner), owner, index, info }
    }

    /// Whether the attribute can be used: a native handle is bound, no close has ended the
    /// use, and a reference is held.
    pub fn is_live(&self) -> (r: bool)
        ensures
            r == self@.handle.spec_is_live(),
    {
        self.handle.is_live()
    }

    /// The native handle of the attribute.
    pub fn inner(&self) -> (r: u64)
        ensures
            r == self@.handle.spec_inner(),
    {
        self.handle.inner()
    }

    /// The native handle of the object type that the attribute belongs to.
    pub fn owner(&self) -> (r: u64)
        ensures
            r == self@.owner,
    {
        self.owner
    }

    /// The place of the attribute among the attributes of its type, from zero.
    pub fn index(&self) -> (r: u16)
        ensures
            r == self@.index,
    {
        self.index
    }

    /// Adds a reference to the attribute. `reply` is the answer of the native library.
    /// Refused are, in this order, a reference to what is not live, a count that cannot
    /// grow, and a call that failed.
    pub fn add_ref(&mut self, reply: Result<(), ErrorInfo>) -> (r: Result<(), ErrorKind>)
        ensures
            (final(self)@.handle, r) == old(self)@.handle.after_add_ref(
                Operation::ObjectAttrAddRef,
                reply,
            ),
            final(self)@ == (ObjectAttrView { handle: final(self)@.handle, ..old(self)@ }),
    {
        self.handle.add_ref(Operation::ObjectAttrAddRef, reply)
    }

    /// Releases a reference to the attribute. `reply` is the answer of the native library.
    /// With the last release the use of the attribute ends: nothing is accepted any more, a
    /// further release included. Refused are a release where no reference is held, and a
    /// call that failed.
    pub fn release(&mut self, reply: Result<(), ErrorInfo>) -> (r: Result<(), ErrorKind>)
        ensures
            (final(self)@.handle, r) == old(self)@.handle.after_release(
                Operation::ObjectAttrRelease,
                reply,
            ),
            final(self)@ == (ObjectAttrView { handle: final(self)@.handle, ..old(self)@ }),
    {
        self.handle.release(Operation::ObjectAttrRelease, reply)
    }

    /// What is known of the attribute: its name, its database type, the representation
    /// of its values and, for an attribute that is itself an object, the handle of its
    /// object type.
    pub fn get_info(&self) -> (r: Result<ODPIObjectAttrInfo, ErrorKind>)
        ensures
            self@.handle.spec_is_live() ==> r == Ok::<ODPIObjectAttrInfo, ErrorKind>(self@.info),
            !self@.handle.spec_is_live() ==> r == Err::<ODPIObjectAttrInfo, ErrorKind>(
                ErrorKind::InvalidArgument { reason: Reason::HandleNotLive },
            ),
    {
        if !self.handle.is_live() {
            return Err(ErrorKind::InvalidArgument { reason: Reason::HandleNotLive });
        }
        Ok(self.info.duplicate())
    }
}

} // verus!
