//! The options of enqueuing messages.
use crate::enums::{ODPIMessageDeliveryMode, ODPIVisibility};
use crate::error::{ErrorKind, Info as ErrorInfo, Operation, Reason};
use crate::handle::HandleRef;
use crate::util::{optional_text, ODPIStr};
use vstd::prelude::*;
use vstd::utf8::*;

verus! {

/// The options of enqueuing as a mathematical value.
pub struct OptionsView {
    /// The reference to the native options.
    pub handle: HandleRef,
    /// The mode in which messages are delivered.
    pub delivery_mode: ODPIMessageDeliveryMode,
    /// The transformation that is applied to a message before it is enqueued.
    pub transformation: Option<Seq<u8>>,
    /// When an enqueued message takes effect.
    pub visibility: ODPIVisibility,
}

/// The options of enqueuing.
#[derive(Debug)]
pub struct Options {
    handle: HandleRef,
    delivery_mode: ODPIMessageDeliveryMode,
    transformation: ODPIStr,
    visibility: ODPIVisibility,
}

impl View for Options {
    type V = OptionsView;

    closed spec fn view(&self) -> OptionsView {
        OptionsView {
            handle: self.handle,
            delivery_mode: self.delivery_mode,
            transformation: self.transformation@,
            visibility: self.visibility,
        }
    }
}

impl Options {
    /// The options that a connection makes, for the native handle `inner`: persistent
    /// delivery, no transformation, and effect with the commit of the transaction.
    pub fn new(inner: u64) -> (o: Options)
        ensures
            o@ == (OptionsView {
                handle: HandleRef::minted(inner),
                delivery_mode: ODPIMessageDeliveryMode::Persistent,
                transformation: None,
                visibility: ODPIVisibility::OnCommit,
            }),
            inner != 0 ==> o@.handle.spec_is_live(),
    {
        Options {
            handle: HandleRef::new(inner),
            delivery_mode: ODPIMessageDeliveryMode::Persistent,
            transformation: ODPIStr::new(None),
            visibility: ODPIVisibility::OnCommit,
        }
    }

    /// Whether the options can be used: a native handle is bound, no close has ended the
    /// use, and a reference is held.
    pub fn is_live(&self) -> (r: bool)
        ensures
            r == self@.handle.spec_is_live(),
    {
        self.handle.is_live()
    }

    /// The native handle of the options.
    pub fn inner(&self) -> (r: u64)
        ensures
            r == self@.handle.spec_inner(),
    {
        self.handle.inner()
    }

    /// Adds a reference to the options. `reply` is the answer of the native library.
    /// Refused are, in this order, a reference to what is not live, a count that cannot
    /// grow, and a call that failed.
    pub fn add_ref(&mut self, reply: Result<(), ErrorInfo>) -> (r: Result<(), ErrorKind>)
        ensures
            (final(self)@.handle, r) == old(self)@.handle.after_add_ref(
                Operation::EnqOptionsAddRef,
                reply,
            ),
            final(self)@ == (OptionsView { handle: final(self)@.handle, ..old(self)@ }),
    {
        self.handle.add_ref(Operation::EnqOptionsAddRef, reply)
    }

    /// Releases a reference to the options. `reply` is the answer of the native library.
    /// With the last release the use of the options ends: nothing is accepted any more, a
    /// further release included. Refused are a release where no reference is held, and a
    /// call that failed.
    pub fn release(&mut self, reply: Result<(), ErrorInfo>) -> (r: Result<(), ErrorKind>)
        ensures
            (final(self)@.handle, r) == old(self)@.handle.after_release(
                Operation::EnqOptionsRelease,
                reply,
            ),
            final(self)@ == (OptionsView { handle: final(self)@.handle, ..old(self)@ }),
    {
        self.handle.release(Operation::EnqOptionsRelease, reply)
    }

    /// The transformation that is applied to a message before it is enqueued; empty
    /// where none was set.
    pub fn get_transformation(&self) -> (r: Result<String, ErrorKind>)
        ensures
            self@.handle.spec_is_live()
                ==> (r matches Ok(s) && s@ == optional_text(self@.transformation)),
            !self@.handle.spec_is_live() ==> r matches Err(
                ErrorKind::InvalidArgument { reason: Reason::HandleNotLive },
            ),
    {
        if !self.handle.is_live() {
            return Err(ErrorKind::InvalidArgument { reason: Reason::HandleNotLive });
        }
        Ok(self.transformation.into_string())
    }

    /// Sets the transformation that is applied to a message before it is enqueued;
    /// `None` sets none.
    pub fn set_transformation(&mut self, value: Option<&str>) -> (r: Result<(), ErrorKind>)
        ensures
            old(self)@.handle.spec_is_live()
                ==> r == Ok::<(), ErrorKind>(()) && (value matches Some(t)
                ==> final(self)@ == (OptionsView {
                    transformation: Some(encode_utf8(t@)),
                    ..old(self)@
                })) && (
            value is None ==> final(self)@ == (OptionsView { transformation: None, ..old(self)@ })),
            !old(self)@.handle.spec_is_live() ==> r == Err::<(), ErrorKind>(
                ErrorKind::InvalidArgument { reason: Reason::HandleNotLive },
            ) && final(self)@ == old(self)@,
    {
        if !self.handle.is_live() {
            return Err(ErrorKind::InvalidArgument { reason: Reason::HandleNotLive });
        }
        self.transformation = ODPIStr::from_optional_text(value);
        Ok(())
    }

    /// When an enqueued message takes effect.
    pub fn get_visibility(&self) -> (r: Result<ODPIVisibility, ErrorKind>)
        ensures
            self@.handle.spec_is_live() ==> r == Ok::<ODPIVisibility, ErrorKind>(self@.visibility),
            !self@.handle.spec_is_live() ==> r == Err::<ODPIVisibility, ErrorKind>(
                ErrorKind::InvalidArgument { reason: Reason::HandleNotLive },
            ),
    {
        if !self.handle.is_live() {
            return Err(ErrorKind::InvalidArgument { reason: Reason::HandleNotLive });
        }
        Ok(self.visibility)
    }

    /// Sets when an enqueued message takes effect.
    pub fn set_visibility(&mut self, visibility: ODPIVisibility) -> (r: Result<(), ErrorKind>)
        ensures
            old(self)@.handle.spec_is_live() ==> r == Ok::<(), ErrorKind>(()) && final(self)@ == (
            OptionsView { visibility: visibility, ..old(self)@ }),
            !old(self)@.handle.spec_is_live() ==> r == Err::<(), ErrorKind>(
                ErrorKind::InvalidArgument { reason: Reason::HandleNotLive },
            ) && final(self)@ == old(self)@,
    {
        if !self.handle.is_live() {
            return Err(ErrorKind::InvalidArgument { reason: Reason::HandleNotLive });
        }
        self.visibility = visibility;
        Ok(())
    }

    /// Sets the mode in which messages are delivered.
    pub fn set_delivery_mode(&mut self, mode: ODPIMessageDeliveryMode) -> (r: Result<(), ErrorKind>)
        ensures
            old(self)@.handle.spec_is_live() ==> r == Ok::<(), ErrorKind>(()) && final(self)@ == (
            OptionsView { delivery_mode: mode, ..old(self)@ }),
            !old(self)@.handle.spec_is_live() ==> r == Err::<(), ErrorKind>(
                ErrorKind::InvalidArgument { reason: Reason::HandleNotLive },
            ) && final(self)@ == old(self)@,
    {
        if !self.handle.is_live() {
            return Err(ErrorKind::InvalidArgument { reason: Reason::HandleNotLive });
        }
        self.delivery_mode = mode;
        Ok(())
    }
}

} // verus!
