//! The options of dequeuing messages.
use crate::enums::{ODPIDeqMode, ODPIDeqNavigation, ODPIVisibility};
use crate::error::{ErrorKind, Info as ErrorInfo, Operation, Reason};
use crate::handle::HandleRef;
use crate::util::{optional_text, ODPIStr};
use vstd::prelude::*;
use vstd::utf8::*;

verus! {

/// The options of dequeuing as a mathematical value.
pub struct OptionsView {
    /// The reference to the native options.
    pub handle: HandleRef,
    /// The consumer for whom messages are dequeued.
    pub consumer_name: Option<Seq<u8>>,
    /// The correlation of the messages that are dequeued; it may hold wildcards.
    pub correlation: Option<Seq<u8>>,
    /// The id of the message that is dequeued.
    pub msg_id: Option<Seq<u8>>,
    /// The number of seconds to wait for a message.
    pub wait: u32,
    /// The transformation that is applied to a message after it is dequeued.
    pub transformation: Option<Seq<u8>>,
    /// When a dequeued message takes effect.
    pub visibility: ODPIVisibility,
    /// What dequeuing does with the message.
    pub mode: ODPIDeqMode,
    /// Which message is dequeued.
    pub navigation: ODPIDeqNavigation,
}

/// The options of dequeuing.
#[derive(Debug)]
pub struct Options {
    handle: HandleRef,
    consumer_name: ODPIStr,
    correlation: ODPIStr,
    msg_id: ODPIStr,
    wait: u32,
    transformation: ODPIStr,
    visibility: ODPIVisibility,
    mode: ODPIDeqMode,
    navigation: ODPIDeqNavigation,
}

impl View for Options {
    type V = OptionsView;

    closed spec fn view(&self) -> OptionsView {
        OptionsView {
            handle: self.handle,
            consumer_name: self.consumer_name@,
            correlation: self.correlation@,
            msg_id: self.msg_id@,
            wait: self.wait,
            transformation: self.transformation@,
            visibility: self.visibility,
            mode: self.mode,
            navigation: self.navigation,
        }
    }
}

impl Options {
    /// The options that a connection makes, for the native handle `inner`: messages are
    /// removed, the next one is taken, the effect comes with the commit of the
    /// transaction, the wait has no end, and no text is set.
    pub fn new(inner: u64) -> (o: Options)
        ensures
            o@ == (OptionsView {
                handle: HandleRef::minted(inner),
                consumer_name: None,
                correlation: None,
                msg_id: None,
                wait: u32::MAX,
                transformation: None,
                visibility: ODPIVisibility::OnCommit,
                mode: ODPIDeqMode::Remove,
                navigation: ODPIDeqNavigation::NextMsg,
            }),
            inner != 0 ==> o@.handle.spec_is_live(),
    {
        Options {
            handle: HandleRef::new(inner),
            consumer_name: ODPIStr::new(None),
            correlation: ODPIStr::new(None),
            msg_id: ODPIStr::new(None),
            wait: u32::MAX,
            transformation: ODPIStr::new(None),
            visibility: ODPIVisibility::OnCommit,
            mode: ODPIDeqMode::Remove,
            navigation: ODPIDeqNavigation::NextMsg,
        }
    }

    /// Whether the options can be used: a native handle is bound, no close has ended the
    /// use, and a reference is held.
    pub fn is_live(&self) -> (r: bool)
        ensures
            r == self@.handle.spec_is_live(),
    {
        self.handle.is_live()
    }

    /// The native handle of the options.
    pub fn inner(&self) -> (r: u64)
        ensures
            r == self@.handle.spec_inner(),
    {
        self.handle.inner()
    }

    /// Adds a reference to the options. `reply` is the answer of the native library.
    /// Refused are, in this order, a reference to what is not live, a count that cannot
    /// grow, and a call that failed.
    pub fn add_ref(&mut self, reply: Result<(), ErrorInfo>) -> (r: Result<(), ErrorKind>)
        ensures
            (final(self)@.handle, r) == old(self)@.handle.after_add_ref(
                Operation::DeqOptionsAddRef,
                reply,
            ),
            final(self)@ == (OptionsView { handle: final(self)@.handle, ..old(self)@ }),
    {
        self.handle.add_ref(Operation::DeqOptionsAddRef, reply)
    }

    /// Releases a reference to the options. `reply` is the answer of the native library.
    /// With the last release the use of the options ends: nothing is accepted any more, a
    /// further release included. Refused are a release where no reference is held, and a
    /// call that failed.
    pub fn release(&mut self, reply: Result<(), ErrorInfo>) -> (r: Result<(), ErrorKind>)
        ensures
            (final(self)@.handle, r) == old(self)@.handle.after_release(
                Operation::DeqOptionsRelease,
                reply,
            ),
            final(self)@ == (OptionsView { handle: final(self)@.handle, ..old(self)@ }),
    {
        self.handle.release(Operation::DeqOptionsRelease, reply)
    }

    /// The consumer for whom messages are dequeued; empty where none was set.
    pub fn get_consumer_name(&self) -> (r: Result<String, ErrorKind>)
        ensures
            self@.handle.spec_is_live()
                ==> (r matches Ok(s) && s@ == optional_text(self@.consumer_name)),
            !self@.handle.spec_is_live() ==> r matches Err(
                ErrorKind::InvalidArgument { reason: Reason::HandleNotLive },
            ),
    {
        if !self.handle.is_live() {
            return Err(ErrorKind::InvalidArgument { reason: Reason::HandleNotLive });
        }
        Ok(self.consumer_name.into_string())
    }

    /// Sets the consumer for whom messages are dequeued; `None` sets none.
    pub fn set_consumer_name(&mut self, value: Option<&str>) -> (r: Result<(), ErrorKind>)
        ensures
            old(self)@.handle.spec_is_live()
                ==> r == Ok::<(), ErrorKind>(()) && (value matches Some(t)
                ==> final(self)@ == (OptionsView {
                    consumer_name: Some(encode_utf8(t@)),
                    ..old(self)@
                })) && (
            value is None ==> final(self)@ == (OptionsView { consumer_name: None, ..old(self)@ })),
            !old(self)@.handle.spec_is_live() ==> r == Err::<(), ErrorKind>(
                ErrorKind::InvalidArgument { reason: Reason::HandleNotLive },
            ) && final(self)@ == old(self)@,
    {
        if !self.handle.is_live() {
            return Err(ErrorKind::InvalidArgument { reason: Reason::HandleNotLive });
        }
        self.consumer_name = ODPIStr::from_optional_text(value);
        Ok(())
    }

    /// The correlation of the messages that are dequeued; empty where none was set.
    pub fn get_correlation(&self) -> (r: Result<String, ErrorKind>)
        ensures
            self@.handle.spec_is_live()
                ==> (r matches Ok(s) && s@ == optional_text(self@.correlation)),
            !self@.handle.spec_is_live() ==> r matches Err(
                ErrorKind::InvalidArgument { reason: Reason::HandleNotLive },
            ),
    {
        if !self.handle.is_live() {
            return Err(ErrorKind::InvalidArgument { reason: Reason::HandleNotLive });
        }
        Ok(self.correlation.into_string())
    }

    /// Sets the correlation of the messages that are dequeued; `None` sets none.
    pub fn set_correlation(&mut self, value: Option<&str>) -> (r: Result<(), ErrorKind>)
        ensures
            old(self)@.handle.spec_is_live()
                ==> r == Ok::<(), ErrorKind>(()) && (value matches Some(t)
                ==> final(self)@ == (OptionsView {
                    correlation: Some(encode_utf8(t@)),
                    ..old(self)@
                })) && (
            value is None ==> final(self)@ == (OptionsView { correlation: None, ..old(self)@ })),
            !old(self)@.handle.spec_is_live() ==> r == Err::<(), ErrorKind>(
                ErrorKind::InvalidArgument { reason: Reason::HandleNotLive },
            ) && final(self)@ == old(self)@,
    {
        if !self.handle.is_live() {
            return Err(ErrorKind::InvalidArgument { reason: Reason::HandleNotLive });
        }
        self.correlation = ODPIStr::from_optional_text(value);
        Ok(())
    }

    /// The id of the message that is dequeued; empty where none was set.
    pub fn get_msg_id(&self) -> (r: Result<String, ErrorKind>)
        ensures
            self@.handle.spec_is_live() ==> (r matches Ok(s) && s@ == optional_text(self@.msg_id)),
            !self@.handle.spec_is_live() ==> r matches Err(
                ErrorKind::InvalidArgument { reason: Reason::HandleNotLive },
            ),
    {
        if !self.handle.is_live() {
            return Err(ErrorKind::InvalidArgument { reason: Reason::HandleNotLive });
        }
        Ok(self.msg_id.into_string())
    }

    /// Sets the id of the message that is dequeued; `None` sets none.
    pub fn set_msg_id(&mut self, value: Option<&str>) -> (r: Result<(), ErrorKind>)
        ensures
            old(self)@.handle.spec_is_live()
                ==> r == Ok::<(), ErrorKind>(()) && (value matches Some(t)
                ==> final(self)@ == (OptionsView {
                    msg_id: Some(encode_utf8(t@)),
                    ..old(self)@
                })) && (
            value is None ==> final(self)@ == (OptionsView { msg_id: None, ..old(self)@ })),
            !old(self)@.handle.spec_is_live() ==> r == Err::<(), ErrorKind>(
                ErrorKind::InvalidArgument { reason: Reason::HandleNotLive },
            ) && final(self)@ == old(self)@,
    {
        if !self.handle.is_live() {
            return Err(ErrorKind::InvalidArgument { reason: Reason::HandleNotLive });
        }
        self.msg_id = ODPIStr::from_optional_text(value);
        Ok(())
    }

    /// The number of seconds to wait for a message.
    pub fn get_wait(&self) -> (r: Result<u32, ErrorKind>)
        ensures
            self@.handle.spec_is_live() ==> r == Ok::<u32, ErrorKind>(self@.wait),
            !self@.handle.spec_is_live() ==> r == Err::<u32, ErrorKind>(
                ErrorKind::InvalidArgument { reason: Reason::HandleNotLive },
            ),
    {
        if !self.handle.is_live() {
            return Err(ErrorKind::InvalidArgument { reason: Reason::HandleNotLive });
        }
        Ok(self.wait)
    }

    /// Sets the number of seconds to wait for a message.
    pub fn set_wait(&mut self, wait: u32) -> (r: Result<(), ErrorKind>)
        ensures
            old(self)@.handle.spec_is_live() ==> r == Ok::<(), ErrorKind>(()) && final(self)@ == (
            OptionsView { wait: wait, ..old(self)@ }),
            !old(self)@.handle.spec_is_live() ==> r == Err::<(), ErrorKind>(
                ErrorKind::InvalidArgument { reason: Reason::HandleNotLive },
            ) && final(self)@ == old(self)@,
    {
        if !self.handle.is_live() {
            return Err(ErrorKind::InvalidArgument { reason: Reason::HandleNotLive });
        }
        self.wait = wait;
        Ok(())
    }

    /// The transformation that is applied to a message after it is dequeued; empty
    /// where none was set.
    pub fn get_transformation(&self) -> (r: Result<String, ErrorKind>)
        ensures
            self@.handle.spec_is_live()
                ==> (r matches Ok(s) && s@ == optional_text(self@.transformation)),
            !self@.handle.spec_is_live() ==> r matches Err(
                ErrorKind::InvalidArgument { reason: Reason::HandleNotLive },
            ),
    {
        if !self.handle.is_live() {
            return Err(ErrorKind::InvalidArgument { reason: Reason::HandleNotLive });
        }
        Ok(self.transformation.into_string())
    }

    /// Sets the transformation that is applied to a message after it is dequeued;
    /// `None` sets none.
    pub fn set_transformation(&mut self, value: Option<&str>) -> (r: Result<(), ErrorKind>)
        ensures
            old(self)@.handle.spec_is_live()
                ==> r == Ok::<(), ErrorKind>(()) && (value matches Some(t)
                ==> final(self)@ == (OptionsView {
                    transformation: Some(encode_utf8(t@)),
                    ..old(self)@
                })) && (
            value is None ==> final(self)@ == (OptionsView { transformation: None, ..old(self)@ })),
            !old(self)@.handle.spec_is_live() ==> r == Err::<(), ErrorKind>(
                ErrorKind::InvalidArgument { reason: Reason::HandleNotLive },
            ) && final(self)@ == old(self)@,
    {
        if !self.handle.is_live() {
            return Err(ErrorKind::InvalidArgument { reason: Reason::HandleNotLive });
        }
        self.transformation = ODPIStr::from_optional_text(value);
        Ok(())
    }

    /// When a dequeued message takes effect.
    pub fn get_visibility(&self) -> (r: Result<ODPIVisibility, ErrorKind>)
        ensures
            self@.handle.spec_is_live() ==> r == Ok::<ODPIVisibility, ErrorKind>(self@.visibility),
            !self@.handle.spec_is_live() ==> r == Err::<ODPIVisibility, ErrorKind>(
                ErrorKind::InvalidArgument { reason: Reason::HandleNotLive },
            ),
    {
        if !self.handle.is_live() {
            return Err(ErrorKind::InvalidArgument { reason: Reason::HandleNotLive });
        }
        Ok(self.visibility)
    }

    /// Sets when a dequeued message takes effect.
    pub fn set_visibility(&mut self, visibility: ODPIVisibility) -> (r: Result<(), ErrorKind>)
        ensures
            old(self)@.handle.spec_is_live() ==> r == Ok::<(), ErrorKind>(()) && final(self)@ == (
            OptionsView { visibility: visibility, ..old(self)@ }),
            !old(self)@.handle.spec_is_live() ==> r == Err::<(), ErrorKind>(
                ErrorKind::InvalidArgument { reason: Reason::HandleNotLive },
            ) && final(self)@ == old(self)@,
    {
        if !self.handle.is_live() {
            return Err(ErrorKind::InvalidArgument { reason: Reason::HandleNotLive });
        }
        self.visibility = visibility;
        Ok(())
    }

    /// What dequeuing does with the message.
    pub fn get_mode(&self) -> (r: Result<ODPIDeqMode, ErrorKind>)
        ensures
            self@.handle.spec_is_live() ==> r == Ok::<ODPIDeqMode, ErrorKind>(self@.mode),
            !self@.handle.spec_is_live() ==> r == Err::<ODPIDeqMode, ErrorKind>(
                ErrorKind::InvalidArgument { reason: Reason::HandleNotLive },
            ),
    {
        if !self.handle.is_live() {
            return Err(ErrorKind::InvalidArgument { reason: Reason::HandleNotLive });
        }
        Ok(self.mode)
    }

    /// Sets what dequeuing does with the message.
    pub fn set_mode(&mut self, mode: ODPIDeqMode) -> (r: Result<(), ErrorKind>)
        ensures
            old(self)@.handle.spec_is_live() ==> r == Ok::<(), ErrorKind>(()) && final(self)@ == (
            OptionsView { mode: mode, ..old(self)@ }),
            !old(self)@.handle.spec_is_live() ==> r == Err::<(), ErrorKind>(
                ErrorKind::InvalidArgument { reason: Reason::HandleNotLive },
            ) && final(self)@ == old(self)@,
    {
        if !self.handle.is_live() {
            return Err(ErrorKind::InvalidArgument { reason: Reason::HandleNotLive });
        }
        self.mode = mode;
        Ok(())
    }

    /// Which message is dequeued.
    pub fn get_navigation(&self) -> (r: Result<ODPIDeqNavigation, ErrorKind>)
        ensures
            self@.handle.spec_is_live()
                ==> r == Ok::<ODPIDeqNavigation, ErrorKind>(self@.navigation),
            !self@.handle.spec_is_live() ==> r == Err::<ODPIDeqNavigation, ErrorKind>(
                ErrorKind::InvalidArgument { reason: Reason::HandleNotLive },
            ),
    {
        if !self.handle.is_live() {
            return Err(ErrorKind::InvalidArgument { reason: Reason::HandleNotLive });
        }
        Ok(self.navigation)
    }

    /// Sets which message is dequeued.
    pub fn set_navigation(&mut self, navigation: ODPIDeqNavigation) -> (r: Result<(), ErrorKind>)
        ensures
            old(self)@.handle.spec_is_live() ==> r == Ok::<(), ErrorKind>(()) && final(self)@ == (
            OptionsView { navigation: navigation, ..old(self)@ }),
            !old(self)@.handle.spec_is_live() ==> r == Err::<(), ErrorKind>(
                ErrorKind::InvalidArgument { reason: Reason::HandleNotLive },
            ) && final(self)@ == old(self)@,
    {
        if !self.handle.is_live() {
            return Err(ErrorKind::InvalidArgument { reason: Reason::HandleNotLive });
        }
        self.navigation = navigation;
        Ok(())
    }

}

} // verus!
