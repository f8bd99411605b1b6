//! The properties of the messages that are enqueued and dequeued.
use crate::enums::{ODPIMessageDeliveryMode, ODPIMessageState};
use crate::error::{ErrorKind, Info as ErrorInfo, Operation, Reason};
use crate::handle::HandleRef;
use crate::structs::ODPITimestamp;
use crate::util::{optional_text, ODPIStr};
use chrono::NaiveDateTime;
use vstd::prelude::*;
use vstd::utf8::*;

verus! {

/// The properties of a message as a mathematical value. A text that was never set is
/// `None`, the null pointer of the native library.
pub struct PropertiesView {
    /// The reference to the native properties.
    pub handle: HandleRef,
    /// The number of attempts that were made to dequeue the message.
    pub num_attempts: i32,
    /// The correlation of the message.
    pub correlation: Option<Seq<u8>>,
    /// The number of seconds by which the message is delayed.
    pub delay: i32,
    /// The mode in which the message was delivered.
    pub delivery_mode: ODPIMessageDeliveryMode,
    /// The time at which the message was enqueued.
    pub enq_time: ODPITimestamp,
    /// The queue to which the message goes when it cannot be processed.
    pub exception_q: Option<Seq<u8>>,
    /// The number of seconds for which the message can be dequeued; -1 for ever.
    pub expiration: i32,
    /// The id of the message in the last queue that it was in.
    pub original_msg_id: Option<Seq<u8>>,
    /// The priority of the message.
    pub priority: i32,
    /// The state of the message.
    pub state: ODPIMessageState,
}

/// The properties of a message.
#[derive(Debug)]
pub struct Properties {
    handle: HandleRef,
    num_attempts: i32,
    correlation: ODPIStr,
    delay: i32,
    delivery_mode: ODPIMessageDeliveryMode,
    enq_time: ODPITimestamp,
    exception_q: ODPIStr,
    expiration: i32,
    original_msg_id: ODPIStr,
    priority: i32,
    state: ODPIMessageState,
}

impl View for Properties {
    type V = PropertiesView;

    closed spec fn view(&self) -> PropertiesView {
        PropertiesView {
            handle: self.handle,
            num_attempts: self.num_attempts,
            correlation: self.correlation@,
            delay: self.delay,
            delivery_mode: self.delivery_mode,
            enq_time: self.enq_time,
            exception_q: self.exception_q@,
            expiration: self.expiration,
            original_msg_id: self.original_msg_id@,
            priority: self.priority,
            state: self.state,
        }
    }
}

/// The timestamp that stands for no time.
pub open spec fn no_time() -> ODPITimestamp {
    ODPITimestamp {
        year: (-10100) as i16,
        month: 0,
        day: 0,
        hour: 0,
        minute: 0,
        second: 0,
        fsecond: 0,
        tz_hour_offset: 0,
        tz_minute_offset: 0,
    }
}

impl PropertiesView {
    /// The properties of a message that was neither enqueued nor dequeued yet.
    pub open spec fn fresh(inner: u64) -> PropertiesView {
        PropertiesView {
            handle: HandleRef::minted(inner),
            num_attempts: 0,
            correlation: None,
            delay: 0,
            delivery_mode: ODPIMessageDeliveryMode::NotSet,
            enq_time: no_time(),
            exception_q: None,
            expiration: (-1) as i32,
            original_msg_id: None,
            priority: 0,
            state: ODPIMessageState::Ready,
        }
    }
}

impl Properties {
    /// The properties of a new message, for the native handle `inner`: no attempts, no
    /// delay, priority zero, no expiration, ready, no text set, and no time of
    /// enqueuing.
    pub fn new(inner: u64) -> (p: Properties)
        ensures
            p@ == PropertiesView::fresh(inner),
            inner != 0 ==> p@.handle.spec_is_live(),
    {
        Properties {
            handle: HandleRef::new(inner),
            num_attempts: 0,
            correlation: ODPIStr::new(None),
            delay: 0,
            delivery_mode: ODPIMessageDeliveryMode::NotSet,
            enq_time: ODPITimestamp {
                year: -10100,
                month: 0,
                day: 0,
                hour: 0,
                minute: 0,
                second: 0,
                fsecond: 0,
                tz_hour_offset: 0,
                tz_minute_offset: 0,
            },
            exception_q: ODPIStr::new(None),
            expiration: -1,
            original_msg_id: ODPIStr::new(None),
            priority: 0,
            state: ODPIMessageState::Ready,
        }
    }

    /// Takes over what the native library reports of a message that was dequeued: the
    /// attempts made, the mode of delivery, the time of enqueuing and the state.
    pub fn delivered(
        &mut self,
        num_attempts: i32,
        delivery_mode: ODPIMessageDeliveryMode,
        enq_time: ODPITimestamp,
        state: ODPIMessageState,
    )
        ensures
            final(self)@ == (PropertiesView {
                num_attempts,
                delivery_mode,
                enq_time,
                state,
                ..old(self)@
            }),
    {
        self.num_attempts = num_attempts;
        self.delivery_mode = delivery_mode;
        self.enq_time = enq_time;
        self.state = state;
    }

    /// Whether the properties can be used: a native handle is bound, no close has ended the
    /// use, and a reference is held.
    pub fn is_live(&self) -> (r: bool)
        ensures
            r == self@.handle.spec_is_live(),
    {
        self.handle.is_live()
    }

    /// The native handle of the properties.
    pub fn inner(&self) -> (r: u64)
        ensures
            r == self@.handle.spec_inner(),
    {
        self.handle.inner()
    }

    /// Adds a reference to the properties. `reply` is the answer of the native library.
    /// Refused are, in this order, a reference to what is not live, a count that cannot
    /// grow, and a call that failed.
    pub fn add_ref(&mut self, reply: Result<(), ErrorInfo>) -> (r: Result<(), ErrorKind>)
        ensures
            (final(self)@.handle, r) == old(self)@.handle.after_add_ref(
                Operation::MsgPropsAddRef,
                reply,
            ),
            final(self)@ == (PropertiesView { handle: final(self)@.handle, ..old(self)@ }),
    {
        self.handle.add_ref(Operation::MsgPropsAddRef, reply)
    }

    /// Releases a reference to the properties. `reply` is the answer of the native library.
    /// With the last release the use of the properties ends: nothing is accepted any more,
    /// a further release included. Refused are a release where no reference is held, and a
    /// call that failed.
    pub fn release(&mut self, reply: Result<(), ErrorInfo>) -> (r: Result<(), ErrorKind>)
        ensures
            (final(self)@.handle, r) == old(self)@.handle.after_release(
                Operation::MsgPropsRelease,
                reply,
            ),
            final(self)@ == (PropertiesView { handle: final(self)@.handle, ..old(self)@ }),
    {
        self.handle.release(Operation::MsgPropsRelease, reply)
    }

    /// The number of attempts that were made to dequeue the message.
    pub fn get_num_attempts(&self) -> (r: Result<i32, ErrorKind>)
        ensures
            self@.handle.spec_is_live() ==> r == Ok::<i32, ErrorKind>(self@.num_attempts),
            !self@.handle.spec_is_live() ==> r == Err::<i32, ErrorKind>(
                ErrorKind::InvalidArgument { reason: Reason::HandleNotLive },
            ),
    {
        if !self.handle.is_live() {
            return Err(ErrorKind::InvalidArgument { reason: Reason::HandleNotLive });
        }
        Ok(self.num_attempts)
    }

    /// The correlation of the message; empty where none was set.
    pub fn get_correlation(&self) -> (r: Result<String, ErrorKind>)
        ensures
            self@.handle.spec_is_live()
                ==> (r matches Ok(s) && s@ == optional_text(self@.correlation)),
            !self@.handle.spec_is_live() ==> r matches Err(
                ErrorKind::InvalidArgument { reason: Reason::HandleNotLive },
            ),
    {
        if !self.handle.is_live() {
            return Err(ErrorKind::InvalidArgument { reason: Reason::HandleNotLive });
        }
        Ok(self.correlation.into_string())
    }

    /// Sets the correlation of the message.
    pub fn set_correlation(&mut self, value: &str) -> (r: Result<(), ErrorKind>)
        ensures
            old(self)@.handle.spec_is_live() ==> r == Ok::<(), ErrorKind>(()) && final(self)@ == (
            PropertiesView { correlation: Some(encode_utf8(value@)), ..old(self)@ }),
            !old(self)@.handle.spec_is_live() ==> r == Err::<(), ErrorKind>(
                ErrorKind::InvalidArgument { reason: Reason::HandleNotLive },
            ) && final(self)@ == old(self)@,
    {
        if !self.handle.is_live() {
            return Err(ErrorKind::InvalidArgument { reason: Reason::HandleNotLive });
        }
        self.correlation = ODPIStr::from_text(value);
        Ok(())
    }

    /// The number of seconds by which the message is delayed.
    pub fn get_delay(&self) -> (r: Result<i32, ErrorKind>)
        ensures
            self@.handle.spec_is_live() ==> r == Ok::<i32, ErrorKind>(self@.delay),
            !self@.handle.spec_is_live() ==> r == Err::<i32, ErrorKind>(
                ErrorKind::InvalidArgument { reason: Reason::HandleNotLive },
            ),
    {
        if !self.handle.is_live() {
            return Err(ErrorKind::InvalidArgument { reason: Reason::HandleNotLive });
        }
        Ok(self.delay)
    }

    /// Sets the number of seconds by which the message is delayed.
    pub fn set_delay(&mut self, delay: i32) -> (r: Result<(), ErrorKind>)
        ensures
            old(self)@.handle.spec_is_live() ==> r == Ok::<(), ErrorKind>(()) && final(self)@ == (
            PropertiesView { delay: delay, ..old(self)@ }),
            !old(self)@.handle.spec_is_live() ==> r == Err::<(), ErrorKind>(
                ErrorKind::InvalidArgument { reason: Reason::HandleNotLive },
            ) && final(self)@ == old(self)@,
    {
        if !self.handle.is_live() {
            return Err(ErrorKind::InvalidArgument { reason: Reason::HandleNotLive });
        }
        self.delay = delay;
        Ok(())
    }

    /// The mode in which the message was delivered.
    pub fn get_delivery_mode(&self) -> (r: Result<ODPIMessageDeliveryMode, ErrorKind>)
        ensures
            self@.handle.spec_is_live()
                ==> r == Ok::<ODPIMessageDeliveryMode, ErrorKind>(self@.delivery_mode),
            !self@.handle.spec_is_live() ==> r == Err::<ODPIMessageDeliveryMode, ErrorKind>(
                ErrorKind::InvalidArgument { reason: Reason::HandleNotLive },
            ),
    {
        if !self.handle.is_live() {
            return Err(ErrorKind::InvalidArgument { reason: Reason::HandleNotLive });
        }
        Ok(self.delivery_mode)
    }

    /// The time at which the message was enqueued, in UTC. Of a message that was not
    /// enqueued the native library reports no time; that is read as `now`.
    pub fn get_enq_time(&self, now: NaiveDateTime) -> (r: Result<NaiveDateTime, ErrorKind>)
        ensures
            self@.handle.spec_is_live() ==> r == self@.enq_time.reading(now) && (r is Ok
                <==> self@.enq_time.spec_is_sentinel() || self@.enq_time.is_civil()),
            !self@.handle.spec_is_live() ==> r == Err::<NaiveDateTime, ErrorKind>(
                ErrorKind::InvalidArgument { reason: Reason::HandleNotLive },
            ),
    {
        if !self.handle.is_live() {
            return Err(ErrorKind::InvalidArgument { reason: Reason::HandleNotLive });
        }
        self.enq_time.to_utc(now)
    }

    /// The queue to which the message goes when it cannot be processed; empty where
    /// none was set.
    pub fn get_exception_q(&self) -> (r: Result<String, ErrorKind>)
        ensures
            self@.handle.spec_is_live()
                ==> (r matches Ok(s) && s@ == optional_text(self@.exception_q)),
            !self@.handle.spec_is_live() ==> r matches Err(
                ErrorKind::InvalidArgument { reason: Reason::HandleNotLive },
            ),
    {
        if !self.handle.is_live() {
            return Err(ErrorKind::InvalidArgument { reason: Reason::HandleNotLive });
        }
        Ok(self.exception_q.into_string())
    }

    /// Sets the queue to which the message goes when it cannot be processed.
    pub fn set_exception_q(&mut self, value: &str) -> (r: Result<(), ErrorKind>)
        ensures
            old(self)@.handle.spec_is_live() ==> r == Ok::<(), ErrorKind>(()) && final(self)@ == (
            PropertiesView { exception_q: Some(encode_utf8(value@)), ..old(self)@ }),
            !old(self)@.handle.spec_is_live() ==> r == Err::<(), ErrorKind>(
                ErrorKind::InvalidArgument { reason: Reason::HandleNotLive },
            ) && final(self)@ == old(self)@,
    {
        if !self.handle.is_live() {
            return Err(ErrorKind::InvalidArgument { reason: Reason::HandleNotLive });
        }
        self.exception_q = ODPIStr::from_text(value);
        Ok(())
    }

    /// The number of seconds for which the message can be dequeued; -1 for ever.
    pub fn get_expiration(&self) -> (r: Result<i32, ErrorKind>)
        ensures
            self@.handle.spec_is_live() ==> r == Ok::<i32, ErrorKind>(self@.expiration),
            !self@.handle.spec_is_live() ==> r == Err::<i32, ErrorKind>(
                ErrorKind::InvalidArgument { reason: Reason::HandleNotLive },
            ),
    {
        if !self.handle.is_live() {
            return Err(ErrorKind::InvalidArgument { reason: Reason::HandleNotLive });
        }
        Ok(self.expiration)
    }

    /// Sets the number of seconds for which the message can be dequeued.
    pub fn set_expiration(&mut self, seconds: i32) -> (r: Result<(), ErrorKind>)
        ensures
            old(self)@.handle.spec_is_live() ==> r == Ok::<(), ErrorKind>(()) && final(self)@ == (
            PropertiesView { expiration: seconds, ..old(self)@ }),
            !old(self)@.handle.spec_is_live() ==> r == Err::<(), ErrorKind>(
                ErrorKind::InvalidArgument { reason: Reason::HandleNotLive },
            ) && final(self)@ == old(self)@,
    {
        if !self.handle.is_live() {
            return Err(ErrorKind::InvalidArgument { reason: Reason::HandleNotLive });
        }
        self.expiration = seconds;
        Ok(())
    }

    /// The id of the message in the last queue that it was in; empty where none was set.
    pub fn get_original_msg_id(&self) -> (r: Result<String, ErrorKind>)
        ensures
            self@.handle.spec_is_live()
                ==> (r matches Ok(s) && s@ == optional_text(self@.original_msg_id)),
            !self@.handle.spec_is_live() ==> r matches Err(
                ErrorKind::InvalidArgument { reason: Reason::HandleNotLive },
            ),
    {
        if !self.handle.is_live() {
            return Err(ErrorKind::InvalidArgument { reason: Reason::HandleNotLive });
        }
        Ok(self.original_msg_id.into_string())
    }

    /// Sets the id of the message in the last queue that it was in.
    pub fn set_original_msg_id(&mut self, value: &str) -> (r: Result<(), ErrorKind>)
        ensures
            old(self)@.handle.spec_is_live() ==> r == Ok::<(), ErrorKind>(()) && final(self)@ == (
            PropertiesView { original_msg_id: Some(encode_utf8(value@)), ..old(self)@ }),
            !old(self)@.handle.spec_is_live() ==> r == Err::<(), ErrorKind>(
                ErrorKind::InvalidArgument { reason: Reason::HandleNotLive },
            ) && final(self)@ == old(self)@,
    {
        if !self.handle.is_live() {
            return Err(ErrorKind::InvalidArgument { reason: Reason::HandleNotLive });
        }
        self.original_msg_id = ODPIStr::from_text(value);
        Ok(())
    }

    /// The priority of the message.
    pub fn get_priority(&self) -> (r: Result<i32, ErrorKind>)
        ensures
            self@.handle.spec_is_live() ==> r == Ok::<i32, ErrorKind>(self@.priority),
            !self@.handle.spec_is_live() ==> r == Err::<i32, ErrorKind>(
                ErrorKind::InvalidArgument { reason: Reason::HandleNotLive },
            ),
    {
        if !self.handle.is_live() {
            return Err(ErrorKind::InvalidArgument { reason: Reason::HandleNotLive });
        }
        Ok(self.priority)
    }

    /// Sets the priority of the message.
    pub fn set_priority(&mut self, priority: i32) -> (r: Result<(), ErrorKind>)
        ensures
            old(self)@.handle.spec_is_live() ==> r == Ok::<(), ErrorKind>(()) && final(self)@ == (
            PropertiesView { priority: priority, ..old(self)@ }),
            !old(self)@.handle.spec_is_live() ==> r == Err::<(), ErrorKind>(
                ErrorKind::InvalidArgument { reason: Reason::HandleNotLive },
            ) && final(self)@ == old(self)@,
    {
        if !self.handle.is_live() {
            return Err(ErrorKind::InvalidArgument { reason: Reason::HandleNotLive });
        }
        self.priority = priority;
        Ok(())
    }

    /// The state of the message.
    pub fn get_state(&self) -> (r: Result<ODPIMessageState, ErrorKind>)
        ensures
            self@.handle.spec_is_live() ==> r == Ok::<ODPIMessageState, ErrorKind>(self@.state),
            !self@.handle.spec_is_live() ==> r == Err::<ODPIMessageState, ErrorKind>(
                ErrorKind::InvalidArgument { reason: Reason::HandleNotLive },
            ),
    {
        if !self.handle.is_live() {
            return Err(ErrorKind::InvalidArgument { reason: Reason::HandleNotLive });
        }
        Ok(self.state)
    }

}

} // verus!
