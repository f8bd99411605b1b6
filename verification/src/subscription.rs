//! Subscriptions to events of the database.
//!
//! The native library delivers a notification on a thread of its own. At the boundary
//! the notification is posted to the subscription, where it waits, in the order of its
//! arrival, until the application takes it.
use crate::error::{ErrorKind, Info, Operation, Reason};
use crate::handle::HandleRef;
use crate::statement::{Description, Info as StatementInfo, Statement, StatementView};
use crate::structs::ODPISubscrMessage;
use vstd::prelude::*;

verus! {

/// A subscription as a mathematical value.
pub struct SubscriptionView {
    /// The reference to the native subscription.
    pub handle: HandleRef,
    /// The id under which the database knows the subscription.
    pub id: u32,
    /// The notifications that wait to be taken, the oldest first.
    pub pending: Seq<ODPISubscrMessage>,
}

/// A subscription to events of the database.
#[derive(Debug)]
pub struct Subscription {
    handle: HandleRef,
    id: u32,
    pending: Vec<ODPISubscrMessage>,
}

impl View for Subscription {
    type V = SubscriptionView;

    closed spec fn view(&self) -> SubscriptionView {
        SubscriptionView { handle: self.handle, id: self.id, pending: self.pending@ }
    }
}

impl Subscription {
    /// The subscription for the native handle `inner`, which the database knows under
    /// `id`.
    pub fn new(inner: u64, id: u32) -> (s: Subscription)
        ensures
            s@ == (SubscriptionView {
                handle: HandleRef::minted(inner),
                id,
                pending: Seq::empty(),
            }),
            inner != 0 ==> s@.handle.spec_is_live(),
    {
        Subscription { handle: HandleRef::new(inner), id, pending: Vec::new() }
    }

    /// Posts a notification that the native library has delivered. It waits behind
    /// those that were posted before. Refused, and dropped, is a notification for a
    /// subscription that is not live.
    pub fn post(&mut self, message: ODPISubscrMessage) -> (r: Result<(), ErrorKind>)
        ensures
            old(self)@.handle.spec_is_live() ==> r == Ok::<(), ErrorKind>(()) && final(self)@ == (
            SubscriptionView { pending: old(self)@.pending.push(message), ..old(self)@ }),
            !old(self)@.handle.spec_is_live() ==> r == Err::<(), ErrorKind>(
                ErrorKind::InvalidArgument { reason: Reason::HandleNotLive },
            ) && final(self)@ == old(self)@,
    {
        if !self.handle.is_live() {
            return Err(ErrorKind::InvalidArgument { reason: Reason::HandleNotLive });
        }
        self.pending.push(message);
        Ok(())
    }

    /// The number of notifications that wait to be taken.
    pub fn pending(&self) -> (n: usize)
        ensures
            n == self@.pending.len(),
    {
        self.pending.len()
    }

    /// Takes the notification that has waited longest, if one waits. Notifications
    /// that were posted before the subscription ended can still be taken.
    pub fn next_message(&mut self) -> (r: Option<ODPISubscrMessage>)
        ensures
            old(self)@.pending.len() == 0 ==> r is None && final(self)@ == old(self)@,
            old(self)@.pending.len() > 0 ==> r == Some(old(self)@.pending[0]) && final(self)@ == (
            SubscriptionView { pending: old(self)@.pending.drop_first(), ..old(self)@ }),
    {
        if self.pending.len() == 0 {
            None
        } else {
            let ghost before = self@.pending;
            let first = self.pending.remove(0);
            assert(self@.pending =~= before.drop_first());
            Some(first)
        }
    }

    /// The id under which the database knows the subscription.
    pub fn id(&self) -> (r: u32)
        ensures
            r == self@.id,
    {
        self.id
    }

    /// Whether the subscription can be used: a native handle is bound, no close has
    /// ended the use, and a reference is held.
    pub fn is_live(&self) -> (r: bool)
        ensures
            r == self@.handle.spec_is_live(),
    {
        self.handle.is_live()
    }

    /// The native handle of the subscription.
    pub fn inner(&self) -> (r: u64)
        ensures
            r == self@.handle.spec_inner(),
    {
        self.handle.inner()
    }

    /// Adds a reference to the subscription. `reply` is the answer of the native library.
    /// Refused are, in this order, a reference to what is not live, a count that cannot
    /// grow, and a call that failed.
    pub fn add_ref(&mut self, reply: Result<(), Info>) -> (r: Result<(), ErrorKind>)
        ensures
            (final(self)@.handle, r) == old(self)@.handle.after_add_ref(
                Operation::SubscrAddRef,
                reply,
            ),
            final(self)@ == (SubscriptionView { handle: final(self)@.handle, ..old(self)@ }),
    {
        self.handle.add_ref(Operation::SubscrAddRef, reply)
    }

    /// Releases a reference to the subscription. `reply` is the answer of the native
    /// library. With the last release the use of the subscription ends: nothing is accepted
    /// any more, a further release included. Refused are a release where no reference is
    /// held, and a call that failed.
    pub fn release(&mut self, reply: Result<(), Info>) -> (r: Result<(), ErrorKind>)
        ensures
            (final(self)@.handle, r) == old(self)@.handle.after_release(
                Operation::SubscrRelease,
                reply,
            ),
            final(self)@ == (SubscriptionView { handle: final(self)@.handle, ..old(self)@ }),
    {
        self.handle.release(Operation::SubscrRelease, reply)
    }

    /// Ends the subscription at once, whatever the count of its references. `reply` is
    /// the answer of the native library. Refused are a subscription that is not live, and
    /// a call that failed.
    pub fn close(&mut self, reply: Result<(), Info>) -> (r: Result<(), ErrorKind>)
        ensures
            (final(self)@.handle, r) == old(self)@.handle.after_close(
                Operation::SubscrClose,
                reply,
            ),
            final(self)@ == (SubscriptionView { handle: final(self)@.handle, ..old(self)@ }),
    {
        self.handle.close(Operation::SubscrClose, reply)
    }

    /// Prepares the statement `sql`, whose result the subscription is to watch.
    /// `reply` is the answer of the native library: what it reports of the statement
    /// that it prepared, or its report of the failure. Refused are, in this order, a
    /// subscription that is not live, a call that failed, and a null handle.
    pub fn prepare_statement(&self, sql: &str, reply: Result<Description, Info>) -> (r: Result<
        Statement,
        ErrorKind,
    >)
        ensures
            !self@.handle.spec_is_live() ==> r matches Err(
                ErrorKind::InvalidArgument { reason: Reason::HandleNotLive },
            ),
            self@.handle.spec_is_live() ==> match reply {
                Err(info) => r matches Err(
                    ErrorKind::NativeCallFailed {
                        operation: Operation::SubscrPrepareStmt,
                        info: i,
                    },
                ) && i == info,
                Ok(d) => if d.handle == 0 {
                    r matches Err(ErrorKind::InvalidArgument { reason: Reason::NullHandle })
                } else {
                    r matches Ok(s) && s@ == StatementView::prepared(
                        d.handle,
                        false,
                        StatementInfo {
                            statement_type: d.statement_type,
                            is_returning: d.is_returning,
                        },
                        d.bind_names@,
                    )
                },
            },
    {
        if !self.handle.is_live() {
            return Err(ErrorKind::InvalidArgument { reason: Reason::HandleNotLive });
        }
        match reply {
            Err(info) => Err(
                ErrorKind::NativeCallFailed { operation: Operation::SubscrPrepareStmt, info },
            ),
            Ok(d) => Statement::prepare(d, false),
        }
    }
}

} // verus!
