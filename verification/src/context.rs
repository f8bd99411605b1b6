//! The context in which all work with the native library takes place.
use crate::error::{ErrorKind, Info as ErrorInfo, Operation, Reason};
use crate::handle::HandleRef;
use crate::params::{
    CommonCreate, CommonCreateView, ConnCreate, ConnCreateView, PoolCreate, PoolCreateView,
    SubscrCreate, SubscrCreateView,
};
use crate::structs::ODPIVersionInfo;
use crate::version::{Info as VersionInfo, InfoView as VersionInfoView};
use vstd::prelude::*;

verus! {

/// The context of the native library.
#[derive(Debug)]
pub struct Context {
    handle: HandleRef,
}

impl View for Context {
    type V = HandleRef;

    closed spec fn view(&self) -> HandleRef {
        self.handle
    }
}

impl Context {
    /// Takes over the context that the native library has created. `reply` is its
    /// answer: the handle of the context, or its report of the failure. Refused are a
    /// call that failed, and a null handle.
    pub fn create(reply: Result<u64, ErrorInfo>) -> (r: Result<Context, ErrorKind>)
        ensures
            match reply {
                Err(info) => r matches Err(
                    ErrorKind::NativeCallFailed { operation: Operation::ContextCreate, info: i },
                ) && i == info,
                Ok(inner) => if inner == 0 {
                    r matches Err(ErrorKind::InvalidArgument { reason: Reason::NullHandle })
                } else {
                    r matches Ok(c) && c@ == HandleRef::minted(inner) && c@.spec_is_live()
                },
            },
    {
        match reply {
            Err(info) => Err(
                ErrorKind::NativeCallFailed { operation: Operation::ContextCreate, info },
            ),
            Ok(inner) => {
                if inner == 0 {
                    Err(ErrorKind::InvalidArgument { reason: Reason::NullHandle })
                } else {
                    Ok(Context { handle: HandleRef::new(inner) })
                }
            },
        }
    }

    /// The native handle of the context.
    pub fn inner(&self) -> (r: u64)
        ensures
            r == self@.spec_inner(),
    {
        self.handle.inner()
    }

    /// Whether the context can be used.
    pub fn is_live(&self) -> (r: bool)
        ensures
            r == self@.spec_is_live(),
    {
        self.handle.is_live()
    }

    /// Ends the context. Nothing is created in it afterwards. `reply` is the answer of
    /// the native library. Refused are a context that is not live, and a call that
    /// failed.
    pub fn destroy(&mut self, reply: Result<(), ErrorInfo>) -> (r: Result<(), ErrorKind>)
        ensures
            (final(self)@, r) == old(self)@.after_close(Operation::ContextDestroy, reply),
    {
        self.handle.close(Operation::ContextDestroy, reply)
    }

    /// The version of the native library. `reply` is its answer.
    pub fn get_client_version(&self, reply: Result<ODPIVersionInfo, ErrorInfo>) -> (r: Result<
        VersionInfo,
        ErrorKind,
    >)
        ensures
            !self@.spec_is_live() ==> r matches Err(
                ErrorKind::InvalidArgument { reason: Reason::HandleNotLive },
            ),
            self@.spec_is_live() ==> match reply {
                Err(info) => r matches Err(
                    ErrorKind::NativeCallFailed {
                        operation: Operation::ContextGetClientVersion,
                        info: i,
                    },
                ) && i == info,
                Ok(numbers) => r matches Ok(v) && v@ == (VersionInfoView {
                    numbers,
                    release: None,
                }),
            },
    {
        if !self.handle.is_live() {
            return Err(ErrorKind::InvalidArgument { reason: Reason::HandleNotLive });
        }
        match reply {
            Err(info) => Err(
                ErrorKind::NativeCallFailed { operation: Operation::ContextGetClientVersion, info },
            ),
            Ok(numbers) => Ok(VersionInfo::new(numbers)),
        }
    }

    /// The parameters that connections and pools have in common, as they are before
    /// any of them is set: the default mode, no encodings, no edition, and the name of
    /// this driver.
    pub fn init_common_create_params(&self) -> (r: Result<CommonCreate, ErrorKind>)
        ensures
            self@.spec_is_live() ==> (r matches Ok(p) && p@ == CommonCreateView::initial()),
            !self@.spec_is_live() ==> r matches Err(
                ErrorKind::InvalidArgument { reason: Reason::HandleNotLive },
            ),
    {
        if !self.handle.is_live() {
            return Err(ErrorKind::InvalidArgument { reason: Reason::HandleNotLive });
        }
        Ok(CommonCreate::new())
    }

    /// The parameters of a connection, as they are before any of them is set.
    pub fn init_conn_create_params(&self) -> (r: Result<ConnCreate, ErrorKind>)
        ensures
            self@.spec_is_live() ==> (r matches Ok(p) && p@ == ConnCreateView::initial()),
            !self@.spec_is_live() ==> r matches Err(
                ErrorKind::InvalidArgument { reason: Reason::HandleNotLive },
            ),
    {
        if !self.handle.is_live() {
            return Err(ErrorKind::InvalidArgument { reason: Reason::HandleNotLive });
        }
        Ok(ConnCreate::new())
    }

    /// The parameters of a pool, as they are before any of them is set: one session at
    /// least and at most, a ping after sixty idle seconds that may take five seconds,
    /// sessions of one user, and no waiting for a free session.
    pub fn init_pool_create_params(&self) -> (r: Result<PoolCreate, ErrorKind>)
        ensures
            self@.spec_is_live() ==> (r matches Ok(p) && p@ == PoolCreateView::initial()),
            !self@.spec_is_live() ==> r matches Err(
                ErrorKind::InvalidArgument { reason: Reason::HandleNotLive },
            ),
    {
        if !self.handle.is_live() {
            return Err(ErrorKind::InvalidArgument { reason: Reason::HandleNotLive });
        }
        Ok(PoolCreate::new())
    }

    /// The parameters of a subscription, as they are before any of them is set:
    /// changes of the database, delivered to a callback, of all operations.
    pub fn init_subscr_create_params(&self) -> (r: Result<SubscrCreate, ErrorKind>)
        ensures
            self@.spec_is_live() ==> (r matches Ok(p) && p@ == SubscrCreateView::initial()),
            !self@.spec_is_live() ==> r matches Err(
                ErrorKind::InvalidArgument { reason: Reason::HandleNotLive },
            ),
    {
        if !self.handle.is_live() {
            return Err(ErrorKind::InvalidArgument { reason: Reason::HandleNotLive });
        }
        Ok(SubscrCreate::new())
    }
}

} // verus!
