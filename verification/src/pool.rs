//! Pools of sessions.
//!
//! The pool itself, with its free list and its counts of sessions, is kept by the
//! native library. What is kept here are the settings of the pool.
use crate::connection::{Connection, ConnectionView, Handshake};
use crate::context::Context;
use crate::encoding::{Info as EncodingInfo, InfoView as EncodingInfoView};
use crate::enums::ODPIPoolGetMode;
use crate::error::{
    from_native, native_outcome, not_live, ErrorKind, Info as ErrorInfo, Operation, Reason,
};
use crate::flags::{ODPICreateMode, ODPIPoolCloseMode};
use crate::handle::HandleRef;
use crate::params::{CommonCreate, ConnCreate, PoolCreate};
use vstd::prelude::*;

verus! {

/// The number of statements that each session of a pool keeps in its cache, unless
/// another number is set.
pub const DEFAULT_POOL_STATEMENT_CACHE_SIZE: u32 = 20;

/// What the native library reports of a pool that it has created.
#[derive(Debug)]
pub struct PoolGrant {
    /// The native handle of the pool.
    pub handle: u64,
    /// The encodings that the sessions of the pool use.
    pub encoding: EncodingInfo,
}

/// A pool as a mathematical value.
pub struct PoolView {
    /// The reference to the native pool.
    pub handle: HandleRef,
    /// The mode in which the native library was set up for the pool.
    pub create_mode: ODPICreateMode,
    /// The edition of the database objects that the sessions use.
    pub edition: Seq<char>,
    /// The encodings of the sessions.
    pub encoding: EncodingInfoView,
    /// What acquiring a connection does when none is free.
    pub get_mode: ODPIPoolGetMode,
    /// The number of seconds that a session may live; zero for ever.
    pub max_lifetime_session: u32,
    /// The number of statements that each session keeps in its cache.
    pub stmt_cache_size: u32,
    /// The number of seconds after which an idle session is ended; zero for never.
    pub timeout: u32,
}

/// A pool of sessions.
#[derive(Debug)]
pub struct Pool {
    handle: HandleRef,
    common: CommonCreate,
    encoding: EncodingInfo,
    get_mode: ODPIPoolGetMode,
    max_lifetime_session: u32,
    stmt_cache_size: u32,
    timeout: u32,
}

impl View for Pool {
    type V = PoolView;

    closed spec fn view(&self) -> PoolView {
        PoolView {
            handle: self.handle,
            create_mode: self.common@.create_mode,
            edition: self.common@.edition,
            encoding: self.encoding@,
            get_mode: self.get_mode,
            max_lifetime_session: self.max_lifetime_session,
            stmt_cache_size: self.stmt_cache_size,
            timeout: self.timeout,
        }
    }
}

impl Pool {
    /// Takes over the pool that the native library has created in `context`.
    /// Parameters that are not given are the initial ones of the context. `reply` is
    /// the answer of the native library: what it reports of the pool, or its report of
    /// the failure. Refused are, in this order, a context that is not live, a call that
    /// failed, and a null handle.
    pub fn create(
        context: &Context,
        username: Option<&str>,
        password: Option<&str>,
        connect_string: Option<&str>,
        common_create_params: Option<CommonCreate>,
        pool_create_params: Option<PoolCreate>,
        reply: Result<PoolGrant, ErrorInfo>,
    ) -> (r: Result<Pool, ErrorKind>)
        ensures
            !context@.spec_is_live() ==> r matches Err(
                ErrorKind::InvalidArgument { reason: Reason::HandleNotLive },
            ),
            context@.spec_is_live() ==> match reply {
                Err(info) => r matches Err(
                    ErrorKind::NativeCallFailed { operation: Operation::PoolCreate, info: i },
                ) && i == info,
                Ok(g) => if g.handle == 0 {
                    r matches Err(ErrorKind::InvalidArgument { reason: Reason::NullHandle })
                } else {
                    r matches Ok(p) && p@ == (PoolView {
                        handle: HandleRef::minted(g.handle),
                        create_mode: match common_create_params {
                            Some(c) => c@.create_mode,
                            None => ODPICreateMode::of(0),
                        },
                        edition: match common_create_params {
                            Some(c) => c@.edition,
                            None => Seq::<char>::empty(),
                        },
                        encoding: g.encoding@,
                        get_mode: match pool_create_params {
                            Some(c) => c@.get_mode,
                            None => ODPIPoolGetMode::NoWait,
                        },
                        max_lifetime_session: 0,
                        stmt_cache_size: DEFAULT_POOL_STATEMENT_CACHE_SIZE,
                        timeout: 0,
                    }) && p@.handle.spec_is_live()
                },
            },
    {
        if !context.is_live() {
            return Err(ErrorKind::InvalidArgument { reason: Reason::HandleNotLive });
        }
        let common = match common_create_params {
            Some(p) => p,
            None => CommonCreate::new(),
        };
        let pool_params = match pool_create_params {
            Some(p) => p,
            None => PoolCreate::new(),
        };
        match reply {
            Err(info) => Err(
                ErrorKind::NativeCallFailed { operation: Operation::PoolCreate, info },
            ),
            Ok(g) => {
                if g.handle == 0 {
                    return Err(ErrorKind::InvalidArgument { reason: Reason::NullHandle });
                }
                proof {
                    HandleRef::lemma_minted(g.handle);
                }
                Ok(
                    Pool {
                        handle: HandleRef::new(g.handle),
                        common,
                        encoding: g.encoding,
                        get_mode: pool_params.get_get_mode(),
                        max_lifetime_session: 0,
                        stmt_cache_size: DEFAULT_POOL_STATEMENT_CACHE_SIZE,
                        timeout: 0,
                    },
                )
            },
        }
    }

    /// Whether the pool can be used: a native handle is bound, no close has ended the
    /// use, and a reference is held.
    pub fn is_live(&self) -> (r: bool)
        ensures
            r == self@.handle.spec_is_live(),
    {
        self.handle.is_live()
    }

    /// The native handle of the pool.
    pub fn inner(&self) -> (r: u64)
        ensures
            r == self@.handle.spec_inner(),
    {
        self.handle.inner()
    }

    /// Adds a reference to the pool. `reply` is the answer of the native library. Refused
    /// are, in this order, a reference to what is not live, a count that cannot grow, and a
    /// call that failed.
    pub fn add_ref(&mut self, reply: Result<(), ErrorInfo>) -> (r: Result<(), ErrorKind>)
        ensures
            (final(self)@.handle, r) == old(self)@.handle.after_add_ref(
                Operation::PoolAddRef,
                reply,
            ),
            final(self)@ == (PoolView { handle: final(self)@.handle, ..old(self)@ }),
    {
        self.handle.add_ref(Operation::PoolAddRef, reply)
    }

    /// Releases a reference to the pool. `reply` is the answer of the native library. With
    /// the last release the use of the pool ends: nothing is accepted any more, a further
    /// release included. Refused are a release where no reference is held, and a call that
    /// failed.
    pub fn release(&mut self, reply: Result<(), ErrorInfo>) -> (r: Result<(), ErrorKind>)
        ensures
            (final(self)@.handle, r) == old(self)@.handle.after_release(
                Operation::PoolRelease,
                reply,
            ),
            final(self)@ == (PoolView { handle: final(self)@.handle, ..old(self)@ }),
    {
        self.handle.release(Operation::PoolRelease, reply)
    }

    /// Closes the pool at once, whatever the count of its references. `mode` says what
    /// the native library does with sessions that are busy; it changes nothing here.
    /// `reply` is the answer of the native library. Refused are a pool that is not live,
    /// and a call that failed.
    pub fn close(&mut self, mode: ODPIPoolCloseMode, reply: Result<(), ErrorInfo>) -> (r: Result<
        (),
        ErrorKind,
    >)
        ensures
            (final(self)@.handle, r) == old(self)@.handle.after_close(
                Operation::PoolClose,
                reply,
            ),
            final(self)@ == (PoolView { handle: final(self)@.handle, ..old(self)@ }),
    {
        self.handle.close(Operation::PoolClose, reply)
    }

    /// Takes over the connection that the native library has acquired from the pool.
    /// The connection is set up as the pool is. `reply` is the answer of the native
    /// library: what it reports of the connection, or its report of the failure.
    /// Refused are, in this order, a pool that is not live, a call that failed, and a
    /// null handle.
    pub fn acquire_connection(
        &self,
        username: Option<&str>,
        password: Option<&str>,
        conn_create_params: Option<ConnCreate>,
        reply: Result<Handshake, ErrorInfo>,
    ) -> (r: Result<Connection, ErrorKind>)
        ensures
            !self@.handle.spec_is_live() ==> r matches Err(
                ErrorKind::InvalidArgument { reason: Reason::HandleNotLive },
            ),
            self@.handle.spec_is_live() ==> match reply {
                Err(info) => r matches Err(
                    ErrorKind::NativeCallFailed {
                        operation: Operation::PoolAcquireConnection,
                        info: i,
                    },
                ) && i == info,
                Ok(h) => if h.handle == 0 {
                    r matches Err(ErrorKind::InvalidArgument { reason: Reason::NullHandle })
                } else {
                    r matches Ok(c) && c@ == ConnectionView::connected(
                        h.handle,
                        self@.create_mode,
                        self@.edition,
                        h.encoding@,
                        h.server_version,
                        h.server_release@,
                    ) && c@.handle.spec_is_live()
                },
            },
    {
        if !self.handle.is_live() {
            return Err(ErrorKind::InvalidArgument { reason: Reason::HandleNotLive });
        }
        match reply {
            Err(info) => Err(
                ErrorKind::NativeCallFailed { operation: Operation::PoolAcquireConnection, info },
            ),
            Ok(handshake) => Connection::connected(handshake, &self.common),
        }
    }

    /// The number of sessions of the pool that are in use. `reply` is the answer of
    /// the native library, which keeps the count.
    pub fn get_busy_count(&self, reply: Result<u32, ErrorInfo>) -> (r: Result<u32, ErrorKind>)
        ensures
            !self@.handle.spec_is_live() ==> r == not_live::<u32>(),
            self@.handle.spec_is_live() ==> r == native_outcome(Operation::PoolGetBusyCount, reply),
    {
        if !self.handle.is_live() {
            return Err(ErrorKind::InvalidArgument { reason: Reason::HandleNotLive });
        }
        from_native(Operation::PoolGetBusyCount, reply)
    }

    /// The number of sessions of the pool that are open. `reply` is the answer of the
    /// native library, which keeps the count.
    pub fn get_open_count(&self, reply: Result<u32, ErrorInfo>) -> (r: Result<u32, ErrorKind>)
        ensures
            !self@.handle.spec_is_live() ==> r == not_live::<u32>(),
            self@.handle.spec_is_live() ==> r == native_outcome(Operation::PoolGetOpenCount, reply),
    {
        if !self.handle.is_live() {
            return Err(ErrorKind::InvalidArgument { reason: Reason::HandleNotLive });
        }
        from_native(Operation::PoolGetOpenCount, reply)
    }

    /// The encodings of the sessions of the pool.
    pub fn get_encoding_info(&self) -> (r: Result<EncodingInfo, ErrorKind>)
        ensures
            self@.handle.spec_is_live() ==> (r matches Ok(e) && e@ == self@.encoding),
            !self@.handle.spec_is_live() ==> r matches Err(
                ErrorKind::InvalidArgument { reason: Reason::HandleNotLive },
            ),
    {
        if !self.handle.is_live() {
            return Err(ErrorKind::InvalidArgument { reason: Reason::HandleNotLive });
        }
        Ok(self.encoding.duplicate())
    }

    /// What acquiring a connection does when none is free.
    pub fn get_get_mode(&self) -> (r: Result<ODPIPoolGetMode, ErrorKind>)
        ensures
            self@.handle.spec_is_live() ==> r == Ok::<ODPIPoolGetMode, ErrorKind>(self@.get_mode),
            !self@.handle.spec_is_live() ==> r == Err::<ODPIPoolGetMode, ErrorKind>(
                ErrorKind::InvalidArgument { reason: Reason::HandleNotLive },
            ),
    {
        if !self.handle.is_live() {
            return Err(ErrorKind::InvalidArgument { reason: Reason::HandleNotLive });
        }
        Ok(self.get_mode)
    }

    /// Sets what acquiring a connection does when none is free.
    pub fn set_get_mode(&mut self, mode: ODPIPoolGetMode) -> (r: Result<(), ErrorKind>)
        ensures
            old(self)@.handle.spec_is_live() ==> r == Ok::<(), ErrorKind>(()) && final(self)@ == (
            PoolView { get_mode: mode, ..old(self)@ }),
            !old(self)@.handle.spec_is_live() ==> r == Err::<(), ErrorKind>(
                ErrorKind::InvalidArgument { reason: Reason::HandleNotLive },
            ) && final(self)@ == old(self)@,
    {
        if !self.handle.is_live() {
            return Err(ErrorKind::InvalidArgument { reason: Reason::HandleNotLive });
        }
        self.get_mode = mode;
        Ok(())
    }

    /// The number of seconds that a session may live; zero for ever.
    pub fn get_max_lifetime_session(&self) -> (r: Result<u32, ErrorKind>)
        ensures
            self@.handle.spec_is_live() ==> r == Ok::<u32, ErrorKind>(self@.max_lifetime_session),
            !self@.handle.spec_is_live() ==> r == Err::<u32, ErrorKind>(
                ErrorKind::InvalidArgument { reason: Reason::HandleNotLive },
            ),
    {
        if !self.handle.is_live() {
            return Err(ErrorKind::InvalidArgument { reason: Reason::HandleNotLive });
        }
        Ok(self.max_lifetime_session)
    }

    /// Sets the number of seconds that a session may live.
    pub fn set_max_lifetime_session(&mut self, seconds: u32) -> (r: Result<(), ErrorKind>)
        ensures
            old(self)@.handle.spec_is_live() ==> r == Ok::<(), ErrorKind>(()) && final(self)@ == (
            PoolView { max_lifetime_session: seconds, ..old(self)@ }),
            !old(self)@.handle.spec_is_live() ==> r == Err::<(), ErrorKind>(
                ErrorKind::InvalidArgument { reason: Reason::HandleNotLive },
            ) && final(self)@ == old(self)@,
    {
        if !self.handle.is_live() {
            return Err(ErrorKind::InvalidArgument { reason: Reason::HandleNotLive });
        }
        self.max_lifetime_session = seconds;
        Ok(())
    }

    /// The number of statements that each session keeps in its cache.
    pub fn get_stmt_cache_size(&self) -> (r: Result<u32, ErrorKind>)
        ensures
            self@.handle.spec_is_live() ==> r == Ok::<u32, ErrorKind>(self@.stmt_cache_size),
            !self@.handle.spec_is_live() ==> r == Err::<u32, ErrorKind>(
                ErrorKind::InvalidArgument { reason: Reason::HandleNotLive },
            ),
    {
        if !self.handle.is_live() {
            return Err(ErrorKind::InvalidArgument { reason: Reason::HandleNotLive });
        }
        Ok(self.stmt_cache_size)
    }

    /// Sets the number of statements that each session keeps in its cache.
    pub fn set_stmt_cache_size(&mut self, size: u32) -> (r: Result<(), ErrorKind>)
        ensures
            old(self)@.handle.spec_is_live() ==> r == Ok::<(), ErrorKind>(()) && final(self)@ == (
            PoolView { stmt_cache_size: size, ..old(self)@ }),
            !old(self)@.handle.spec_is_live() ==> r == Err::<(), ErrorKind>(
                ErrorKind::InvalidArgument { reason: Reason::HandleNotLive },
            ) && final(self)@ == old(self)@,
    {
        if !self.handle.is_live() {
            return Err(ErrorKind::InvalidArgument { reason: Reason::HandleNotLive });
        }
        self.stmt_cache_size = size;
        Ok(())
    }

    /// The number of seconds after which an idle session is ended; zero for never.
    pub fn get_timeout(&self) -> (r: Result<u32, ErrorKind>)
        ensures
            self@.handle.spec_is_live() ==> r == Ok::<u32, ErrorKind>(self@.timeout),
            !self@.handle.spec_is_live() ==> r == Err::<u32, ErrorKind>(
                ErrorKind::InvalidArgument { reason: Reason::HandleNotLive },
            ),
    {
        if !self.handle.is_live() {
            return Err(ErrorKind::InvalidArgument { reason: Reason::HandleNotLive });
        }
        Ok(self.timeout)
    }

    /// Sets the number of seconds after which an idle session is ended.
    pub fn set_timeout(&mut self, seconds: u32) -> (r: Result<(), ErrorKind>)
        ensures
            old(self)@.handle.spec_is_live() ==> r == Ok::<(), ErrorKind>(()) && final(self)@ == (
            PoolView { timeout: seconds, ..old(self)@ }),
            !old(self)@.handle.spec_is_live() ==> r == Err::<(), ErrorKind>(
                ErrorKind::InvalidArgument { reason: Reason::HandleNotLive },
            ) && final(self)@ == old(self)@,
    {
        if !self.handle.is_live() {
            return Err(ErrorKind::InvalidArgument { reason: Reason::HandleNotLive });
        }
        self.timeout = seconds;
        Ok(())
    }

}

} // verus!
