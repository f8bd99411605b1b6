//! Connections: the factory of every other resource.
//!
//! A connection keeps on the client what the native library reported when the
//! connection was made, and the attributes that were set on it since.
use crate::context::Context;
use crate::dequeue::{Options as DeqOptions, OptionsView as DeqOptionsView};
use crate::encoding::{Info as EncodingInfo, InfoView as EncodingInfoView};
use crate::enqueue::{Options as EnqOptions, OptionsView as EnqOptionsView};
use crate::enums::{
    ODPINativeTypeNum, ODPIOracleTypeNum, ODPIShutdownMode, ODPIStartupMode, ODPIVisibility,
    ODPIMessageDeliveryMode, ODPIDeqMode, ODPIDeqNavigation,
};
use crate::error::{
    from_native, native_outcome, not_live, ErrorKind, Info as ErrorInfo, Operation, Reason,
};
use crate::flags::{ODPIConnCloseMode, ODPICreateMode, DPI_MODE_CREATE_THREADED};
use crate::handle::HandleRef;
use crate::lob::{Lob, LobView};
use crate::message::{Properties, PropertiesView};
use crate::object::Object;
use crate::objecttype::{ObjectType, ObjectTypeView, TypeDescription};
use crate::params::{CommonCreate, ConnCreate, SubscrCreate};
use crate::statement::{Description, Info as StatementInfo, Statement, StatementView};
use crate::structs::ODPIVersionInfo;
use crate::subscription::{Subscription, SubscriptionView};
use crate::util::{bytes_from_text, optional_text, ODPIStr};
use crate::variable::{
    created_var, element_width, spec_element_width, spec_is_national_type, Var, VarView,
};
use crate::version::{Info as VersionInfo, InfoView as VersionInfoView};
use vstd::prelude::*;
use vstd::string::*;
use vstd::utf8::*;

verus! {

/// The number of statements that a connection keeps in its cache, unless another number
/// is set.
pub const DEFAULT_STATEMENT_CACHE_SIZE: u32 = 20;

/// The greatest number of bytes of the transaction id and of the branch id of a
/// distributed transaction.
pub const MAX_XID_LENGTH: usize = 64;

/// What the native library reports of a connection that it has made.
#[derive(Debug)]
pub struct Handshake {
    /// The native handle of the connection.
    pub handle: u64,
    /// The encodings that the connection uses.
    pub encoding: EncodingInfo,
    /// The numbers of the version of the database.
    pub server_version: ODPIVersionInfo,
    /// The text with which the database names its release.
    pub server_release: String,
}

/// What the native library reports of a subscription that it has registered.
#[derive(Clone, Copy, Debug, PartialEq, Eq, Structural)]
pub struct SubscriptionGrant {
    /// The native handle of the subscription.
    pub handle: u64,
    /// The id under which the database knows the subscription.
    pub id: u32,
}

/// What the native library reports of a temporary LOB that it has created.
#[derive(Clone, Copy, Debug, PartialEq, Eq, Structural)]
pub struct LobGrant {
    /// The native handle of the LOB.
    pub handle: u64,
    /// The number of bytes that are best read or written at once.
    pub chunk_size: u32,
}

/// A connection as a mathematical value. A text that was never set is `None`.
pub struct ConnectionView {
    /// The reference to the native connection.
    pub handle: HandleRef,
    /// The mode in which the native library was set up for the connection.
    pub create_mode: ODPICreateMode,
    /// The encodings of the connection.
    pub encoding: EncodingInfoView,
    /// The version of the database.
    pub server_version: VersionInfoView,
    /// The schema in which names are resolved.
    pub current_schema: Option<Seq<u8>>,
    /// The edition of the database objects that are used.
    pub edition: Option<Seq<u8>>,
    /// The external name of the connection.
    pub external_name: Option<Seq<u8>>,
    /// The internal name of the connection.
    pub internal_name: Option<Seq<u8>>,
    /// The id of the logical transaction.
    pub ltxid: Option<Seq<u8>>,
    /// The number of statements that are kept in the cache.
    pub stmt_cache_size: u32,
    /// The action that the connection reports to the database.
    pub action: Option<Seq<u8>>,
    /// The client identifier that the connection reports to the database.
    pub client_identifier: Option<Seq<u8>>,
    /// The client information that the connection reports to the database.
    pub client_info: Option<Seq<u8>>,
    /// The database operation that the connection reports to the database.
    pub db_op: Option<Seq<u8>>,
    /// The module that the connection reports to the database.
    pub module: Option<Seq<u8>>,
}

impl ConnectionView {
    /// The connection that is made of what the native library reported, in the mode
    /// `create_mode` and with the edition `edition`, before anything is set on it.
    pub open spec fn connected(
        inner: u64,
        create_mode: ODPICreateMode,
        edition: Seq<char>,
        encoding: EncodingInfoView,
        server_version: ODPIVersionInfo,
        server_release: Seq<char>,
    ) -> ConnectionView {
        ConnectionView {
            handle: HandleRef::minted(inner),
            create_mode,
            encoding,
            server_version: VersionInfoView {
                numbers: server_version,
                release: Some(server_release),
            },
            current_schema: None,
            edition: Some(encode_utf8(edition)),
            external_name: None,
            internal_name: None,
            ltxid: None,
            stmt_cache_size: DEFAULT_STATEMENT_CACHE_SIZE,
            action: None,
            client_identifier: None,
            client_info: None,
            db_op: None,
            module: None,
        }
    }

    /// The most bytes that a character of the database type takes on this connection.
    pub open spec fn char_width(self, oracle_type: ODPIOracleTypeNum) -> u32 {
        if spec_is_national_type(oracle_type) {
            self.encoding.max_bytes_per_nchar
        } else {
            self.encoding.max_bytes_per_char
        }
    }

    /// The name of the encoding of values of the database type on this connection.
    pub open spec fn encoding_of(self, oracle_type: ODPIOracleTypeNum) -> Seq<char> {
        if spec_is_national_type(oracle_type) {
            self.encoding.nchar_encoding
        } else {
            self.encoding.encoding
        }
    }

    /// The width in bytes of one element of a variable that is made on this
    /// connection.
    pub open spec fn width(
        self,
        oracle_type: ODPIOracleTypeNum,
        size: u32,
        size_is_bytes: bool,
    ) -> int {
        spec_element_width(
            oracle_type,
            size,
            size_is_bytes,
            self.encoding.max_bytes_per_char,
            self.encoding.max_bytes_per_nchar,
        )
    }

    /// The error with which a variable is refused before the native library is asked,
    /// if there is one.
    pub open spec fn new_var_error(
        self,
        oracle_type: ODPIOracleTypeNum,
        native_type: ODPINativeTypeNum,
        max_array_size: u32,
        size: u32,
        size_is_bytes: bool,
    ) -> Option<ErrorKind> {
        if !self.handle.spec_is_live() {
            Some(ErrorKind::InvalidArgument { reason: Reason::HandleNotLive })
        } else if max_array_size == 0 {
            Some(ErrorKind::InvalidArgument { reason: Reason::ZeroArraySize })
        } else if oracle_type == ODPIOracleTypeNum::TypeNone || oracle_type
            == ODPIOracleTypeNum::Max {
            Some(ErrorKind::InvalidArgument { reason: Reason::InvalidOracleType })
        } else if native_type == ODPINativeTypeNum::Invalid {
            Some(ErrorKind::UncheckedVariantAccess)
        } else if self.width(oracle_type, size, size_is_bytes) > u32::MAX {
            Some(ErrorKind::InvalidArgument { reason: Reason::ValueTooLarge })
        } else {
            None
        }
    }
}

/// Whether a byte of `bytes` is NUL.
fn has_nul(bytes: &Vec<u8>) -> (r: bool)
    ensures
        r == bytes@.contains(0u8),
{
    let mut i: usize = 0;
    while i < bytes.len()
        invariant
            i <= bytes.len(),
            forall|k: int| 0 <= k < i ==> bytes@[k] != 0u8,
        decreases bytes.len() - i,
    {
        if bytes[i] == 0 {
            assert(bytes@[i as int] == 0u8);
            return true;
        }
        i = i + 1;
    }
    false
}

/// A connection to the database.
#[derive(Debug)]
pub struct Connection {
    handle: HandleRef,
    create_mode: ODPICreateMode,
    encoding: EncodingInfo,
    server_version: VersionInfo,
    current_schema: ODPIStr,
    edition: ODPIStr,
    external_name: ODPIStr,
    internal_name: ODPIStr,
    ltxid: ODPIStr,
    stmt_cache_size: u32,
    action: ODPIStr,
    client_identifier: ODPIStr,
    client_info: ODPIStr,
    db_op: ODPIStr,
    module: ODPIStr,
}

impl View for Connection {
    type V = ConnectionView;

    closed spec fn view(&self) -> ConnectionView {
        ConnectionView {
            handle: self.handle,
            create_mode: self.create_mode,
            encoding: self.encoding@,
            server_version: self.server_version@,
            current_schema: self.current_schema@,
            edition: self.edition@,
            external_name: self.external_name@,
            internal_name: self.internal_name@,
            ltxid: self.ltxid@,
            stmt_cache_size: self.stmt_cache_size,
            action: self.action@,
            client_identifier: self.client_identifier@,
            client_info: self.client_info@,
            db_op: self.db_op@,
            module: self.module@,
        }
    }
}

impl Connection {
    /// The connection that the native library has made and reported in `handshake`,
    /// set up in the mode and with the edition of `common`. A null handle is refused.
    pub fn connected(handshake: Handshake, common: &CommonCreate) -> (r: Result<
        Connection,
        ErrorKind,
    >)
        ensures
            handshake.handle == 0 ==> r matches Err(
                ErrorKind::InvalidArgument { reason: Reason::NullHandle },
            ),
            handshake.handle != 0 ==> (r matches Ok(c) && c@ == ConnectionView::connected(
                handshake.handle,
                common@.create_mode,
                common@.edition,
                handshake.encoding@,
                handshake.server_version,
                handshake.server_release@,
            ) && c@.handle.spec_is_live()),
    {
        if handshake.handle == 0 {
            return Err(ErrorKind::InvalidArgument { reason: Reason::NullHandle });
        }
        let mut server_version = VersionInfo::new(handshake.server_version);
        server_version.set_release(Some(handshake.server_release));
        let edition = common.get_edition();
        Ok(
            Connection {
                handle: HandleRef::new(handshake.handle),
                create_mode: common.get_create_mode(),
                encoding: handshake.encoding,
                server_version,
                current_schema: ODPIStr::new(None),
                edition: ODPIStr::from_text(edition.as_str()),
                external_name: ODPIStr::new(None),
                internal_name: ODPIStr::new(None),
                ltxid: ODPIStr::new(None),
                stmt_cache_size: DEFAULT_STATEMENT_CACHE_SIZE,
                action: ODPIStr::new(None),
                client_identifier: ODPIStr::new(None),
                client_info: ODPIStr::new(None),
                db_op: ODPIStr::new(None),
                module: ODPIStr::new(None),
            },
        )
    }

    /// Takes over the connection that the native library has made in `context`.
    /// Parameters that are not given are the initial ones of the context. `reply` is the
    /// answer of the native library: what it reports of the connection, or its report of
    /// the failure. Refused are, in this order, a context that is not live, a call that
    /// failed, and a null handle.
    pub fn create(
        context: &Context,
        username: Option<&str>,
        password: Option<&str>,
        connect_string: Option<&str>,
        common_create_params: Option<CommonCreate>,
        conn_create_params: Option<ConnCreate>,
        reply: Result<Handshake, ErrorInfo>,
    ) -> (r: Result<Connection, ErrorKind>)
        ensures
            !context@.spec_is_live() ==> r matches Err(
                ErrorKind::InvalidArgument { reason: Reason::HandleNotLive },
            ),
            context@.spec_is_live() ==> match reply {
                Err(info) => r matches Err(
                    ErrorKind::NativeCallFailed { operation: Operation::ConnCreate, info: i },
                ) && i == info,
                Ok(h) => if h.handle == 0 {
                    r matches Err(ErrorKind::InvalidArgument { reason: Reason::NullHandle })
                } else {
                    r matches Ok(c) && c@ == ConnectionView::connected(
                        h.handle,
                        match common_create_params {
                            Some(p) => p@.create_mode,
                            None => ODPICreateMode::of(0),
                        },
                        match common_create_params {
                            Some(p) => p@.edition,
                            None => Seq::<char>::empty(),
                        },
                        h.encoding@,
                        h.server_version,
                        h.server_release@,
                    ) && c@.handle.spec_is_live()
                },
            },
    {
        let common = match common_create_params {
            Some(p) => p,
            None => match context.init_common_create_params() {
                Ok(p) => p,
                Err(e) => {
                    return Err(e);
                },
            },
        };
        if !context.is_live() {
            return Err(ErrorKind::InvalidArgument { reason: Reason::HandleNotLive });
        }
        match reply {
            Err(info) => Err(
                ErrorKind::NativeCallFailed { operation: Operation::ConnCreate, info },
            ),
            Ok(handshake) => Connection::connected(handshake, &common),
        }
    }

    /// Whether the connection can be used: a native handle is bound, no close has ended the
    /// use, and a reference is held.
    pub fn is_live(&self) -> (r: bool)
        ensures
            r == self@.handle.spec_is_live(),
    {
        self.handle.is_live()
    }

    /// The native handle of the connection.
    pub fn inner(&self) -> (r: u64)
        ensures
            r == self@.handle.spec_inner(),
    {
        self.handle.inner()
    }

    /// Adds a reference to the connection. `reply` is the answer of the native library.
    /// Refused are, in this order, a reference to what is not live, a count that cannot
    /// grow, and a call that failed.
    pub fn add_ref(&mut self, reply: Result<(), ErrorInfo>) -> (r: Result<(), ErrorKind>)
        ensures
            (final(self)@.handle, r) == old(self)@.handle.after_add_ref(
                Operation::ConnAddRef,
                reply,
            ),
            final(self)@ == (ConnectionView { handle: final(self)@.handle, ..old(self)@ }),
    {
        self.handle.add_ref(Operation::ConnAddRef, reply)
    }

    /// Releases a reference to the connection. `reply` is the answer of the native library.
    /// With the last release the use of the connection ends: nothing is accepted any more,
    /// a further release included. Refused are a release where no reference is held, and a
    /// call that failed.
    pub fn release(&mut self, reply: Result<(), ErrorInfo>) -> (r: Result<(), ErrorKind>)
        ensures
            (final(self)@.handle, r) == old(self)@.handle.after_release(
                Operation::ConnRelease,
                reply,
            ),
            final(self)@ == (ConnectionView { handle: final(self)@.handle, ..old(self)@ }),
    {
        self.handle.release(Operation::ConnRelease, reply)
    }

    /// Closes the connection at once, whatever the count of its references. Nothing
    /// but the release of those references is accepted afterwards. `mode` and `tag` say
    /// what the native library does with the session; they change nothing here.
    /// `reply` is the answer of the native library. Refused are a connection that is not
    /// live, and a call that failed.
    pub fn close(
        &mut self,
        mode: ODPIConnCloseMode,
        tag: Option<&str>,
        reply: Result<(), ErrorInfo>,
    ) -> (r: Result<(), ErrorKind>)
        ensures
            (final(self)@.handle, r) == old(self)@.handle.after_close(
                Operation::ConnClose,
                reply,
            ),
            final(self)@ == (ConnectionView { handle: final(self)@.handle, ..old(self)@ }),
    {
        self.handle.close(Operation::ConnClose, reply)
    }

    /// Begins a distributed transaction. The transaction id and the branch id have at
    /// most 64 bytes each. `reply` is the answer of the native library. Refused are, in
    /// this order, a connection that is not live, a transaction id that is too long, a
    /// branch id that is too long, and a call that failed.
    pub fn begin_distrib_trans(
        &self,
        format_id: i64,
        txn_id: &str,
        branch_id: &str,
        reply: Result<(), ErrorInfo>,
    ) -> (r: Result<(), ErrorKind>)
        ensures
            !self@.handle.spec_is_live() ==> r == not_live::<()>(),
            self@.handle.spec_is_live() && encode_utf8(txn_id@).len() > MAX_XID_LENGTH ==> r
                == Err::<(), ErrorKind>(
                ErrorKind::InvalidArgument { reason: Reason::TxnIdTooLong },
            ),
            self@.handle.spec_is_live() && encode_utf8(txn_id@).len() <= MAX_XID_LENGTH
                && encode_utf8(branch_id@).len() > MAX_XID_LENGTH ==> r == Err::<(), ErrorKind>(
                ErrorKind::InvalidArgument { reason: Reason::BranchIdTooLong },
            ),
            self@.handle.spec_is_live() && encode_utf8(txn_id@).len() <= MAX_XID_LENGTH
                && encode_utf8(branch_id@).len() <= MAX_XID_LENGTH ==> r == native_outcome(
                Operation::ConnBeginDistribTrans,
                reply,
            ),
    {
        if !self.handle.is_live() {
            return Err(ErrorKind::InvalidArgument { reason: Reason::HandleNotLive });
        }
        if txn_id.as_bytes().len() > MAX_XID_LENGTH {
            return Err(ErrorKind::InvalidArgument { reason: Reason::TxnIdTooLong });
        }
        if branch_id.as_bytes().len() > MAX_XID_LENGTH {
            return Err(ErrorKind::InvalidArgument { reason: Reason::BranchIdTooLong });
        }
        from_native(Operation::ConnBeginDistribTrans, reply)
    }

    /// Asks the database to interrupt the call that is running on the connection, from
    /// another thread than the one that runs it. `reply` is the answer of the native
    /// library. Refused are a connection that is not live, and a call that failed.
    pub fn break_execution(&self, reply: Result<(), ErrorInfo>) -> (r: Result<(), ErrorKind>)
        ensures
            !self@.handle.spec_is_live() ==> r == not_live::<()>(),
            self@.handle.spec_is_live()
                ==> r == native_outcome(Operation::ConnBreakExecution, reply),
    {
        if !self.handle.is_live() {
            return Err(ErrorKind::InvalidArgument { reason: Reason::HandleNotLive });
        }
        from_native(Operation::ConnBreakExecution, reply)
    }

    /// Changes the password of the user `username`. `reply` is the answer of the native
    /// library. Refused are a connection that is not live, and a call that failed.
    pub fn change_password(
        &self,
        username: &str,
        old_password: &str,
        new_password: &str,
        reply: Result<(), ErrorInfo>,
    ) -> (r: Result<(), ErrorKind>)
        ensures
            !self@.handle.spec_is_live() ==> r == not_live::<()>(),
            self@.handle.spec_is_live()
                ==> r == native_outcome(Operation::ConnChangePassword, reply),
    {
        if !self.handle.is_live() {
            return Err(ErrorKind::InvalidArgument { reason: Reason::HandleNotLive });
        }
        from_native(Operation::ConnChangePassword, reply)
    }

    /// Commits the transaction. `reply` is the answer of the native library. Refused are a
    /// connection that is not live, and a call that failed.
    pub fn commit(&self, reply: Result<(), ErrorInfo>) -> (r: Result<(), ErrorKind>)
        ensures
            !self@.handle.spec_is_live() ==> r == not_live::<()>(),
            self@.handle.spec_is_live() ==> r == native_outcome(Operation::ConnCommit, reply),
    {
        if !self.handle.is_live() {
            return Err(ErrorKind::InvalidArgument { reason: Reason::HandleNotLive });
        }
        from_native(Operation::ConnCommit, reply)
    }

    /// Asks the database whether the connection is alive. `reply` is the answer of the
    /// native library. Refused are a connection that is not live, and a call that
    /// failed.
    pub fn ping(&self, reply: Result<(), ErrorInfo>) -> (r: Result<(), ErrorKind>)
        ensures
            !self@.handle.spec_is_live() ==> r == not_live::<()>(),
            self@.handle.spec_is_live() ==> r == native_outcome(Operation::ConnPing, reply),
    {
        if !self.handle.is_live() {
            return Err(ErrorKind::InvalidArgument { reason: Reason::HandleNotLive });
        }
        from_native(Operation::ConnPing, reply)
    }

    /// Rolls the transaction back. `reply` is the answer of the native library. Refused
    /// are a connection that is not live, and a call that failed.
    pub fn rollback(&self, reply: Result<(), ErrorInfo>) -> (r: Result<(), ErrorKind>)
        ensures
            !self@.handle.spec_is_live() ==> r == not_live::<()>(),
            self@.handle.spec_is_live() ==> r == native_outcome(Operation::ConnRollback, reply),
    {
        if !self.handle.is_live() {
            return Err(ErrorKind::InvalidArgument { reason: Reason::HandleNotLive });
        }
        from_native(Operation::ConnRollback, reply)
    }

    /// Shuts the database down in the mode `mode`. The connection is given up with the
    /// call. `reply` is the answer of the native library. Refused are a connection that
    /// is not live, and a call that failed.
    pub fn shutdown_database(
        self,
        mode: ODPIShutdownMode,
        reply: Result<(), ErrorInfo>,
    ) -> (r: Result<(), ErrorKind>)
        ensures
            !self@.handle.spec_is_live() ==> r == not_live::<()>(),
            self@.handle.spec_is_live()
                ==> r == native_outcome(Operation::ConnShutdownDatabase, reply),
    {
        if !self.handle.is_live() {
            return Err(ErrorKind::InvalidArgument { reason: Reason::HandleNotLive });
        }
        from_native(Operation::ConnShutdownDatabase, reply)
    }

    /// Starts the database up in the mode `mode`. The connection is given up with the
    /// call. `reply` is the answer of the native library. Refused are a connection that
    /// is not live, and a call that failed.
    pub fn start_database(
        self,
        mode: ODPIStartupMode,
        reply: Result<(), ErrorInfo>,
    ) -> (r: Result<(), ErrorKind>)
        ensures
            !self@.handle.spec_is_live() ==> r == not_live::<()>(),
            self@.handle.spec_is_live()
                ==> r == native_outcome(Operation::ConnStartupDatabase, reply),
    {
        if !self.handle.is_live() {
            return Err(ErrorKind::InvalidArgument { reason: Reason::HandleNotLive });
        }
        from_native(Operation::ConnStartupDatabase, reply)
    }

    /// Prepares the distributed transaction for its commit. `reply` is the answer of
    /// the native library: whether a commit is needed, or its report of the failure.
    pub fn prepare_distrib_trans(&self, reply: Result<bool, ErrorInfo>) -> (r: Result<
        bool,
        ErrorKind,
    >)
        ensures
            !self@.handle.spec_is_live() ==> r == not_live::<bool>(),
            self@.handle.spec_is_live() ==> r == native_outcome(
                Operation::ConnPrepareDistribTrans,
                reply,
            ),
    {
        if !self.handle.is_live() {
            return Err(ErrorKind::InvalidArgument { reason: Reason::HandleNotLive });
        }
        from_native(Operation::ConnPrepareDistribTrans, reply)
    }

    /// Dequeues a message from the queue `queue_name` into `payload`, with the options
    /// `options`, and reports what is known of the message in `props`. `reply` is the
    /// answer of the native library: the id of the message, or its report of the
    /// failure. The result is the id as text. Refused are, in this order, a connection,
    /// options, properties or a payload that is not live, and a call that failed.
    pub fn deque_object(
        &self,
        queue_name: &str,
        options: &DeqOptions,
        props: &Properties,
        payload: &Object,
        reply: Result<ODPIStr, ErrorInfo>,
    ) -> (r: Result<String, ErrorKind>)
        ensures
            !(self@.handle.spec_is_live() && options@.handle.spec_is_live()
                && props@.handle.spec_is_live() && payload@.handle.spec_is_live())
                    ==> r matches Err(
                ErrorKind::InvalidArgument { reason: Reason::HandleNotLive },
            ),
            self@.handle.spec_is_live() && options@.handle.spec_is_live()
                && props@.handle.spec_is_live() && payload@.handle.spec_is_live() ==> match reply {
                Err(info) => r matches Err(
                    ErrorKind::NativeCallFailed { operation: Operation::ConnDeqObject, info: i },
                ) && i == info,
                Ok(id) => r matches Ok(s) && s@ == id.text(),
            },
    {
        if !self.handle.is_live() || !options.is_live() || !props.is_live() || !payload.is_live() {
            return Err(ErrorKind::InvalidArgument { reason: Reason::HandleNotLive });
        }
        match reply {
            Err(info) => Err(
                ErrorKind::NativeCallFailed { operation: Operation::ConnDeqObject, info },
            ),
            Ok(id) => Ok(id.into_string()),
        }
    }

    /// Enqueues `payload` as a message in the queue `queue_name`, with the options
    /// `options` and the properties `props`. `reply` is the answer of the native
    /// library: the id of the message, or its report of the failure. The result is the
    /// id as text. Refused are, in this order, a connection, options, properties or a
    /// payload that is not live, and a call that failed.
    pub fn enqueue_object(
        &self,
        queue_name: &str,
        options: &EnqOptions,
        props: &Properties,
        payload: &Object,
        reply: Result<ODPIStr, ErrorInfo>,
    ) -> (r: Result<String, ErrorKind>)
        ensures
            !(self@.handle.spec_is_live() && options@.handle.spec_is_live()
                && props@.handle.spec_is_live() && payload@.handle.spec_is_live())
                    ==> r matches Err(
                ErrorKind::InvalidArgument { reason: Reason::HandleNotLive },
            ),
            self@.handle.spec_is_live() && options@.handle.spec_is_live()
                && props@.handle.spec_is_live() && payload@.handle.spec_is_live() ==> match reply {
                Err(info) => r matches Err(
                    ErrorKind::NativeCallFailed { operation: Operation::ConnEnqObject, info: i },
                ) && i == info,
                Ok(id) => r matches Ok(s) && s@ == id.text(),
            },
    {
        if !self.handle.is_live() || !options.is_live() || !props.is_live() || !payload.is_live() {
            return Err(ErrorKind::InvalidArgument { reason: Reason::HandleNotLive });
        }
        match reply {
            Err(info) => Err(
                ErrorKind::NativeCallFailed { operation: Operation::ConnEnqObject, info },
            ),
            Ok(id) => Ok(id.into_string()),
        }
    }

    /// The schema in which names are resolved; empty where none was set.
    pub fn get_current_schema(&self) -> (r: Result<String, ErrorKind>)
        ensures
            self@.handle.spec_is_live()
                ==> (r matches Ok(s) && s@ == optional_text(self@.current_schema)),
            !self@.handle.spec_is_live() ==> r matches Err(
                ErrorKind::InvalidArgument { reason: Reason::HandleNotLive },
            ),
    {
        if !self.handle.is_live() {
            return Err(ErrorKind::InvalidArgument { reason: Reason::HandleNotLive });
        }
        Ok(self.current_schema.into_string())
    }

    /// Sets the schema in which names are resolved.
    pub fn set_current_schema(&mut self, schema: &str) -> (r: Result<(), ErrorKind>)
        ensures
            old(self)@.handle.spec_is_live() ==> r == Ok::<(), ErrorKind>(()) && final(self)@ == (
            ConnectionView { current_schema: Some(encode_utf8(schema@)), ..old(self)@ }),
            !old(self)@.handle.spec_is_live() ==> r == not_live::<()>() && final(self)@
                == old(self)@,
    {
        if !self.handle.is_live() {
            return Err(ErrorKind::InvalidArgument { reason: Reason::HandleNotLive });
        }
        self.current_schema = ODPIStr::from_text(schema);
        Ok(())
    }

    /// The edition of the database objects that are used; empty where the connection
    /// was made without one.
    pub fn get_edition(&self) -> (r: Result<String, ErrorKind>)
        ensures
            self@.handle.spec_is_live() ==> (r matches Ok(s) && s@ == optional_text(self@.edition)),
            !self@.handle.spec_is_live() ==> r matches Err(
                ErrorKind::InvalidArgument { reason: Reason::HandleNotLive },
            ),
    {
        if !self.handle.is_live() {
            return Err(ErrorKind::InvalidArgument { reason: Reason::HandleNotLive });
        }
        Ok(self.edition.into_string())
    }

    /// The id of the logical transaction; empty where there is none.
    pub fn get_ltxid(&self) -> (r: Result<String, ErrorKind>)
        ensures
            self@.handle.spec_is_live() ==> (r matches Ok(s) && s@ == optional_text(self@.ltxid)),
            !self@.handle.spec_is_live() ==> r matches Err(
                ErrorKind::InvalidArgument { reason: Reason::HandleNotLive },
            ),
    {
        if !self.handle.is_live() {
            return Err(ErrorKind::InvalidArgument { reason: Reason::HandleNotLive });
        }
        Ok(self.ltxid.into_string())
    }

    /// The external name of the connection, which is used in the logs of distributed
    /// transactions. Refused are a connection that is not live, and a name that was
    /// never set.
    pub fn get_external_name(&self) -> (r: Result<String, ErrorKind>)
        ensures
            !self@.handle.spec_is_live() ==> r matches Err(
                ErrorKind::InvalidArgument { reason: Reason::HandleNotLive },
            ),
            self@.handle.spec_is_live() && self@.external_name is None ==> r matches Err(
                ErrorKind::InvalidArgument { reason: Reason::NotSet },
            ),
            self@.handle.spec_is_live() && self@.external_name is Some ==> (r matches Ok(s) && s@
                == optional_text(self@.external_name)),
    {
        if !self.handle.is_live() {
            return Err(ErrorKind::InvalidArgument { reason: Reason::HandleNotLive });
        }
        if self.external_name.is_null() {
            return Err(ErrorKind::InvalidArgument { reason: Reason::NotSet });
        }
        Ok(self.external_name.into_string())
    }

    /// Sets the external name of the connection. The native library takes the name as a
    /// C string. Refused are, in this order, a connection that is not live, a name
    /// with a NUL byte in it, and a name that with its terminator is longer than 32
    /// bits can count.
    pub fn set_external_name(&mut self, external_name: &str) -> (r: Result<(), ErrorKind>)
        ensures
            !old(self)@.handle.spec_is_live() ==> r == not_live::<()>(),
            old(self)@.handle.spec_is_live() && encode_utf8(external_name@).contains(0u8)
                ==> r == Err::<
                (),
                ErrorKind,
            >(ErrorKind::InvalidArgument { reason: Reason::EmbeddedNul }),
            old(self)@.handle.spec_is_live() && !encode_utf8(external_name@).contains(0u8)
                && encode_utf8(external_name@).len() + 1 > u32::MAX ==> r == Err::<(), ErrorKind>(
                ErrorKind::InvalidArgument { reason: Reason::ValueTooLarge },
            ),
            old(self)@.handle.spec_is_live() && !encode_utf8(external_name@).contains(0u8)
                && encode_utf8(external_name@).len() + 1 <= u32::MAX
                    ==> r == Ok::<(), ErrorKind>(())
                && final(self)@ == (ConnectionView {
                external_name: Some(encode_utf8(external_name@)),
                ..old(self)@
            }),
            r is Err ==> final(self)@ == old(self)@,
    {
        if !self.handle.is_live() {
            return Err(ErrorKind::InvalidArgument { reason: Reason::HandleNotLive });
        }
        let bytes = bytes_from_text(external_name);
        if has_nul(&bytes) {
            return Err(ErrorKind::InvalidArgument { reason: Reason::EmbeddedNul });
        }
        if bytes.len() >= u32::MAX as usize {
            return Err(ErrorKind::InvalidArgument { reason: Reason::ValueTooLarge });
        }
        self.external_name = ODPIStr::new(Some(bytes));
        Ok(())
    }

    /// The internal name of the connection, which is used in the logs of distributed
    /// transactions. Refused are a connection that is not live, and a name that was
    /// never set.
    pub fn get_internal_name(&self) -> (r: Result<String, ErrorKind>)
        ensures
            !self@.handle.spec_is_live() ==> r matches Err(
                ErrorKind::InvalidArgument { reason: Reason::HandleNotLive },
            ),
            self@.handle.spec_is_live() && self@.internal_name is None ==> r matches Err(
                ErrorKind::InvalidArgument { reason: Reason::NotSet },
            ),
            self@.handle.spec_is_live() && self@.internal_name is Some ==> (r matches Ok(s) && s@
                == optional_text(self@.internal_name)),
    {
        if !self.handle.is_live() {
            return Err(ErrorKind::InvalidArgument { reason: Reason::HandleNotLive });
        }
        if self.internal_name.is_null() {
            return Err(ErrorKind::InvalidArgument { reason: Reason::NotSet });
        }
        Ok(self.internal_name.into_string())
    }

    /// Sets the internal name of the connection. The native library takes the name as a
    /// C string. Refused are, in this order, a connection that is not live, a name
    /// with a NUL byte in it, and a name that with its terminator is longer than 32
    /// bits can count.
    pub fn set_internal_name(&mut self, internal_name: &str) -> (r: Result<(), ErrorKind>)
        ensures
            !old(self)@.handle.spec_is_live() ==> r == not_live::<()>(),
            old(self)@.handle.spec_is_live() && encode_utf8(internal_name@).contains(0u8)
                ==> r == Err::<
                (),
                ErrorKind,
            >(ErrorKind::InvalidArgument { reason: Reason::EmbeddedNul }),
            old(self)@.handle.spec_is_live() && !encode_utf8(internal_name@).contains(0u8)
                && encode_utf8(internal_name@).len() + 1 > u32::MAX ==> r == Err::<(), ErrorKind>(
                ErrorKind::InvalidArgument { reason: Reason::ValueTooLarge },
            ),
            old(self)@.handle.spec_is_live() && !encode_utf8(internal_name@).contains(0u8)
                && encode_utf8(internal_name@).len() + 1 <= u32::MAX
                    ==> r == Ok::<(), ErrorKind>(())
                && final(self)@ == (ConnectionView {
                internal_name: Some(encode_utf8(internal_name@)),
                ..old(self)@
            }),
            r is Err ==> final(self)@ == old(self)@,
    {
        if !self.handle.is_live() {
            return Err(ErrorKind::InvalidArgument { reason: Reason::HandleNotLive });
        }
        let bytes = bytes_from_text(internal_name);
        if has_nul(&bytes) {
            return Err(ErrorKind::InvalidArgument { reason: Reason::EmbeddedNul });
        }
        if bytes.len() >= u32::MAX as usize {
            return Err(ErrorKind::InvalidArgument { reason: Reason::ValueTooLarge });
        }
        self.internal_name = ODPIStr::new(Some(bytes));
        Ok(())
    }

    /// Sets the action that the connection reports to the database.
    pub fn set_action(&mut self, action: &str) -> (r: Result<(), ErrorKind>)
        ensures
            old(self)@.handle.spec_is_live() ==> r == Ok::<(), ErrorKind>(()) && final(self)@ == (
            ConnectionView { action: Some(encode_utf8(action@)), ..old(self)@ }),
            !old(self)@.handle.spec_is_live() ==> r == not_live::<()>() && final(self)@
                == old(self)@,
    {
        if !self.handle.is_live() {
            return Err(ErrorKind::InvalidArgument { reason: Reason::HandleNotLive });
        }
        self.action = ODPIStr::from_text(action);
        Ok(())
    }

    /// Sets the client identifier that the connection reports to the database.
    pub fn set_client_identifier(&mut self, id: &str) -> (r: Result<(), ErrorKind>)
        ensures
            old(self)@.handle.spec_is_live() ==> r == Ok::<(), ErrorKind>(()) && final(self)@ == (
            ConnectionView { client_identifier: Some(encode_utf8(id@)), ..old(self)@ }),
            !old(self)@.handle.spec_is_live() ==> r == not_live::<()>() && final(self)@
                == old(self)@,
    {
        if !self.handle.is_live() {
            return Err(ErrorKind::InvalidArgument { reason: Reason::HandleNotLive });
        }
        self.client_identifier = ODPIStr::from_text(id);
        Ok(())
    }

    /// Sets the client information that the connection reports to the database.
    pub fn set_client_info(&mut self, info: &str) -> (r: Result<(), ErrorKind>)
        ensures
            old(self)@.handle.spec_is_live() ==> r == Ok::<(), ErrorKind>(()) && final(self)@ == (
            ConnectionView { client_info: Some(encode_utf8(info@)), ..old(self)@ }),
            !old(self)@.handle.spec_is_live() ==> r == not_live::<()>() && final(self)@
                == old(self)@,
    {
        if !self.handle.is_live() {
            return Err(ErrorKind::InvalidArgument { reason: Reason::HandleNotLive });
        }
        self.client_info = ODPIStr::from_text(info);
        Ok(())
    }

    /// Sets the database operation that the connection reports to the database.
    pub fn set_db_op(&mut self, op: &str) -> (r: Result<(), ErrorKind>)
        ensures
            old(self)@.handle.spec_is_live() ==> r == Ok::<(), ErrorKind>(()) && final(self)@ == (
            ConnectionView { db_op: Some(encode_utf8(op@)), ..old(self)@ }),
            !old(self)@.handle.spec_is_live() ==> r == not_live::<()>() && final(self)@
                == old(self)@,
    {
        if !self.handle.is_live() {
            return Err(ErrorKind::InvalidArgument { reason: Reason::HandleNotLive });
        }
        self.db_op = ODPIStr::from_text(op);
        Ok(())
    }

    /// Sets the module that the connection reports to the database.
    pub fn set_module(&mut self, module: &str) -> (r: Result<(), ErrorKind>)
        ensures
            old(self)@.handle.spec_is_live() ==> r == Ok::<(), ErrorKind>(()) && final(self)@ == (
            ConnectionView { module: Some(encode_utf8(module@)), ..old(self)@ }),
            !old(self)@.handle.spec_is_live() ==> r == not_live::<()>() && final(self)@
                == old(self)@,
    {
        if !self.handle.is_live() {
            return Err(ErrorKind::InvalidArgument { reason: Reason::HandleNotLive });
        }
        self.module = ODPIStr::from_text(module);
        Ok(())
    }

    /// The encodings of the connection.
    pub fn get_encoding_info(&self) -> (r: Result<EncodingInfo, ErrorKind>)
        ensures
            self@.handle.spec_is_live() ==> (r matches Ok(e) && e@ == self@.encoding),
            !self@.handle.spec_is_live() ==> r matches Err(
                ErrorKind::InvalidArgument { reason: Reason::HandleNotLive },
            ),
    {
        if !self.handle.is_live() {
            return Err(ErrorKind::InvalidArgument { reason: Reason::HandleNotLive });
        }
        Ok(self.encoding.duplicate())
    }

    /// The version of the database, with the text with which the database names its
    /// release.
    pub fn get_server_version(&self) -> (r: Result<VersionInfo, ErrorKind>)
        ensures
            self@.handle.spec_is_live() ==> (r matches Ok(v) && v@ == self@.server_version),
            !self@.handle.spec_is_live() ==> r matches Err(
                ErrorKind::InvalidArgument { reason: Reason::HandleNotLive },
            ),
    {
        if !self.handle.is_live() {
            return Err(ErrorKind::InvalidArgument { reason: Reason::HandleNotLive });
        }
        Ok(self.server_version.duplicate())
    }

    /// Succeeds where the connection has a native handle that can be used.
    pub fn get_handle(&self) -> (r: Result<(), ErrorKind>)
        ensures
            self@.handle.spec_is_live() ==> r == Ok::<(), ErrorKind>(()),
            !self@.handle.spec_is_live() ==> r == not_live::<()>(),
    {
        self.handle.check_live()
    }

    /// The number of statements that are kept in the cache.
    pub fn get_statement_cache_size(&self) -> (r: Result<u32, ErrorKind>)
        ensures
            self@.handle.spec_is_live() ==> r == Ok::<u32, ErrorKind>(self@.stmt_cache_size),
            !self@.handle.spec_is_live() ==> r == Err::<u32, ErrorKind>(
                ErrorKind::InvalidArgument { reason: Reason::HandleNotLive },
            ),
    {
        if !self.handle.is_live() {
            return Err(ErrorKind::InvalidArgument { reason: Reason::HandleNotLive });
        }
        Ok(self.stmt_cache_size)
    }

    /// Sets the number of statements that are kept in the cache.
    pub fn set_statement_cache_size(&mut self, size: u32) -> (r: Result<(), ErrorKind>)
        ensures
            old(self)@.handle.spec_is_live() ==> r == Ok::<(), ErrorKind>(()) && final(self)@ == (
            ConnectionView { stmt_cache_size: size, ..old(self)@ }),
            !old(self)@.handle.spec_is_live() ==> r == Err::<(), ErrorKind>(
                ErrorKind::InvalidArgument { reason: Reason::HandleNotLive },
            ) && final(self)@ == old(self)@,
    {
        if !self.handle.is_live() {
            return Err(ErrorKind::InvalidArgument { reason: Reason::HandleNotLive });
        }
        self.stmt_cache_size = size;
        Ok(())
    }

    /// Looks the object type `name` up. `reply` is the answer of the native library:
    /// what it reports of the type, or its report of the failure. Nested types are not
    /// looked up along with it. Refused are, in this order, a connection that is not
    /// live, a call that failed, a null handle, and a description whose attributes are
    /// not as many as it says.
    pub fn get_object_type(&self, name: &str, reply: Result<TypeDescription, ErrorInfo>) -> (r:
        Result<ObjectType, ErrorKind>)
        ensures
            !self@.handle.spec_is_live() ==> r matches Err(
                ErrorKind::InvalidArgument { reason: Reason::HandleNotLive },
            ),
            self@.handle.spec_is_live() ==> match reply {
                Err(info) => r matches Err(
                    ErrorKind::NativeCallFailed {
                        operation: Operation::ConnGetObjectType,
                        info: i,
                    },
                ) && i == info,
                Ok(d) => if d.handle == 0 {
                    r matches Err(ErrorKind::InvalidArgument { reason: Reason::NullHandle })
                } else if d.attributes@.len() != d.info.num_attributes {
                    r matches Err(ErrorKind::InvalidArgument { reason: Reason::InconsistentReply })
                } else {
                    r matches Ok(t) && t@ == (ObjectTypeView {
                        handle: HandleRef::minted(d.handle),
                        info: d.info,
                        attributes: d.attributes@,
                    })
                },
            },
    {
        if !self.handle.is_live() {
            return Err(ErrorKind::InvalidArgument { reason: Reason::HandleNotLive });
        }
        match reply {
            Err(info) => Err(
                ErrorKind::NativeCallFailed { operation: Operation::ConnGetObjectType, info },
            ),
            Ok(d) => ObjectType::describe(d),
        }
    }

    /// Makes options for dequeuing: messages are removed, the next one is taken, and
    /// the effect comes with the commit of the transaction. `reply` is the answer of
    /// the native library: the handle of what it created, or its report of the failure.
    /// Refused are, in this order, a connection that is not live, a call that failed,
    /// and a null handle.
    pub fn new_deq_options(
        &self,
        reply: Result<u64, ErrorInfo>,
    ) -> (r: Result<DeqOptions, ErrorKind>)
        ensures
            !self@.handle.spec_is_live() ==> r matches Err(
                ErrorKind::InvalidArgument { reason: Reason::HandleNotLive },
            ),
            self@.handle.spec_is_live() ==> match reply {
                Err(info) => r matches Err(
                    ErrorKind::NativeCallFailed {
                        operation: Operation::ConnNewDeqOptions,
                        info: i,
                    },
                ) && i == info,
                Ok(inner) => if inner == 0 {
                    r matches Err(ErrorKind::InvalidArgument { reason: Reason::NullHandle })
                } else {
                    r matches Ok(made) && made@ == (DeqOptionsView {
                        handle: HandleRef::minted(inner),
                        consumer_name: None,
                        correlation: None,
                        msg_id: None,
                        wait: u32::MAX,
                        transformation: None,
                        visibility: ODPIVisibility::OnCommit,
                        mode: ODPIDeqMode::Remove,
                        navigation: ODPIDeqNavigation::NextMsg,
                    }) && made@.handle.spec_is_live()
                },
            },
    {
        if !self.handle.is_live() {
            return Err(ErrorKind::InvalidArgument { reason: Reason::HandleNotLive });
        }
        match reply {
            Err(info) => Err(
                ErrorKind::NativeCallFailed { operation: Operation::ConnNewDeqOptions, info },
            ),
            Ok(inner) => {
                if inner == 0 {
                    return Err(ErrorKind::InvalidArgument { reason: Reason::NullHandle });
                }
                proof {
                    HandleRef::lemma_minted(inner);
                }
                Ok(DeqOptions::new(inner))
            },
        }
    }

    /// Makes options for enqueuing: persistent delivery, with effect at the commit of
    /// the transaction. `reply` is the answer of the native library: the handle of what
    /// it created, or its report of the failure. Refused are, in this order, a
    /// connection that is not live, a call that failed, and a null handle.
    pub fn new_enq_options(
        &self,
        reply: Result<u64, ErrorInfo>,
    ) -> (r: Result<EnqOptions, ErrorKind>)
        ensures
            !self@.handle.spec_is_live() ==> r matches Err(
                ErrorKind::InvalidArgument { reason: Reason::HandleNotLive },
            ),
            self@.handle.spec_is_live() ==> match reply {
                Err(info) => r matches Err(
                    ErrorKind::NativeCallFailed {
                        operation: Operation::ConnNewEnqOptions,
                        info: i,
                    },
                ) && i == info,
                Ok(inner) => if inner == 0 {
                    r matches Err(ErrorKind::InvalidArgument { reason: Reason::NullHandle })
                } else {
                    r matches Ok(made) && made@ == (EnqOptionsView {
                        handle: HandleRef::minted(inner),
                        delivery_mode: ODPIMessageDeliveryMode::Persistent,
                        transformation: None,
                        visibility: ODPIVisibility::OnCommit,
                    }) && made@.handle.spec_is_live()
                },
            },
    {
        if !self.handle.is_live() {
            return Err(ErrorKind::InvalidArgument { reason: Reason::HandleNotLive });
        }
        match reply {
            Err(info) => Err(
                ErrorKind::NativeCallFailed { operation: Operation::ConnNewEnqOptions, info },
            ),
            Ok(inner) => {
                if inner == 0 {
                    return Err(ErrorKind::InvalidArgument { reason: Reason::NullHandle });
                }
                proof {
                    HandleRef::lemma_minted(inner);
                }
                Ok(EnqOptions::new(inner))
            },
        }
    }

    /// Makes the properties of a new message. `reply` is the answer of the native
    /// library: the handle of what it created, or its report of the failure. Refused
    /// are, in this order, a connection that is not live, a call that failed, and a
    /// null handle.
    pub fn new_msg_props(&self, reply: Result<u64, ErrorInfo>) -> (r: Result<Properties, ErrorKind>)
        ensures
            !self@.handle.spec_is_live() ==> r matches Err(
                ErrorKind::InvalidArgument { reason: Reason::HandleNotLive },
            ),
            self@.handle.spec_is_live() ==> match reply {
                Err(info) => r matches Err(
                    ErrorKind::NativeCallFailed { operation: Operation::ConnNewMsgProps, info: i },
                ) && i == info,
                Ok(inner) => if inner == 0 {
                    r matches Err(ErrorKind::InvalidArgument { reason: Reason::NullHandle })
                } else {
                    r matches Ok(made) && made@ == PropertiesView::fresh(inner)
                        && made@.handle.spec_is_live()
                },
            },
    {
        if !self.handle.is_live() {
            return Err(ErrorKind::InvalidArgument { reason: Reason::HandleNotLive });
        }
        match reply {
            Err(info) => Err(
                ErrorKind::NativeCallFailed { operation: Operation::ConnNewMsgProps, info },
            ),
            Ok(inner) => {
                if inner == 0 {
                    return Err(ErrorKind::InvalidArgument { reason: Reason::NullHandle });
                }
                proof {
                    HandleRef::lemma_minted(inner);
                }
                Ok(Properties::new(inner))
            },
        }
    }

    /// Registers a subscription with the parameters `subscr_create_params`. `reply` is
    /// the answer of the native library: the handle and the id of the subscription, or
    /// its report of the failure. The result is the id and the subscription.
    ///
    /// Notifications reach a callback on a thread of the native library, so a
    /// subscription with a callback needs a connection that was created in threaded
    /// mode. Refused are, in this order, a connection that is not live, a callback
    /// without threaded mode, a call that failed, and a null handle.
    pub fn new_subscription(
        &self,
        subscr_create_params: &SubscrCreate,
        reply: Result<SubscriptionGrant, ErrorInfo>,
    ) -> (r: Result<(u32, Subscription), ErrorKind>)
        ensures
            !self@.handle.spec_is_live() ==> r matches Err(
                ErrorKind::InvalidArgument { reason: Reason::HandleNotLive },
            ),
            self@.handle.spec_is_live() && subscr_create_params@.callback is Some
                && self@.create_mode.spec_bits() & DPI_MODE_CREATE_THREADED == 0 ==> r matches Err(
                ErrorKind::InvalidArgument { reason: Reason::ThreadedModeRequired },
            ),
            self@.handle.spec_is_live() && !(subscr_create_params@.callback is Some
                && self@.create_mode.spec_bits() & DPI_MODE_CREATE_THREADED == 0) ==> match reply {
                Err(info) => r matches Err(
                    ErrorKind::NativeCallFailed {
                        operation: Operation::ConnNewSubscription,
                        info: i,
                    },
                ) && i == info,
                Ok(g) => if g.handle == 0 {
                    r matches Err(ErrorKind::InvalidArgument { reason: Reason::NullHandle })
                } else {
                    r matches Ok(p) && p.0 == g.id && p.1@ == (SubscriptionView {
                        handle: HandleRef::minted(g.handle),
                        id: g.id,
                        pending: Seq::empty(),
                    }) && p.1@.handle.spec_is_live()
                },
            },
    {
        if !self.handle.is_live() {
            return Err(ErrorKind::InvalidArgument { reason: Reason::HandleNotLive });
        }
        if subscr_create_params.get_callback().is_some() && self.create_mode.bits()
            & DPI_MODE_CREATE_THREADED == 0 {
            return Err(ErrorKind::InvalidArgument { reason: Reason::ThreadedModeRequired });
        }
        match reply {
            Err(info) => Err(
                ErrorKind::NativeCallFailed { operation: Operation::ConnNewSubscription, info },
            ),
            Ok(g) => {
                if g.handle == 0 {
                    return Err(ErrorKind::InvalidArgument { reason: Reason::NullHandle });
                }
                Ok((g.id, Subscription::new(g.handle, g.id)))
            },
        }
    }

    /// Creates a temporary LOB of the type `lob_type`, which is `Clob`, `NClob` or
    /// `Blob`. `reply` is the answer of the native library. Refused are, in this order,
    /// a connection that is not live, another type, a call that failed, and a null
    /// handle.
    pub fn new_temp_lob(
        &self,
        lob_type: ODPIOracleTypeNum,
        reply: Result<LobGrant, ErrorInfo>,
    ) -> (r:
        Result<Lob, ErrorKind>)
        ensures
            !self@.handle.spec_is_live() ==> r matches Err(
                ErrorKind::InvalidArgument { reason: Reason::HandleNotLive },
            ),
            self@.handle.spec_is_live() && lob_type != ODPIOracleTypeNum::Clob && lob_type
                != ODPIOracleTypeNum::NClob && lob_type != ODPIOracleTypeNum::Blob
                    ==> r matches Err(
                ErrorKind::InvalidArgument { reason: Reason::InvalidOracleType },
            ),
            self@.handle.spec_is_live() && (lob_type == ODPIOracleTypeNum::Clob || lob_type
                == ODPIOracleTypeNum::NClob || lob_type == ODPIOracleTypeNum::Blob)
                    ==> match reply {
                Err(info) => r matches Err(
                    ErrorKind::NativeCallFailed { operation: Operation::ConnNewTempLob, info: i },
                ) && i == info,
                Ok(g) => if g.handle == 0 {
                    r matches Err(ErrorKind::InvalidArgument { reason: Reason::NullHandle })
                } else {
                    r matches Ok(l) && l@ == (LobView {
                        handle: HandleRef::minted(g.handle),
                        lob_type,
                        chunk_size: g.chunk_size,
                        char_width: if lob_type == ODPIOracleTypeNum::Clob {
                            self@.encoding.max_bytes_per_char
                        } else if lob_type == ODPIOracleTypeNum::NClob {
                            self@.encoding.max_bytes_per_nchar
                        } else {
                            1
                        },
                        open: false,
                        data: Seq::empty(),
                    })
                },
            },
    {
        if !self.handle.is_live() {
            return Err(ErrorKind::InvalidArgument { reason: Reason::HandleNotLive });
        }
        let char_width = match lob_type {
            ODPIOracleTypeNum::Clob => self.encoding.max_bytes_per_char(),
            ODPIOracleTypeNum::NClob => self.encoding.max_bytes_per_nchar(),
            ODPIOracleTypeNum::Blob => 1,
            _ => {
                return Err(ErrorKind::InvalidArgument { reason: Reason::InvalidOracleType });
            },
        };
        match reply {
            Err(info) => Err(
                ErrorKind::NativeCallFailed { operation: Operation::ConnNewTempLob, info },
            ),
            Ok(g) => {
                if g.handle == 0 {
                    return Err(ErrorKind::InvalidArgument { reason: Reason::NullHandle });
                }
                Ok(Lob::new(g.handle, lob_type, g.chunk_size, char_width))
            },
        }
    }

    /// Whether a variable can be asked of the native library, and how wide its elements
    /// are: the width in bytes of one element, or the error with which `new_var` refuses
    /// the variable before it looks at the answer of the native library.
    pub fn check_new_var(
        &self,
        oracle_type_num: ODPIOracleTypeNum,
        native_type_num: ODPINativeTypeNum,
        max_array_size: u32,
        size: u32,
        size_is_bytes: bool,
    ) -> (r: Result<u32, ErrorKind>)
        ensures
            self@.new_var_error(
                oracle_type_num,
                native_type_num,
                max_array_size,
                size,
                size_is_bytes,
            ) matches Some(e) ==> r == Err::<u32, ErrorKind>(e),
            self@.new_var_error(
                oracle_type_num,
                native_type_num,
                max_array_size,
                size,
                size_is_bytes,
            ) is None ==> r == Ok::<u32, ErrorKind>(
                self@.width(oracle_type_num, size, size_is_bytes) as u32,
            ),
    {
        if !self.handle.is_live() {
            return Err(ErrorKind::InvalidArgument { reason: Reason::HandleNotLive });
        }
        if max_array_size == 0 {
            return Err(ErrorKind::InvalidArgument { reason: Reason::ZeroArraySize });
        }
        if oracle_type_num == ODPIOracleTypeNum::TypeNone || oracle_type_num
            == ODPIOracleTypeNum::Max {
            return Err(ErrorKind::InvalidArgument { reason: Reason::InvalidOracleType });
        }
        if native_type_num == ODPINativeTypeNum::Invalid {
            return Err(ErrorKind::UncheckedVariantAccess);
        }
        match element_width(
            oracle_type_num,
            size,
            size_is_bytes,
            self.encoding.max_bytes_per_char(),
            self.encoding.max_bytes_per_nchar(),
        ) {
            Some(w) => Ok(w),
            None => Err(ErrorKind::InvalidArgument { reason: Reason::ValueTooLarge }),
        }
    }

    /// Creates a variable of `max_array_size` elements for values of the database type
    /// `oracle_type_num`, which are exchanged in the representation `native_type_num`.
    /// `size` is the width of a byte string: in bytes where `size_is_bytes` holds, and
    /// otherwise, for text, in characters, each of which takes up to as many bytes as
    /// the encoding of the connection needs. `is_array` makes a PL/SQL index-by table.
    /// `reply` is the answer of the native library: the handle of the variable, or its
    /// report of the failure.
    ///
    /// Refused are, in this order, a connection that is not live, an array without
    /// elements, no database type, no representation, an element wider than 32 bits
    /// can count, a call that failed, and a null handle.
    pub fn new_var(
        &self,
        oracle_type_num: ODPIOracleTypeNum,
        native_type_num: ODPINativeTypeNum,
        max_array_size: u32,
        size: u32,
        size_is_bytes: bool,
        is_array: bool,
        reply: Result<u64, ErrorInfo>,
    ) -> (r: Result<Var, ErrorKind>)
        ensures
            self@.new_var_error(
                oracle_type_num,
                native_type_num,
                max_array_size,
                size,
                size_is_bytes,
            ) matches Some(e) ==> r matches Err(x) && x == e,
            self@.new_var_error(
                oracle_type_num,
                native_type_num,
                max_array_size,
                size,
                size_is_bytes,
            ) is None ==> match reply {
                Err(info) => r matches Err(
                    ErrorKind::NativeCallFailed { operation: Operation::ConnNewVar, info: i },
                ) && i == info,
                Ok(inner) => if inner == 0 {
                    r matches Err(ErrorKind::InvalidArgument { reason: Reason::NullHandle })
                } else {
                    r matches Ok(v) && v@ == created_var(
                        inner,
                        oracle_type_num,
                        native_type_num,
                        max_array_size,
                        self@.width(oracle_type_num, size, size_is_bytes) as u32,
                        is_array,
                        self@.encoding_of(oracle_type_num),
                    ) && v@.wf() && v@.cells.len() == max_array_size
                        && v@.handle.spec_is_live()
                },
            },
    {
        let width = match self.check_new_var(
            oracle_type_num,
            native_type_num,
            max_array_size,
            size,
            size_is_bytes,
        ) {
            Ok(w) => w,
            Err(e) => {
                return Err(e);
            },
        };
        let national = oracle_type_num == ODPIOracleTypeNum::NVarchar || oracle_type_num
            == ODPIOracleTypeNum::NChar;
        let encoding = if national {
            self.encoding.nchar_encoding()
        } else {
            self.encoding.encoding()
        };
        match reply {
            Err(info) => Err(
                ErrorKind::NativeCallFailed { operation: Operation::ConnNewVar, info },
            ),
            Ok(inner) => Var::create(
                inner,
                oracle_type_num,
                native_type_num,
                max_array_size,
                width,
                is_array,
                encoding.as_str(),
            ),
        }
    }

    /// Prepares a statement: `sql` is its text, `tag` the key under which the native
    /// library finds it in its cache. One of the two may be missing, not both.
    /// `scrollable` asks for a cursor that can scroll. `reply` is the answer of the
    /// native library: what it reports of the statement, or its report of the failure.
    /// Refused are, in this order, a connection that is not live, neither text nor
    /// tag, a call that failed, and a null handle.
    pub fn prepare_stmt(
        &self,
        sql: Option<&str>,
        tag: Option<&str>,
        scrollable: bool,
        reply: Result<Description, ErrorInfo>,
    ) -> (r: Result<Statement, ErrorKind>)
        ensures
            !self@.handle.spec_is_live() ==> r matches Err(
                ErrorKind::InvalidArgument { reason: Reason::HandleNotLive },
            ),
            self@.handle.spec_is_live() && sql is None && tag is None ==> r matches Err(
                ErrorKind::InvalidArgument { reason: Reason::MissingSqlAndTag },
            ),
            self@.handle.spec_is_live() && (sql is Some || tag is Some) ==> match reply {
                Err(info) => r matches Err(
                    ErrorKind::NativeCallFailed { operation: Operation::ConnPrepareStmt, info: i },
                ) && i == info,
                Ok(d) => if d.handle == 0 {
                    r matches Err(ErrorKind::InvalidArgument { reason: Reason::NullHandle })
                } else {
                    r matches Ok(s) && s@ == StatementView::prepared(
                        d.handle,
                        scrollable,
                        StatementInfo {
                            statement_type: d.statement_type,
                            is_returning: d.is_returning,
                        },
                        d.bind_names@,
                    ) && s@.wf() && s@.handle.spec_is_live()
                },
            },
    {
        if !self.handle.is_live() {
            return Err(ErrorKind::InvalidArgument { reason: Reason::HandleNotLive });
        }
        if sql.is_none() && tag.is_none() {
            return Err(ErrorKind::InvalidArgument { reason: Reason::MissingSqlAndTag });
        }
        match reply {
            Err(info) => Err(
                ErrorKind::NativeCallFailed { operation: Operation::ConnPrepareStmt, info },
            ),
            Ok(d) => Statement::prepare(d, scrollable),
        }
    }
}

} // verus!
